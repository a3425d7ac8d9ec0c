//! Query parameters of a URI, as a sequence of decoded (name, value) pairs.

use vstd::prelude::*;

verus! {

/// What `url::Url::parse` makes of `input`: the decoded query pairs of the
/// parsed URL in order of appearance, or the text of the parse error.
pub uninterp spec fn url_query(input: Seq<char>) -> Result<Seq<(Seq<char>, Seq<char>)>, Seq<char>>;

/// The pairs of a decoded query as sequences of characters.
pub open spec fn pairs_view(pairs: Result<Vec<(String, String)>, String>) -> Result<
    Seq<(Seq<char>, Seq<char>)>,
    Seq<char>,
> {
    match pairs {
        Ok(v) => Ok(v.deep_view()),
        Err(e) => Err(e@),
    }
}

/// Parses `input` with `url::Url::parse`. On success the result holds what
/// `Url::query_pairs` yields for the parsed URL, each pair as owned strings;
/// on failure it holds the `Display` text of the `url::ParseError`.
#[verifier::external_body]
pub(crate) fn parse_query(input: &str) -> (parsed: Result<Vec<(String, String)>, String>)
    ensures
        pairs_view(parsed) == url_query(input@),
{
    match url::Url::parse(input) {
        Ok(parsed) => Ok(parsed.query_pairs().into_owned().collect()),
        Err(err) => Err(err.to_string()),
    }
}

/// Value of the first pair named `name`, if there is one.
pub open spec fn first_value(pairs: Seq<(Seq<char>, Seq<char>)>, name: Seq<char>) -> Option<
    Seq<char>,
>
    decreases pairs.len(),
{
    if pairs.len() == 0 {
        None
    } else if pairs[0].0 == name {
        Some(pairs[0].1)
    } else {
        first_value(pairs.drop_first(), name)
    }
}

/// Whether some pair is named `name`.
pub open spec fn has_name(pairs: Seq<(Seq<char>, Seq<char>)>, name: Seq<char>) -> bool {
    exists|i: int| 0 <= i < pairs.len() && (#[trigger] pairs[i]).0 == name
}

/// A name has a first value exactly if some pair carries the name.
pub proof fn lemma_first_value_is_some(pairs: Seq<(Seq<char>, Seq<char>)>, name: Seq<char>)
    ensures
        first_value(pairs, name) is Some <==> has_name(pairs, name),
    decreases pairs.len(),
{
    if pairs.len() > 0 {
        let rest = pairs.drop_first();
        lemma_first_value_is_some(rest, name);
        if pairs[0].0 != name {
            if has_name(rest, name) {
                let i = choose|i: int| 0 <= i < rest.len() && (#[trigger] rest[i]).0 == name;
                assert(pairs[i + 1] == rest[i]);
            }
            if has_name(pairs, name) {
                let i = choose|i: int| 0 <= i < pairs.len() && (#[trigger] pairs[i]).0 == name;
                assert(rest[i - 1] == pairs[i]);
            }
        }
    }
}

/// The first value of a name is the value of the pair at `at`, where that
/// pair carries the name and no pair before it does.
pub proof fn lemma_first_value_at(pairs: Seq<(Seq<char>, Seq<char>)>, name: Seq<char>, at: int)
    requires
        0 <= at < pairs.len(),
        pairs[at].0 == name,
        forall|j: int| 0 <= j < at ==> (#[trigger] pairs[j]).0 != name,
    ensures
        first_value(pairs, name) == Some(pairs[at].1),
    decreases pairs.len(),
{
    if at > 0 {
        let rest = pairs.drop_first();
        assert(pairs[0].0 != name);
        assert forall|j: int| 0 <= j < at - 1 implies (#[trigger] rest[j]).0 != name by {
            assert(rest[j] == pairs[j + 1]);
        }
        lemma_first_value_at(rest, name, at - 1);
    }
}

/// Looks up the value of the first pair named `name`.
pub fn find_value(pairs: &Vec<(String, String)>, name: &str) -> (found: Option<String>)
    ensures
        found.deep_view() == first_value(pairs.deep_view(), name@),
{
    let wanted = name.to_owned();
    let mut i: usize = 0;
    assert(pairs.deep_view().skip(0) =~= pairs.deep_view());
    while i < pairs.len()
        invariant
            i <= pairs.len(),
            wanted@ == name@,
            first_value(pairs.deep_view(), name@) == first_value(
                pairs.deep_view().skip(i as int),
                name@,
            ),
        decreases pairs.len() - i,
    {
        let ghost rest = pairs.deep_view().skip(i as int);
        assert(rest[0] == (pairs[i as int].0@, pairs[i as int].1@));
        assert(rest.drop_first() =~= pairs.deep_view().skip(i + 1));
        if pairs[i].0 == wanted {
            return Some(pairs[i].1.clone());
        }
        i += 1;
    }
    None
}

} // verus!
