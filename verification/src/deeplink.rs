//! Resolving an OAuth callback that arrives as a deep link.
//!
//! The callback URI carries an authorization code, or an error. The code is
//! exchanged for a token by a single GET whose redirect is not followed: the
//! token is read from the `Location` header of the redirect itself.

use crate::query::{
    find_value, first_value, has_name, lemma_first_value_at, lemma_first_value_is_some, pairs_view,
    parse_query, url_query,
};
use crate::redirect::{redirect_target, target_of, RedirectResponse};
use crate::text::{join, starts_with, text_result};
use vstd::prelude::*;

verus! {

/// Base address of the local API that issues tokens.
pub const API_BASE_URL: &'static str = "http://localhost:3001";

/// Path and query prefix of the exchange request; the code follows it.
pub const EXCHANGE_PATH: &'static str = "/api/auth/github/callback?code=";

/// Deep links that begin with this are OAuth callbacks.
pub const CALLBACK_PREFIX: &'static str = "openlinear://callback";

/// Name under which the result of a callback is published.
pub const AUTH_CALLBACK_EVENT: &'static str = "auth:callback";

/// Reason of a failure where the callback URI is no URL; the cause follows.
pub const PARSE_URL_FAILED: &'static str = "failed to parse URL: ";

/// Reason of a failure where the redirect target is no URL; the cause follows.
pub const PARSE_REDIRECT_FAILED: &'static str = "Failed to parse redirect URL: ";

/// Reason of a failure where the callback carries no code.
pub const MISSING_CODE: &'static str = "Missing 'code' parameter in callback URL";

/// Reason of a failure where the redirect target carries no token.
pub const TOKEN_NOT_FOUND: &'static str = "Token not found in redirect URL";

/// Reason of a failure where no HTTP client could be built; the cause follows.
pub const CLIENT_FAILED: &'static str = "Failed to create HTTP client: ";

/// Reason of a failure where the request was not answered; the cause follows.
pub const TRANSPORT_FAILED: &'static str = "Failed to call auth API: ";

/// Payload published after a callback has been processed.
#[derive(Clone, Debug)]
pub struct AuthCallbackResult {
    pub success: bool,
    pub token: Option<String>,
    pub error: Option<String>,
}

impl AuthCallbackResult {
    /// A success carries a token and no error; a failure carries an error
    /// and no token.
    pub open spec fn well_formed(&self) -> bool {
        if self.success {
            self.token is Some && self.error is None
        } else {
            self.token is None && self.error is Some
        }
    }

    /// Whether this payload says exactly `outcome`.
    pub open spec fn reports(&self, outcome: Result<Seq<char>, Seq<char>>) -> bool {
        match outcome {
            Ok(token) => {
                &&& self.success
                &&& self.token matches Some(t) && t@ == token
                &&& self.error is None
            },
            Err(reason) => {
                &&& !self.success
                &&& self.token is None
                &&& self.error matches Some(e) && e@ == reason
            },
        }
    }

    /// The payload for `outcome`.
    pub fn from_outcome(outcome: Result<String, String>) -> (event: AuthCallbackResult)
        ensures
            event.reports(text_result(outcome)),
            event.well_formed(),
    {
        match outcome {
            Ok(token) => AuthCallbackResult { success: true, token: Some(token), error: None },
            Err(reason) => AuthCallbackResult { success: false, token: None, error: Some(reason) },
        }
    }
}

/// Whether a deep link is routed to the resolver.
pub fn is_callback_url(url_str: &str) -> (routed: bool)
    ensures
        routed == CALLBACK_PREFIX@.is_prefix_of(url_str@),
{
    starts_with(url_str, CALLBACK_PREFIX)
}

/// The code that a parsed callback URI carries.
///
/// An `error` parameter wins over everything else: its failure reads as the
/// first `error_description` if there is one, else as the first `error`.
/// Without an `error`, the first `code` is the answer.
pub open spec fn code_of_query(query: Result<Seq<(Seq<char>, Seq<char>)>, Seq<char>>) -> Result<
    Seq<char>,
    Seq<char>,
> {
    match query {
        Err(detail) => Err(PARSE_URL_FAILED@ + detail),
        Ok(pairs) => match first_value(pairs, "error"@) {
            Some(error) => match first_value(pairs, "error_description"@) {
                Some(description) => Err(description),
                None => Err(error),
            },
            None => match first_value(pairs, "code"@) {
                Some(code) => Ok(code),
                None => Err(MISSING_CODE@),
            },
        },
    }
}

/// The token that a parsed redirect target carries.
///
/// An `error` parameter wins; without one, the first `token` is the answer.
pub open spec fn token_of_query(query: Result<Seq<(Seq<char>, Seq<char>)>, Seq<char>>) -> Result<
    Seq<char>,
    Seq<char>,
> {
    match query {
        Err(detail) => Err(PARSE_REDIRECT_FAILED@ + detail),
        Ok(pairs) => match first_value(pairs, "error"@) {
            Some(error) => Err(error),
            None => match first_value(pairs, "token"@) {
                Some(token) => Ok(token),
                None => Err(TOKEN_NOT_FOUND@),
            },
        },
    }
}

/// Reads the authorization code out of an already parsed callback URI.
pub fn code_from_query(query: Result<Vec<(String, String)>, String>) -> (code: Result<
    String,
    String,
>)
    ensures
        text_result(code) == code_of_query(pairs_view(query)),
{
    match query {
        Err(detail) => Err(join(PARSE_URL_FAILED, detail.as_str())),
        Ok(pairs) => match find_value(&pairs, "error") {
            Some(error) => match find_value(&pairs, "error_description") {
                Some(description) => Err(description),
                None => Err(error),
            },
            None => match find_value(&pairs, "code") {
                Some(code) => Ok(code),
                None => Err(MISSING_CODE.to_owned()),
            },
        },
    }
}

/// Reads the token out of an already parsed redirect target.
pub fn token_from_query(query: Result<Vec<(String, String)>, String>) -> (token: Result<
    String,
    String,
>)
    ensures
        text_result(token) == token_of_query(pairs_view(query)),
{
    match query {
        Err(detail) => Err(join(PARSE_REDIRECT_FAILED, detail.as_str())),
        Ok(pairs) => match find_value(&pairs, "error") {
            Some(error) => Err(error),
            None => match find_value(&pairs, "token") {
                Some(token) => Ok(token),
                None => Err(TOKEN_NOT_FOUND.to_owned()),
            },
        },
    }
}

/// Extracts the authorization code from a callback URI.
pub fn extract_code_from_url(url_str: &str) -> (code: Result<String, String>)
    ensures
        text_result(code) == code_of_query(url_query(url_str@)),
{
    code_from_query(parse_query(url_str))
}

/// Extracts the token, or the error, from the target of a redirect.
pub fn extract_token_from_redirect(location: &str) -> (token: Result<String, String>)
    ensures
        text_result(token) == token_of_query(url_query(location@)),
{
    token_from_query(parse_query(location))
}

/// How the exchange request ended.
#[derive(Clone, Debug)]
pub enum ExchangeOutcome {
    /// No HTTP client could be built; the cause, as text.
    ClientFailed(String),
    /// The request was not answered; the cause, as text.
    TransportFailed(String),
    /// The API answered.
    Response(RedirectResponse),
}

/// Address of the exchange request for `code`. The code goes in as it is.
pub open spec fn exchange_url(code: Seq<char>) -> Seq<char> {
    API_BASE_URL@ + EXCHANGE_PATH@ + code
}

/// The token that an exchange yields.
///
/// A token comes only out of an answer that redirects to a readable
/// target carrying one; everything else is a failure that names its cause.
pub open spec fn token_of_exchange(outcome: ExchangeOutcome) -> Result<Seq<char>, Seq<char>> {
    match outcome {
        ExchangeOutcome::ClientFailed(cause) => Err(CLIENT_FAILED@ + cause@),
        ExchangeOutcome::TransportFailed(cause) => Err(TRANSPORT_FAILED@ + cause@),
        ExchangeOutcome::Response(response) => match target_of(response) {
            Ok(location) => token_of_query(url_query(location)),
            Err(reason) => Err(reason),
        },
    }
}

/// Builds the address of the exchange request for `code`.
pub fn exchange_request_url(code: &str) -> (url: String)
    ensures
        url@ == exchange_url(code@),
{
    let mut url = join(API_BASE_URL, EXCHANGE_PATH);
    url.append(code);
    url
}

/// Reads the token out of the way the exchange request ended.
pub fn token_from_exchange(outcome: &ExchangeOutcome) -> (token: Result<String, String>)
    ensures
        text_result(token) == token_of_exchange(*outcome),
{
    match outcome {
        ExchangeOutcome::ClientFailed(cause) => Err(join(CLIENT_FAILED, cause.as_str())),
        ExchangeOutcome::TransportFailed(cause) => Err(join(TRANSPORT_FAILED, cause.as_str())),
        ExchangeOutcome::Response(response) => match redirect_target(response) {
            Ok(location) => extract_token_from_redirect(location.as_str()),
            Err(reason) => Err(reason),
        },
    }
}

/// What is left to do after a callback URI has been read.
#[derive(Clone, Debug)]
pub enum CallbackStep {
    /// Nothing: the callback is settled, and this is its result.
    Settled(AuthCallbackResult),
    /// The code must be exchanged: fetch `url` and leave redirects unfollowed.
    Exchange { code: String, url: String },
}

/// First half of resolving a callback: reads the URI and decides whether
/// an exchange request is to be made.
pub fn begin_callback(url_str: &str) -> (step: CallbackStep)
    ensures
        match code_of_query(url_query(url_str@)) {
            Ok(code) => {
                &&& step matches CallbackStep::Exchange { code: c, url: u }
                &&& c@ == code
                &&& u@ == exchange_url(code)
            },
            Err(reason) => {
                &&& step matches CallbackStep::Settled(event)
                &&& event.reports(Err(reason))
            },
        },
{
    match extract_code_from_url(url_str) {
        Ok(code) => {
            let url = exchange_request_url(code.as_str());
            CallbackStep::Exchange { code, url }
        },
        Err(reason) => CallbackStep::Settled(AuthCallbackResult::from_outcome(Err(reason))),
    }
}

/// Second half of resolving a callback: turns the way the exchange request
/// ended into the result to publish.
pub fn finish_callback(outcome: &ExchangeOutcome) -> (event: AuthCallbackResult)
    ensures
        event.reports(token_of_exchange(*outcome)),
        event.well_formed(),
{
    AuthCallbackResult::from_outcome(token_from_exchange(outcome))
}

/// A callback whose query is `code=X&state=Y` yields the code `X`, whatever
/// `X` and `Y` are.
pub proof fn law_code_beside_state(code: Seq<char>, state: Seq<char>)
    ensures
        code_of_query(Ok(seq![("code"@, code), ("state"@, state)])) == Ok::<Seq<char>, Seq<char>>(
            code,
        ),
{
    reveal_strlit("code");
    reveal_strlit("state");
    reveal_strlit("error");
    let pairs = seq![("code"@, code), ("state"@, state)];
    assert("code"@[0] != "error"@[0]);
    assert("state"@[0] != "error"@[0]);
    assert(!has_name(pairs, "error"@));
    lemma_first_value_is_some(pairs, "error"@);
    lemma_first_value_at(pairs, "code"@, 0);
}

/// A callback without an `error` yields the value of its first `code`,
/// wherever among the other parameters that one stands.
pub proof fn law_first_code_is_extracted(pairs: Seq<(Seq<char>, Seq<char>)>, at: int)
    requires
        !has_name(pairs, "error"@),
        0 <= at < pairs.len(),
        pairs[at].0 == "code"@,
        forall|j: int| 0 <= j < at ==> (#[trigger] pairs[j]).0 != "code"@,
    ensures
        code_of_query(Ok(pairs)) == Ok::<Seq<char>, Seq<char>>(pairs[at].1),
{
    lemma_first_value_is_some(pairs, "error"@);
    lemma_first_value_at(pairs, "code"@, at);
}

/// A callback that carries an `error` fails, in whatever order its
/// parameters stand and whether or not a `code` is among them. The
/// failure reads as the first `error_description`, or, where there is
/// none, as the first `error`.
pub proof fn law_error_wins_over_code(pairs: Seq<(Seq<char>, Seq<char>)>)
    requires
        has_name(pairs, "error"@),
    ensures
        code_of_query(Ok(pairs)) is Err,
        code_of_query(Ok(pairs))->Err_0 == (if has_name(pairs, "error_description"@) {
            first_value(pairs, "error_description"@)->Some_0
        } else {
            first_value(pairs, "error"@)->Some_0
        }),
{
    lemma_first_value_is_some(pairs, "error"@);
    lemma_first_value_is_some(pairs, "error_description"@);
}

/// A callback with neither a `code` nor an `error` fails for want of the
/// code.
pub proof fn law_missing_code(pairs: Seq<(Seq<char>, Seq<char>)>)
    requires
        !has_name(pairs, "error"@),
        !has_name(pairs, "code"@),
    ensures
        code_of_query(Ok(pairs)) == Err::<Seq<char>, Seq<char>>(MISSING_CODE@),
{
    lemma_first_value_is_some(pairs, "error"@);
    lemma_first_value_is_some(pairs, "code"@);
}

/// A redirect target whose query is `token=T` yields the token `T`, and one
/// whose query is `error=E` fails with `E` as its message.
pub proof fn law_redirect_token_or_error(value: Seq<char>)
    ensures
        token_of_query(Ok(seq![("token"@, value)])) == Ok::<Seq<char>, Seq<char>>(value),
        token_of_query(Ok(seq![("error"@, value)])) == Err::<Seq<char>, Seq<char>>(value),
{
    reveal_strlit("token");
    reveal_strlit("error");
    let with_token = seq![("token"@, value)];
    let with_error = seq![("error"@, value)];
    assert("token"@[0] != "error"@[0]);
    assert(!has_name(with_token, "error"@));
    lemma_first_value_is_some(with_token, "error"@);
    lemma_first_value_at(with_token, "token"@, 0);
    lemma_first_value_at(with_error, "error"@, 0);
}

/// A redirect target that carries an `error` fails with the first `error`
/// as its message, whether or not a `token` is among its parameters.
pub proof fn law_error_wins_over_token(pairs: Seq<(Seq<char>, Seq<char>)>)
    requires
        has_name(pairs, "error"@),
    ensures
        token_of_query(Ok(pairs)) == Err::<Seq<char>, Seq<char>>(
            first_value(pairs, "error"@)->Some_0,
        ),
{
    lemma_first_value_is_some(pairs, "error"@);
}

/// A redirect target with neither a `token` nor an `error` fails for want
/// of the token.
pub proof fn law_token_not_found(pairs: Seq<(Seq<char>, Seq<char>)>)
    requires
        !has_name(pairs, "error"@),
        !has_name(pairs, "token"@),
    ensures
        token_of_query(Ok(pairs)) == Err::<Seq<char>, Seq<char>>(TOKEN_NOT_FOUND@),
{
    lemma_first_value_is_some(pairs, "error"@);
    lemma_first_value_is_some(pairs, "token"@);
}

/// An exchange yields a token only out of an answer that redirects.
pub proof fn law_token_needs_redirect(outcome: ExchangeOutcome)
    requires
        token_of_exchange(outcome) is Ok,
    ensures
        outcome matches ExchangeOutcome::Response(response) && response.status.redirects()
            && response.location is Some,
{
}

} // verus!
