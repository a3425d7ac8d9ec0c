//! Keys under which the application files its secrets.

use vstd::prelude::*;

verus! {

pub const GITHUB_TOKEN: &'static str = "github_token";

pub const OPENAI_API_KEY: &'static str = "openai_api_key";

pub const ANTHROPIC_API_KEY: &'static str = "anthropic_api_key";

pub const CUSTOM_API_KEY: &'static str = "custom_api_key";

} // verus!
