//! What is needed to reach a database.

use url::Url;
use vstd::prelude::*;
use vstd::string::*;

verus! {

/// The address of a database and the token to authenticate with.
#[derive(Debug)]
pub struct Config {
    pub url: Url,
    pub auth_token: Option<String>,
}

/// The token as a text, empty where there is none.
pub open spec fn token_text(token: Option<Seq<char>>) -> Seq<char> {
    match token {
        Some(text) => text,
        None => Seq::empty(),
    }
}

/// The token as a text, empty where there is none.
pub fn token_or_empty(token: Option<String>) -> (text: String)
    ensures
        text@ == token_text(token.deep_view()),
{
    match token {
        Some(text) => text,
        None => String::new(),
    }
}

} // verus!
