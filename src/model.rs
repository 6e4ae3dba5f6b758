//! The search request as it arrives from the web layer.
use vstd::prelude::*;
use vstd::string::*;

verus! {

/// The query parameters of a search: the text, and optionally the engine
/// identifier and the language.
#[derive(Clone, Debug)]
pub struct AiSearchQuery {
    pub q: Option<String>,
    pub engine: Option<String>,
    pub language: Option<String>,
}

/// The given value, or the default when none is given.
pub open spec fn or_default(v: Option<String>, default: Seq<char>) -> Seq<char> {
    match v {
        Some(s) => s@,
        None => default,
    }
}

fn string_or(v: &Option<String>, default: &str) -> (r: String)
    ensures
        r@ == or_default(*v, default@),
{
    match v {
        Some(s) => s.clone(),
        None => String::from_str(default),
    }
}

impl AiSearchQuery {
    /// The text, engine identifier and language a search runs on: Google and
    /// English unless given; nothing when there is no text.
    pub fn search_params(&self) -> (r: Option<(String, String, String)>)
        ensures
            match self.q {
                None => r is None,
                Some(q) => r matches Some(p) && {
                    &&& p.0@ == q@
                    &&& p.1@ == or_default(self.engine, "google"@)
                    &&& p.2@ == or_default(self.language, "English"@)
                },
            },
    {
        match &self.q {
            None => None,
            Some(q) => Some(
                (
                    q.clone(),
                    string_or(&self.engine, "google"),
                    string_or(&self.language, "English"),
                ),
            ),
        }
    }
}

} // verus!
