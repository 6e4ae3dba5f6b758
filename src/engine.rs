//! The closed set of supported search engines, and how an identifier picks one.
use vstd::prelude::*;

use crate::text::{join, str_eq};

verus! {

/// A search engine that can build a destination URL from an already
/// percent-encoded query.
pub trait SearchEngine {
    /// The text that the encoded query is appended to.
    spec fn url_prefix(&self) -> Seq<char>;

    /// The canonical name of the engine, as given to the model.
    spec fn spec_name(&self) -> Seq<char>;

    fn generate_url(&self, query: &str) -> (url: String)
        ensures
            url@ == self.url_prefix() + query@,
    ;

    fn name(&self) -> (r: String)
        ensures
            r@ == self.spec_name(),
    ;
}

#[derive(Clone, Copy, Debug, Default)]
pub struct Duckduckgo {}

impl SearchEngine for Duckduckgo {
    open spec fn url_prefix(&self) -> Seq<char> {
        "https://duckduckgo.com/?q="@
    }

    open spec fn spec_name(&self) -> Seq<char> {
        "duckduckgo"@
    }

    fn generate_url(&self, query: &str) -> (url: String) {
        join("https://duckduckgo.com/?q=", query)
    }

    fn name(&self) -> (r: String) {
        String::from_str("duckduckgo")
    }
}

#[derive(Clone, Copy, Debug, Default)]
pub struct DuckduckgoLite {}

impl SearchEngine for DuckduckgoLite {
    open spec fn url_prefix(&self) -> Seq<char> {
        "https://lite.duckduckgo.com/lite?q="@
    }

    open spec fn spec_name(&self) -> Seq<char> {
        "duckduckgo"@
    }

    fn generate_url(&self, query: &str) -> (url: String) {
        join("https://lite.duckduckgo.com/lite?q=", query)
    }

    fn name(&self) -> (r: String) {
        String::from_str("duckduckgo")
    }
}

#[derive(Clone, Copy, Debug, Default)]
pub struct DuckduckgoHtml {}

impl SearchEngine for DuckduckgoHtml {
    open spec fn url_prefix(&self) -> Seq<char> {
        "https://html.duckduckgo.com/html?q="@
    }

    open spec fn spec_name(&self) -> Seq<char> {
        "duckduckgo"@
    }

    fn generate_url(&self, query: &str) -> (url: String) {
        join("https://html.duckduckgo.com/html?q=", query)
    }

    fn name(&self) -> (r: String) {
        String::from_str("duckduckgo")
    }
}

#[derive(Clone, Copy, Debug, Default)]
pub struct DuckduckgoNoAi {}

impl SearchEngine for DuckduckgoNoAi {
    open spec fn url_prefix(&self) -> Seq<char> {
        "https://noai.duckduckgo.com/?q="@
    }

    open spec fn spec_name(&self) -> Seq<char> {
        "duckduckgo"@
    }

    fn generate_url(&self, query: &str) -> (url: String) {
        join("https://noai.duckduckgo.com/?q=", query)
    }

    fn name(&self) -> (r: String) {
        String::from_str("duckduckgo")
    }
}

#[derive(Clone, Copy, Debug, Default)]
pub struct Google {}

impl SearchEngine for Google {
    open spec fn url_prefix(&self) -> Seq<char> {
        "https://www.google.com/search?q="@
    }

    open spec fn spec_name(&self) -> Seq<char> {
        "google"@
    }

    fn generate_url(&self, query: &str) -> (url: String) {
        join("https://www.google.com/search?q=", query)
    }

    fn name(&self) -> (r: String) {
        String::from_str("google")
    }
}

#[derive(Clone, Copy, Debug, Default)]
pub struct Bing {}

impl SearchEngine for Bing {
    open spec fn url_prefix(&self) -> Seq<char> {
        "https://www.bing.com/search?q="@
    }

    open spec fn spec_name(&self) -> Seq<char> {
        "bing"@
    }

    fn generate_url(&self, query: &str) -> (url: String) {
        join("https://www.bing.com/search?q=", query)
    }

    fn name(&self) -> (r: String) {
        String::from_str("bing")
    }
}

#[derive(Clone, Copy, Debug, Default)]
pub struct Baidu {}

impl SearchEngine for Baidu {
    open spec fn url_prefix(&self) -> Seq<char> {
        "https://www.baidu.com/s?wd="@
    }

    open spec fn spec_name(&self) -> Seq<char> {
        "baidu"@
    }

    fn generate_url(&self, query: &str) -> (url: String) {
        join("https://www.baidu.com/s?wd=", query)
    }

    fn name(&self) -> (r: String) {
        String::from_str("baidu")
    }
}

#[derive(Clone, Copy, Debug, Default)]
pub struct Sogou {}

impl SearchEngine for Sogou {
    open spec fn url_prefix(&self) -> Seq<char> {
        "https://www.sogou.com/web?query="@
    }

    open spec fn spec_name(&self) -> Seq<char> {
        "sogou"@
    }

    fn generate_url(&self, query: &str) -> (url: String) {
        join("https://www.sogou.com/web?query=", query)
    }

    fn name(&self) -> (r: String) {
        String::from_str("sogou")
    }
}

/// One engine of the registry; every identifier that resolves names one of these.
#[derive(Clone, Copy, Debug, PartialEq, Eq, Structural)]
pub enum Engine {
    Duckduckgo,
    DuckduckgoLite,
    DuckduckgoHtml,
    DuckduckgoNoAi,
    Google,
    Bing,
    Baidu,
    Sogou,
}

impl Engine {
    pub open spec fn url_prefix(self) -> Seq<char> {
        match self {
            Engine::Duckduckgo => Duckduckgo {}.url_prefix(),
            Engine::DuckduckgoLite => DuckduckgoLite {}.url_prefix(),
            Engine::DuckduckgoHtml => DuckduckgoHtml {}.url_prefix(),
            Engine::DuckduckgoNoAi => DuckduckgoNoAi {}.url_prefix(),
            Engine::Google => Google {}.url_prefix(),
            Engine::Bing => Bing {}.url_prefix(),
            Engine::Baidu => Baidu {}.url_prefix(),
            Engine::Sogou => Sogou {}.url_prefix(),
        }
    }

    pub open spec fn spec_name(self) -> Seq<char> {
        match self {
            Engine::Duckduckgo => Duckduckgo {}.spec_name(),
            Engine::DuckduckgoLite => DuckduckgoLite {}.spec_name(),
            Engine::DuckduckgoHtml => DuckduckgoHtml {}.spec_name(),
            Engine::DuckduckgoNoAi => DuckduckgoNoAi {}.spec_name(),
            Engine::Google => Google {}.spec_name(),
            Engine::Bing => Bing {}.spec_name(),
            Engine::Baidu => Baidu {}.spec_name(),
            Engine::Sogou => Sogou {}.spec_name(),
        }
    }

    /// The destination URL for an already percent-encoded query.
    pub fn generate_url(&self, encoded_query: &str) -> (url: String)
        ensures
            url@ == self.url_prefix() + encoded_query@,
    {
        match self {
            Engine::Duckduckgo => Duckduckgo {}.generate_url(encoded_query),
            Engine::DuckduckgoLite => DuckduckgoLite {}.generate_url(encoded_query),
            Engine::DuckduckgoHtml => DuckduckgoHtml {}.generate_url(encoded_query),
            Engine::DuckduckgoNoAi => DuckduckgoNoAi {}.generate_url(encoded_query),
            Engine::Google => Google {}.generate_url(encoded_query),
            Engine::Bing => Bing {}.generate_url(encoded_query),
            Engine::Baidu => Baidu {}.generate_url(encoded_query),
            Engine::Sogou => Sogou {}.generate_url(encoded_query),
        }
    }

    /// The canonical name of the engine.
    pub fn name(&self) -> (r: String)
        ensures
            r@ == self.spec_name(),
    {
        match self {
            Engine::Duckduckgo => Duckduckgo {}.name(),
            Engine::DuckduckgoLite => DuckduckgoLite {}.name(),
            Engine::DuckduckgoHtml => DuckduckgoHtml {}.name(),
            Engine::DuckduckgoNoAi => DuckduckgoNoAi {}.name(),
            Engine::Google => Google {}.name(),
            Engine::Bing => Bing {}.name(),
            Engine::Baidu => Baidu {}.name(),
            Engine::Sogou => Sogou {}.name(),
        }
    }
}

/// The engine that a lower-case identifier names, if any.
pub open spec fn engine_for(id: Seq<char>) -> Option<Engine> {
    if id == "ddg"@ || id == "duckduckgo"@ {
        Some(Engine::Duckduckgo)
    } else if id == "ddg-lite"@ || id == "duckduckgo-lite"@ {
        Some(Engine::DuckduckgoLite)
    } else if id == "ddg-html"@ || id == "duckduckgo-html"@ {
        Some(Engine::DuckduckgoHtml)
    } else if id == "ddg-noai"@ || id == "duckduckgo-noai"@ {
        Some(Engine::DuckduckgoNoAi)
    } else if id == "google"@ {
        Some(Engine::Google)
    } else if id == "baidu"@ {
        Some(Engine::Baidu)
    } else if id == "bing"@ {
        Some(Engine::Bing)
    } else if id == "sogou"@ {
        Some(Engine::Sogou)
    } else {
        None
    }
}

/// Looks up an identifier that is already in lower case.
pub fn resolve_lowered(id: &str) -> (r: Option<Engine>)
    ensures
        r == engine_for(id@),
{
    if str_eq(id, "ddg") || str_eq(id, "duckduckgo") {
        Some(Engine::Duckduckgo)
    } else if str_eq(id, "ddg-lite") || str_eq(id, "duckduckgo-lite") {
        Some(Engine::DuckduckgoLite)
    } else if str_eq(id, "ddg-html") || str_eq(id, "duckduckgo-html") {
        Some(Engine::DuckduckgoHtml)
    } else if str_eq(id, "ddg-noai") || str_eq(id, "duckduckgo-noai") {
        Some(Engine::DuckduckgoNoAi)
    } else if str_eq(id, "google") {
        Some(Engine::Google)
    } else if str_eq(id, "baidu") {
        Some(Engine::Baidu)
    } else if str_eq(id, "bing") {
        Some(Engine::Bing)
    } else if str_eq(id, "sogou") {
        Some(Engine::Sogou)
    } else {
        None
    }
}

/// What `str::to_lowercase` makes of a string.
pub uninterp spec fn lower_of(s: Seq<char>) -> Seq<char>;

/// Relies on `str::to_lowercase`: Unicode lower-case mapping, which depends
/// on the characters alone.
#[verifier::external_body]
fn lowercase(s: &str) -> (r: String)
    ensures
        r@ == lower_of(s@),
{
    s.to_lowercase()
}

/// Looks up an engine identifier, ignoring case.
pub fn resolve(id: &str) -> (r: Option<Engine>)
    ensures
        r == engine_for(lower_of(id@)),
{
    let lowered = lowercase(id);
    resolve_lowered(lowered.as_str())
}

} // verus!
