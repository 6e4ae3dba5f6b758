//! The search service: answers a request from the cache, or prepares the
//! conversation for the model and turns the model's reply into a URL.
//!
//! The model is called by the caller between the two steps, so that the
//! cache is never held across the slow round trip.
use vstd::prelude::*;
use vstd::string::*;

use crate::cache::{
    inserted, keys_distinct, lemma_inserted_wf, lemma_touched, lookup, touched, CacheKey,
    EntryView, KeyView, LruCache,
};
use crate::encode::{search_url, url_encoded};
use crate::engine::{engine_for, lower_of, resolve, Engine};
use crate::llm::{LLMError, LLMPrompt};
use crate::prompt::{compile_prompt, json_string, prompt_turns, request_json, UserQueryRequest};
use crate::response::{json_query_field, parse_model_output, strip_fence};

verus! {

/// Why a request produced no URL.
#[derive(Clone, Debug)]
pub enum SearchError {
    /// The engine identifier names no supported engine.
    UnknownEngine(String),
    /// The model could not be reached or its answer not read.
    ModelInvocationFailed(LLMError),
    /// The model's reply is not a JSON object with a string field `query`.
    MalformedModelOutput,
    /// The model answered with no candidate.
    EmptyModelResponse,
}

/// The destination of a search.
#[derive(Clone, Debug)]
pub struct GenerateQueryResult {
    pub url: String,
}

/// What the model is to be asked for a request that missed the cache.
#[derive(Clone, Debug)]
pub struct ModelRequest {
    /// The model identifier.
    pub model: String,
    /// The conversation to send.
    pub turns: Vec<LLMPrompt>,
    /// The key under which the answer will be cached.
    pub key: CacheKey,
    /// The engine the URL will be built for.
    pub engine: Engine,
}

/// The first step of a request: an answer from the cache, or a question for
/// the model.
#[derive(Clone, Debug)]
pub enum QueryStep {
    Cached(GenerateQueryResult),
    Ask(ModelRequest),
}

/// The number of entries the cache holds when nothing else is configured.
pub const DEFAULT_CAPACITY: usize = 100;

/// The language of a request: the given one, or English.
pub open spec fn effective_language(language: Option<&str>) -> Seq<char> {
    match language {
        Some(l) => l@,
        None => "English"@,
    }
}

/// The cache key of a request.
pub open spec fn key_of(query: Seq<char>, engine: Seq<char>, language: Seq<char>) -> KeyView {
    (query, engine, language)
}

/// The live request as the model sees it, for a resolved engine.
pub open spec fn payload_for(engine: Engine, query: Seq<char>, language: Seq<char>) -> Seq<char> {
    request_json(engine.spec_name(), query, json_string(language))
}

/// The query generator with its cache.
pub struct SearchServiceImpl {
    llm_model: String,
    prompt_template: String,
    cache: LruCache,
}

impl SearchServiceImpl {
    pub closed spec fn spec_model(&self) -> Seq<char> {
        self.llm_model@
    }

    pub closed spec fn spec_template(&self) -> Seq<char> {
        self.prompt_template@
    }

    /// The cached entries, least recently used first.
    pub closed spec fn cache_view(&self) -> Seq<EntryView> {
        self.cache@
    }

    pub closed spec fn spec_capacity(&self) -> nat {
        self.cache.spec_capacity()
    }

    pub open spec fn wf(&self) -> bool {
        &&& self.cache_view().len() <= self.spec_capacity()
        &&& keys_distinct(self.cache_view())
    }

    /// A service with an empty cache of the given capacity.
    pub fn new(llm_model: String, prompt_template: String, capacity: usize) -> (r: Self)
        ensures
            r.wf(),
            r.spec_model() == llm_model@,
            r.spec_template() == prompt_template@,
            r.spec_capacity() == capacity,
            r.cache_view() == Seq::<EntryView>::empty(),
    {
        SearchServiceImpl { llm_model, prompt_template, cache: LruCache::new(capacity) }
    }

    /// The first step of a request. A cached URL is returned at once, with
    /// no engine lookup. Otherwise the engine is resolved, ignoring case, and
    /// the conversation for the model is prepared; the cache is unchanged.
    pub fn begin_query(&mut self, query: &str, engine: &str, language: Option<&str>) -> (r: Result<
        QueryStep,
        SearchError,
    >)
        requires
            old(self).wf(),
        ensures
            final(self).wf(),
            final(self).spec_model() == old(self).spec_model(),
            final(self).spec_template() == old(self).spec_template(),
            final(self).spec_capacity() == old(self).spec_capacity(),
            ({
                let key = key_of(query@, engine@, effective_language(language));
                match lookup(old(self).cache_view(), key) {
                    Some(url) => {
                        &&& r matches Ok(QueryStep::Cached(res)) && res.url@ == url
                        &&& final(self).cache_view() == touched(old(self).cache_view(), key)
                    },
                    None => {
                        &&& final(self).cache_view() == old(self).cache_view()
                        &&& match engine_for(lower_of(engine@)) {
                            None => r matches Err(SearchError::UnknownEngine(id)) && id@ == engine@,
                            Some(e) => r matches Ok(QueryStep::Ask(req)) && {
                                &&& req.model@ == old(self).spec_model()
                                &&& req.key@ == key
                                &&& req.engine == e
                                &&& req.turns@.map_values(|t: LLMPrompt| t@) == prompt_turns(
                                    old(self).spec_template(),
                                    payload_for(e, query@, effective_language(language)),
                                )
                            },
                        }
                    },
                }
            }),
    {
        let lang: &str = match language {
            Some(l) => l,
            None => "English",
        };
        let key = CacheKey::new(query, engine, lang);
        proof {
            lemma_touched(self.cache@, key@);
        }
        match self.cache.get(&key) {
            Some(url) => {
                return Ok(QueryStep::Cached(GenerateQueryResult { url }));
            },
            None => {},
        }
        assert(self.cache@ == touched(old(self).cache@, key@));
        let resolved = match resolve(engine) {
            Some(e) => e,
            None => {
                return Err(SearchError::UnknownEngine(String::from_str(engine)));
            },
        };
        let request = UserQueryRequest {
            engine: resolved.name(),
            prompt: String::from_str(query),
            language: Some(String::from_str(lang)),
        };
        let turns = compile_prompt(self.prompt_template.as_str(), &request);
        Ok(QueryStep::Ask(ModelRequest { model: self.llm_model.clone(), turns, key, engine: resolved }))
    }

    /// The second step: reads the model's reply. A usable query becomes the
    /// percent-encoded engine URL, which is cached under the request's key;
    /// any failure is returned and nothing is cached.
    pub fn finish_query(&mut self, request: ModelRequest, reply: Result<String, LLMError>) -> (r:
        Result<GenerateQueryResult, SearchError>)
        requires
            old(self).wf(),
        ensures
            final(self).wf(),
            final(self).spec_model() == old(self).spec_model(),
            final(self).spec_template() == old(self).spec_template(),
            final(self).spec_capacity() == old(self).spec_capacity(),
            match reply {
                Err(LLMError::EmptyResponse) => {
                    &&& r matches Err(SearchError::EmptyModelResponse)
                    &&& final(self).cache_view() == old(self).cache_view()
                },
                Err(e) => {
                    &&& r matches Err(SearchError::ModelInvocationFailed(f)) && f == e
                    &&& final(self).cache_view() == old(self).cache_view()
                },
                Ok(text) => match json_query_field(strip_fence(text@)) {
                    None => {
                        &&& r matches Err(SearchError::MalformedModelOutput)
                        &&& final(self).cache_view() == old(self).cache_view()
                    },
                    Some(q) => r matches Ok(res) && {
                        &&& res.url@ == request.engine.url_prefix() + url_encoded(q)
                        &&& final(self).cache_view() == inserted(
                            old(self).cache_view(),
                            old(self).spec_capacity(),
                            request.key@,
                            res.url@,
                        )
                    },
                },
            },
    {
        let text = match reply {
            Ok(t) => t,
            Err(LLMError::EmptyResponse) => {
                return Err(SearchError::EmptyModelResponse);
            },
            Err(e) => {
                return Err(SearchError::ModelInvocationFailed(e));
            },
        };
        let parsed = match parse_model_output(text.as_str()) {
            Ok(p) => p,
            Err(e) => {
                return Err(e);
            },
        };
        let url = search_url(&request.engine, parsed.query.as_str());
        let result = GenerateQueryResult { url: url.clone() };
        self.cache.put(request.key, url);
        Ok(result)
    }
}

/// Once a request has been answered, the same text, engine and language
/// find the URL in the cache, and every later read of that key keeps it
/// there, as long as the cache can hold an entry.
pub proof fn lemma_answer_stays_cached(s: Seq<EntryView>, cap: nat, key: KeyView, url: Seq<char>)
    requires
        keys_distinct(s),
        s.len() <= cap,
        cap >= 1,
    ensures
        keys_distinct(inserted(s, cap, key, url)),
        lookup(inserted(s, cap, key, url), key) == Some(url),
        forall|t: Seq<EntryView>|
            keys_distinct(t) && lookup(t, key) == Some(url) ==> {
                &&& keys_distinct(#[trigger] touched(t, key))
                &&& lookup(touched(t, key), key) == Some(url)
            },
{
    lemma_inserted_wf(s, cap, key, url);
    assert forall|t: Seq<EntryView>|
        keys_distinct(t) && lookup(t, key) == Some(url) implies {
            &&& keys_distinct(#[trigger] touched(t, key))
            &&& lookup(touched(t, key), key) == Some(url)
        } by {
        lemma_touched(t, key);
    }
}

} // verus!
