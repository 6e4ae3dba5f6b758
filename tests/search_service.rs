use search_bangs::cache::{CacheKey, LruCache};
use search_bangs::llm::LLMError;
use search_bangs::search::{QueryStep, SearchError, SearchServiceImpl, DEFAULT_CAPACITY};

/// Runs one request against a stub model that always answers `reply`,
/// counting how often the model is asked.
fn generate(
    service: &mut SearchServiceImpl,
    calls: &mut usize,
    reply: &Result<String, LLMError>,
    query: &str,
    engine: &str,
    language: Option<&str>,
) -> Result<String, SearchError> {
    match service.begin_query(query, engine, language)? {
        QueryStep::Cached(res) => Ok(res.url),
        QueryStep::Ask(request) => {
            *calls += 1;
            service.finish_query(request, reply.clone()).map(|r| r.url)
        }
    }
}

fn service() -> SearchServiceImpl {
    SearchServiceImpl::new(
        "gemini-1.5-flash".to_string(),
        "write one search query".to_string(),
        DEFAULT_CAPACITY,
    )
}

const FENCED: &str = "```json\n{\"query\": \"!w history of artificial intelligence\"}\n```";

#[test]
fn end_to_end_duckduckgo() {
    let mut s = service();
    let mut calls = 0;
    let reply = Ok(FENCED.to_string());
    let q = "find the wikipedia page on AI history";
    let url = generate(&mut s, &mut calls, &reply, q, "duckduckgo", Some("English")).unwrap();
    assert_eq!(
        url,
        "https://duckduckgo.com/?q=%21w%20history%20of%20artificial%20intelligence"
    );
    assert_eq!(calls, 1);
    let again = generate(&mut s, &mut calls, &reply, q, "duckduckgo", Some("English")).unwrap();
    assert_eq!(again, url);
    assert_eq!(calls, 1);
}

#[test]
fn cache_idempotence_many_calls() {
    let mut s = service();
    let mut calls = 0;
    let reply = Ok("{\"query\": \"rust lang\"}".to_string());
    let first = generate(&mut s, &mut calls, &reply, "rust", "google", None).unwrap();
    assert_eq!(first, "https://www.google.com/search?q=rust%20lang");
    for _ in 0..5 {
        let url = generate(&mut s, &mut calls, &reply, "rust", "google", None).unwrap();
        assert_eq!(url, first);
    }
    assert_eq!(calls, 1);
}

#[test]
fn cache_key_is_exact() {
    let mut s = service();
    let mut calls = 0;
    let reply = Ok("{\"query\": \"q\"}".to_string());
    generate(&mut s, &mut calls, &reply, "rust", "google", None).unwrap();
    generate(&mut s, &mut calls, &reply, "Rust", "google", None).unwrap();
    generate(&mut s, &mut calls, &reply, "rust ", "google", None).unwrap();
    generate(&mut s, &mut calls, &reply, "rust", "Google", None).unwrap();
    generate(&mut s, &mut calls, &reply, "rust", "google", Some("French")).unwrap();
    assert_eq!(calls, 5);
    generate(&mut s, &mut calls, &reply, "rust", "google", Some("English")).unwrap();
    assert_eq!(calls, 5);
}

#[test]
fn unknown_engine_fails_fast() {
    let mut s = service();
    let mut calls = 0;
    let reply = Ok(FENCED.to_string());
    let r = generate(&mut s, &mut calls, &reply, "x", "not-a-real-engine", None);
    match r {
        Err(SearchError::UnknownEngine(id)) => assert_eq!(id, "not-a-real-engine"),
        other => panic!("unexpected {:?}", other),
    }
    assert_eq!(calls, 0);
}

#[test]
fn malformed_reply_is_not_cached() {
    let mut s = service();
    let mut calls = 0;
    let bad = Ok("not json at all".to_string());
    let r = generate(&mut s, &mut calls, &bad, "x", "bing", None);
    assert!(matches!(r, Err(SearchError::MalformedModelOutput)));
    let good = Ok("{\"query\": \"x\"}".to_string());
    let url = generate(&mut s, &mut calls, &good, "x", "bing", None).unwrap();
    assert_eq!(url, "https://www.bing.com/search?q=x");
    assert_eq!(calls, 2);
}

#[test]
fn empty_model_response_error() {
    let mut s = service();
    let mut calls = 0;
    let r = generate(&mut s, &mut calls, &Err(LLMError::EmptyResponse), "x", "ddg", None);
    assert!(matches!(r, Err(SearchError::EmptyModelResponse)));
    let r = generate(&mut s, &mut calls, &Ok("{\"query\": \"y\"}".to_string()), "x", "ddg", None);
    assert_eq!(r.unwrap(), "https://duckduckgo.com/?q=y");
    assert_eq!(calls, 2);
}

#[test]
fn model_invocation_failure_error() {
    let mut s = service();
    let mut calls = 0;
    let err = Err(LLMError::Http("connection refused".to_string()));
    let r = generate(&mut s, &mut calls, &err, "x", "ddg", None);
    match r {
        Err(SearchError::ModelInvocationFailed(LLMError::Http(m))) => {
            assert_eq!(m, "connection refused")
        }
        other => panic!("unexpected {:?}", other),
    }
}

#[test]
fn ask_step_carries_prompt() {
    let mut s = service();
    match s.begin_query("find rust docs", "DDG", None).unwrap() {
        QueryStep::Ask(req) => {
            assert_eq!(req.model, "gemini-1.5-flash");
            assert_eq!(req.turns.len(), 3);
            assert_eq!(req.turns[0].role, "user");
            assert_eq!(req.turns[0].content, "write one search query");
            assert_eq!(req.turns[1].role, "model");
            assert_eq!(req.turns[2].role, "user");
            assert_eq!(
                req.turns[2].content,
                "{\n  \"engine\": \"duckduckgo\",\n  \"prompt\": \"find rust docs\",\n  \"language\": \"English\"\n}"
            );
            assert_eq!(req.key.engine, "DDG");
            assert_eq!(req.key.language, "English");
        }
        QueryStep::Cached(_) => panic!("empty cache answered"),
    }
}

#[test]
fn service_cache_evicts_least_recent() {
    let mut s = SearchServiceImpl::new("m".to_string(), "t".to_string(), 2);
    let mut calls = 0;
    let reply = Ok("{\"query\": \"q\"}".to_string());
    generate(&mut s, &mut calls, &reply, "a", "google", None).unwrap();
    generate(&mut s, &mut calls, &reply, "b", "google", None).unwrap();
    generate(&mut s, &mut calls, &reply, "a", "google", None).unwrap();
    generate(&mut s, &mut calls, &reply, "c", "google", None).unwrap();
    assert_eq!(calls, 3);
    generate(&mut s, &mut calls, &reply, "a", "google", None).unwrap();
    assert_eq!(calls, 3);
    generate(&mut s, &mut calls, &reply, "b", "google", None).unwrap();
    assert_eq!(calls, 4);
}

fn key(i: usize) -> CacheKey {
    CacheKey::new(&format!("request {i}"), "google", "English")
}

#[test]
fn lru_eviction_property() {
    let n = 5;
    let mut c = LruCache::new(n);
    for i in 0..=n {
        c.put(key(i), format!("url {i}"));
    }
    assert_eq!(c.len(), n);
    assert_eq!(c.get(&key(0)), None);
    for i in 1..=n {
        assert_eq!(c.get(&key(i)), Some(format!("url {i}")));
    }
}

#[test]
fn lru_get_counts_as_access() {
    let mut c = LruCache::new(2);
    c.put(key(0), "a".to_string());
    c.put(key(1), "b".to_string());
    assert_eq!(c.get(&key(0)), Some("a".to_string()));
    c.put(key(2), "c".to_string());
    assert_eq!(c.get(&key(1)), None);
    assert_eq!(c.get(&key(0)), Some("a".to_string()));
    assert_eq!(c.get(&key(2)), Some("c".to_string()));
}

#[test]
fn lru_put_same_key_replaces() {
    let mut c = LruCache::new(2);
    c.put(key(0), "a".to_string());
    c.put(key(0), "b".to_string());
    assert_eq!(c.len(), 1);
    assert_eq!(c.get(&key(0)), Some("b".to_string()));
    assert_eq!(c.capacity(), 2);
}

#[test]
fn lru_zero_capacity_holds_nothing() {
    let mut c = LruCache::new(0);
    c.put(key(0), "a".to_string());
    assert_eq!(c.len(), 0);
    assert_eq!(c.get(&key(0)), None);
}

#[test]
fn cache_key_same() {
    assert!(key(1).same(&key(1)));
    assert!(!key(1).same(&key(2)));
    assert!(!CacheKey::new("a", "b", "c").same(&CacheKey::new("a", "b", "C")));
}
