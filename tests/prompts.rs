use search_bangs::auth::discord_auth_url;
use search_bangs::llm::{
    chat_reply_text, chat_roles, gemini_contents, Candidate, ChatRole, Content, GeminiPrompt,
    GeminiPromptPart, LLMError, LLMPrompt, OpenAI, Part, Root,
};
use search_bangs::model::AiSearchQuery;
use search_bangs::prompt::{compile_prompt, UserQueryRequest};

fn request(language: Option<&str>) -> UserQueryRequest {
    UserQueryRequest {
        engine: "google".to_string(),
        prompt: "say \"hi\"\n".to_string(),
        language: language.map(|l| l.to_string()),
    }
}

#[test]
fn request_json_escapes() {
    assert_eq!(
        request(Some("English")).to_json(),
        "{\n  \"engine\": \"google\",\n  \"prompt\": \"say \\\"hi\\\"\\n\",\n  \"language\": \"English\"\n}"
    );
    assert_eq!(
        request(None).to_json(),
        "{\n  \"engine\": \"google\",\n  \"prompt\": \"say \\\"hi\\\"\\n\",\n  \"language\": null\n}"
    );
}

#[test]
fn compile_prompt_order() {
    let turns = compile_prompt("TEMPLATE", &request(Some("English")));
    assert_eq!(turns.len(), 3);
    assert_eq!(turns[0].role, "user");
    assert_eq!(turns[0].content, "TEMPLATE");
    assert_eq!(turns[1].role, "model");
    assert_eq!(
        turns[1].content,
        "```json\n{\n  \"query\": \"!w history of artificial intelligence\"\n}\n```"
    );
    assert_eq!(turns[2].role, "user");
    assert_eq!(turns[2].content, request(Some("English")).to_json());
}

#[test]
fn prompt_and_parts() {
    let p = LLMPrompt::new("user", "hello");
    assert_eq!(p.role, "user");
    assert_eq!(p.content, "hello");
    assert_eq!(GeminiPromptPart::new("t").text, "t");
    let g = GeminiPrompt::from_prompt(&p);
    assert_eq!(g.role, "user");
    assert_eq!(g.parts.len(), 1);
    assert_eq!(g.parts[0].text, "hello");
    let all = gemini_contents(&vec![p.clone(), LLMPrompt::new("model", "x")]);
    assert_eq!(all.len(), 2);
    assert_eq!(all[1].role, "model");
    assert_eq!(all[1].parts[0].text, "x");
}

fn candidate(texts: &[&str]) -> Candidate {
    Candidate {
        content: Content {
            parts: texts.iter().map(|t| Part { text: t.to_string() }).collect(),
            role: "model".to_string(),
        },
        finish_reason: "STOP".to_string(),
        index: 0,
    }
}

#[test]
fn gemini_reply_concatenates() {
    let root = Root {
        candidates: vec![candidate(&["{\"qu", "ery\": "]), candidate(&["\"x\"}"])],
        ..Default::default()
    };
    assert_eq!(root.reply_text().unwrap(), "{\"query\": \"x\"}");
}

#[test]
fn gemini_reply_without_candidates() {
    let root = Root::default();
    assert!(matches!(root.reply_text(), Err(LLMError::EmptyResponse)));
    let root = Root { candidates: vec![candidate(&[])], ..Default::default() };
    assert_eq!(root.reply_text().unwrap(), "");
}

#[test]
fn chat_roles_mapping() {
    let turns = vec![
        LLMPrompt::new("user", "instructions"),
        LLMPrompt::new("model", "example"),
        LLMPrompt::new("user", "request"),
        LLMPrompt::new("assistant", "more"),
    ];
    assert_eq!(
        chat_roles(&turns).unwrap(),
        vec![ChatRole::Developer, ChatRole::Assistant, ChatRole::User, ChatRole::Assistant]
    );
    assert_eq!(chat_roles(&vec![]).unwrap(), vec![]);
}

#[test]
fn chat_roles_bad_role() {
    let turns = vec![
        LLMPrompt::new("whatever", "instructions"),
        LLMPrompt::new("system", "x"),
        LLMPrompt::new("tool", "y"),
    ];
    match chat_roles(&turns) {
        Err(LLMError::BadRole(r)) => assert_eq!(r, "system"),
        other => panic!("unexpected {:?}", other),
    }
}

#[test]
fn chat_reply_trims_first_choice() {
    let r = chat_reply_text(&vec![Some("  {\"query\": \"a\"}\n".to_string()), Some("b".to_string())]);
    assert_eq!(r.unwrap(), "{\"query\": \"a\"}");
    assert!(matches!(chat_reply_text(&vec![]), Err(LLMError::EmptyResponse)));
    assert!(matches!(chat_reply_text(&vec![None]), Err(LLMError::EmptyResponse)));
}

#[test]
fn openai_credentials() {
    let o = OpenAI::new("https://api.example.com/v1/", "token");
    assert_eq!(o.api_base(), "https://api.example.com/v1/");
    assert_eq!(o.token(), "token");
}

#[test]
fn search_params_defaults() {
    let q = AiSearchQuery { q: Some("cats".to_string()), engine: None, language: None };
    assert_eq!(
        q.search_params(),
        Some(("cats".to_string(), "google".to_string(), "English".to_string()))
    );
    let q = AiSearchQuery {
        q: Some("cats".to_string()),
        engine: Some("bing".to_string()),
        language: Some("German".to_string()),
    };
    assert_eq!(
        q.search_params(),
        Some(("cats".to_string(), "bing".to_string(), "German".to_string()))
    );
    let q = AiSearchQuery { q: None, engine: Some("bing".to_string()), language: None };
    assert_eq!(q.search_params(), None);
}

#[test]
fn discord_auth_url_format() {
    assert_eq!(
        discord_auth_url("123", "https://example.com/cb"),
        "https://discord.com/api/oauth2/authorize?client_id=123&redirect_uri=https://example.com/cb&response_type=code&scope=identify"
    );
}
