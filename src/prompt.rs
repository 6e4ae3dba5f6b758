//! The conversation sent to the model: the instructions, one worked example,
//! and the live request as a JSON object.
use vstd::prelude::*;
use vstd::string::*;

use crate::llm::LLMPrompt;
use crate::text::join;

verus! {

/// The live request as the model sees it.
#[derive(Clone, Debug, PartialEq)]
pub struct UserQueryRequest {
    pub engine: String,
    pub prompt: String,
    pub language: Option<String>,
}

/// What serde_json writes for a JSON string holding the given characters.
pub uninterp spec fn json_string(s: Seq<char>) -> Seq<char>;

/// Relies on the `Display` of `serde_json::Value`: a string value is written
/// as a quoted, escaped JSON string, which depends on the characters alone.
#[verifier::external_body]
fn quote_json(s: &str) -> (r: String)
    ensures
        r@ == json_string(s@),
{
    serde_json::Value::String(s.to_string()).to_string()
}

/// The JSON text of a language: a string, or `null` when there is none.
pub open spec fn language_json(language: Option<String>) -> Seq<char> {
    match language {
        Some(l) => json_string(l@),
        None => "null"@,
    }
}

/// A request as a pretty-printed JSON object with two-space indents.
pub open spec fn request_json(engine: Seq<char>, prompt: Seq<char>, language: Seq<char>) -> Seq<
    char,
> {
    "{\n  \"engine\": "@ + json_string(engine) + ",\n  \"prompt\": "@ + json_string(prompt)
        + ",\n  \"language\": "@ + language + "\n}"@
}

impl UserQueryRequest {
    pub open spec fn spec_json(&self) -> Seq<char> {
        request_json(self.engine@, self.prompt@, language_json(self.language))
    }

    pub fn to_json(&self) -> (r: String)
        ensures
            r@ == self.spec_json(),
    {
        let engine = quote_json(self.engine.as_str());
        let prompt = quote_json(self.prompt.as_str());
        let language = match &self.language {
            Some(l) => quote_json(l.as_str()),
            None => String::from_str("null"),
        };
        let mut out = join("{\n  \"engine\": ", engine.as_str());
        out.append(",\n  \"prompt\": ");
        out.append(prompt.as_str());
        out.append(",\n  \"language\": ");
        out.append(language.as_str());
        out.append("\n}");
        out
    }
}

/// The worked example that shows the model the shape of its answer.
pub open spec fn example_reply() -> Seq<char> {
    "```json\n{\n  \"query\": \"!w history of artificial intelligence\"\n}\n```"@
}

/// The conversation for a request, as (role, content) pairs: the instructions
/// from the user, the example from the model, then the request from the user.
pub open spec fn prompt_turns(template: Seq<char>, payload: Seq<char>) -> Seq<
    (Seq<char>, Seq<char>),
> {
    seq![("user"@, template), ("model"@, example_reply()), ("user"@, payload)]
}

/// Builds the conversation for a request; the order of the turns is fixed.
pub fn compile_prompt(template: &str, request: &UserQueryRequest) -> (turns: Vec<LLMPrompt>)
    ensures
        turns@.map_values(|t: LLMPrompt| t@) == prompt_turns(template@, request.spec_json()),
{
    let payload = request.to_json();
    let mut turns: Vec<LLMPrompt> = Vec::new();
    turns.push(LLMPrompt::new("user", template));
    turns.push(
        LLMPrompt::new(
            "model",
            "```json\n{\n  \"query\": \"!w history of artificial intelligence\"\n}\n```",
        ),
    );
    turns.push(LLMPrompt::new("user", payload.as_str()));
    assert(turns@.map_values(|t: LLMPrompt| t@) == prompt_turns(template@, request.spec_json()));
    turns
}

} // verus!
