//! What the library knows of the model backends: the prompt turns it sends,
//! how each backend's request and reply are shaped, and the errors a call
//! can end in. The network round trip itself is made by the caller.
use vstd::prelude::*;
use vstd::string::*;

verus! {

/// How a call to the model failed.
#[derive(Clone, Debug)]
pub enum LLMError {
    /// The request could not be sent or its answer not received.
    Http(String),
    /// The answer was not valid text.
    Decoding(String),
    /// The answer was not the document the backend promises.
    Serde(String),
    /// A prompt turn carried a role that the backend has no word for.
    BadRole(String),
    /// The chat-completion backend reported an error.
    OpenAI(String),
    /// The backend answered with no candidate.
    EmptyResponse,
}

/// One turn of the conversation sent to the model.
#[derive(Clone, Debug)]
pub struct LLMPrompt {
    pub role: String,
    pub content: String,
}

impl View for LLMPrompt {
    type V = (Seq<char>, Seq<char>);

    open spec fn view(&self) -> (Seq<char>, Seq<char>) {
        (self.role@, self.content@)
    }
}

impl LLMPrompt {
    pub fn new(role: &str, content: &str) -> (r: Self)
        ensures
            r@ == (role@, content@),
    {
        LLMPrompt { role: String::from_str(role), content: String::from_str(content) }
    }
}

/// One text part of a turn, in the shape the multi-turn backend expects.
#[derive(Clone, Debug)]
pub struct GeminiPromptPart {
    pub text: String,
}

impl GeminiPromptPart {
    pub fn new(text: &str) -> (r: Self)
        ensures
            r.text@ == text@,
    {
        GeminiPromptPart { text: String::from_str(text) }
    }
}

/// A turn in the shape the multi-turn backend expects: a role and its parts.
#[derive(Clone, Debug)]
pub struct GeminiPrompt {
    pub role: String,
    pub parts: Vec<GeminiPromptPart>,
}

impl GeminiPrompt {
    pub open spec fn from_spec(self, turn: LLMPrompt) -> bool {
        &&& self.role@ == turn.role@
        &&& self.parts@.len() == 1
        &&& self.parts@[0].text@ == turn.content@
    }

    /// The turn as a single-part message with the same role.
    pub fn from_prompt(value: &LLMPrompt) -> (r: Self)
        ensures
            r.from_spec(*value),
    {
        let mut parts: Vec<GeminiPromptPart> = Vec::new();
        parts.push(GeminiPromptPart::new(value.content.as_str()));
        GeminiPrompt { role: String::from_str(value.role.as_str()), parts }
    }
}

/// The conversation in the shape the multi-turn backend expects, turn for turn.
pub fn gemini_contents(turns: &Vec<LLMPrompt>) -> (r: Vec<GeminiPrompt>)
    ensures
        r@.len() == turns@.len(),
        forall|i: int| 0 <= i < turns@.len() ==> #[trigger] r@[i].from_spec(turns@[i]),
{
    let mut out: Vec<GeminiPrompt> = Vec::new();
    let mut i: usize = 0;
    while i < turns.len()
        invariant
            i <= turns@.len(),
            out@.len() == i,
            forall|k: int| 0 <= k < i ==> #[trigger] out@[k].from_spec(turns@[k]),
        decreases turns@.len() - i,
    {
        out.push(GeminiPrompt::from_prompt(&turns[i]));
        i = i + 1;
    }
    out
}

/// One text part of a candidate in the multi-turn backend's reply.
#[derive(Clone, Debug, Default)]
pub struct Part {
    pub text: String,
}

/// The content of a candidate: its parts and the role that wrote them.
#[derive(Clone, Debug, Default)]
pub struct Content {
    pub parts: Vec<Part>,
    pub role: String,
}

/// One candidate answer of the multi-turn backend.
#[derive(Clone, Debug, Default)]
pub struct Candidate {
    pub content: Content,
    pub finish_reason: String,
    pub index: i64,
}

/// Token counts of one modality.
#[derive(Clone, Debug, Default)]
pub struct PromptTokensDetail {
    pub modality: String,
    pub token_count: i64,
}

/// What the multi-turn backend reports of the tokens it used.
#[derive(Clone, Debug, Default)]
pub struct UsageMetadata {
    pub prompt_token_count: i64,
    pub candidates_token_count: i64,
    pub total_token_count: i64,
    pub prompt_tokens_details: Vec<PromptTokensDetail>,
    pub thoughts_token_count: i64,
}

/// The whole reply of the multi-turn backend.
#[derive(Clone, Debug, Default)]
pub struct Root {
    pub candidates: Vec<Candidate>,
    pub usage_metadata: UsageMetadata,
    pub model_version: String,
    pub response_id: String,
}

/// The texts of the parts, one after the other.
pub open spec fn parts_text(ps: Seq<Part>) -> Seq<char>
    decreases ps.len(),
{
    if ps.len() == 0 {
        Seq::empty()
    } else {
        parts_text(ps.drop_last()) + ps.last().text@
    }
}

/// The texts of all parts of all candidates, in order.
pub open spec fn candidates_text(cs: Seq<Candidate>) -> Seq<char>
    decreases cs.len(),
{
    if cs.len() == 0 {
        Seq::empty()
    } else {
        candidates_text(cs.drop_last()) + parts_text(cs.last().content.parts@)
    }
}

impl Root {
    /// The text of the reply: every part of every candidate, concatenated;
    /// a reply without candidates is an error.
    pub fn reply_text(&self) -> (r: Result<String, LLMError>)
        ensures
            self.candidates@.len() == 0 ==> r matches Err(LLMError::EmptyResponse),
            self.candidates@.len() > 0 ==> (r matches Ok(t) && t@ == candidates_text(
                self.candidates@,
            )),
    {
        let cs = &self.candidates;
        if cs.len() == 0 {
            return Err(LLMError::EmptyResponse);
        }
        let mut buf = String::new();
        let mut i: usize = 0;
        while i < cs.len()
            invariant
                i <= cs@.len(),
                buf@ == candidates_text(cs@.subrange(0, i as int)),
            decreases cs@.len() - i,
        {
            let ps = &cs[i].content.parts;
            let ghost before = buf@;
            let mut j: usize = 0;
            while j < ps.len()
                invariant
                    j <= ps@.len(),
                    buf@ == before + parts_text(ps@.subrange(0, j as int)),
                decreases ps@.len() - j,
            {
                buf.append(ps[j].text.as_str());
                assert(ps@.subrange(0, j + 1).drop_last() == ps@.subrange(0, j as int));
                assert(before + parts_text(ps@.subrange(0, j as int)) + ps@[j as int].text@
                    == before + (parts_text(ps@.subrange(0, j as int)) + ps@[j as int].text@));
                j = j + 1;
            }
            assert(ps@.subrange(0, j as int) == ps@);
            assert(cs@.subrange(0, i + 1).drop_last() == cs@.subrange(0, i as int));
            i = i + 1;
        }
        assert(cs@.subrange(0, i as int) == cs@);
        Ok(buf)
    }
}

/// The credentials of a chat-completion backend.
pub struct OpenAI {
    api_base: String,
    token: String,
}

impl OpenAI {
    pub closed spec fn spec_api_base(&self) -> Seq<char> {
        self.api_base@
    }

    pub closed spec fn spec_token(&self) -> Seq<char> {
        self.token@
    }

    pub fn new(api_base: &str, token: &str) -> (r: Self)
        ensures
            r.spec_api_base() == api_base@,
            r.spec_token() == token@,
    {
        OpenAI { api_base: String::from_str(api_base), token: String::from_str(token) }
    }

    pub fn api_base(&self) -> (r: &str)
        ensures
            r@ == self.spec_api_base(),
    {
        self.api_base.as_str()
    }

    pub fn token(&self) -> (r: &str)
        ensures
            r@ == self.spec_token(),
    {
        self.token.as_str()
    }
}

/// The roles of the chat-completion convention.
#[derive(Clone, Copy, Debug, PartialEq, Eq, Structural)]
pub enum ChatRole {
    Developer,
    Assistant,
    User,
}

/// The chat role of the turn at position `i` with the given role: the first
/// turn carries the instructions; after it, the model's turns are the
/// assistant's and the user's stay the user's.
pub open spec fn role_for(i: int, role: Seq<char>) -> Option<ChatRole> {
    if i == 0 {
        Some(ChatRole::Developer)
    } else if role == "model"@ || role == "assistant"@ {
        Some(ChatRole::Assistant)
    } else if role == "user"@ {
        Some(ChatRole::User)
    } else {
        None
    }
}

/// The chat roles of a conversation, or the first role without one.
pub open spec fn chat_roles_of(turns: Seq<LLMPrompt>) -> Result<Seq<ChatRole>, Seq<char>>
    decreases turns.len(),
{
    if turns.len() == 0 {
        Ok(Seq::empty())
    } else {
        match chat_roles_of(turns.drop_last()) {
            Err(e) => Err(e),
            Ok(v) => match role_for(turns.len() - 1, turns.last().role@) {
                Some(r) => Ok(v.push(r)),
                None => Err(turns.last().role@),
            },
        }
    }
}

/// Maps the roles of a conversation onto the chat-completion convention.
pub fn chat_roles(turns: &Vec<LLMPrompt>) -> (r: Result<Vec<ChatRole>, LLMError>)
    ensures
        match chat_roles_of(turns@) {
            Ok(v) => r matches Ok(w) && w@ == v,
            Err(e) => r matches Err(LLMError::BadRole(b)) && b@ == e,
        },
{
    let mut out: Vec<ChatRole> = Vec::new();
    let mut i: usize = 0;
    proof {
        reveal_strlit("model");
        reveal_strlit("assistant");
        reveal_strlit("user");
    }
    while i < turns.len()
        invariant
            i <= turns@.len(),
            chat_roles_of(turns@.subrange(0, i as int)) == Ok::<Seq<ChatRole>, Seq<char>>(out@),
        decreases turns@.len() - i,
    {
        let role = turns[i].role.as_str();
        assert(turns@.subrange(0, i + 1).drop_last() == turns@.subrange(0, i as int));
        let r = if i == 0 {
            ChatRole::Developer
        } else if crate::text::str_eq(role, "model") || crate::text::str_eq(role, "assistant") {
            ChatRole::Assistant
        } else if crate::text::str_eq(role, "user") {
            ChatRole::User
        } else {
            assert(chat_roles_of(turns@.subrange(0, i + 1)) == Err::<Seq<ChatRole>, Seq<char>>(
                role@,
            ));
            proof {
                lemma_roles_error_stays(turns@, i as int + 1);
            }
            return Err(LLMError::BadRole(String::from_str(role)));
        };
        out.push(r);
        i = i + 1;
    }
    assert(turns@.subrange(0, i as int) == turns@);
    Ok(out)
}

/// Once a prefix of the conversation has a role without a chat role, so has
/// the whole conversation, with the same role.
proof fn lemma_roles_error_stays(turns: Seq<LLMPrompt>, k: int)
    requires
        0 <= k <= turns.len(),
        chat_roles_of(turns.subrange(0, k)) is Err,
    ensures
        chat_roles_of(turns) == chat_roles_of(turns.subrange(0, k)),
    decreases turns.len() - k,
{
    if k < turns.len() {
        assert(turns.subrange(0, k + 1).drop_last() == turns.subrange(0, k));
        lemma_roles_error_stays(turns, k + 1);
    } else {
        assert(turns.subrange(0, k) == turns);
    }
}

/// What `str::trim` leaves of a string.
pub uninterp spec fn trimmed(s: Seq<char>) -> Seq<char>;

/// Relies on `str::trim`: leading and trailing Unicode white space removed,
/// which depends on the characters alone.
#[verifier::external_body]
fn trim_text(s: &str) -> (r: String)
    ensures
        r@ == trimmed(s@),
{
    s.trim().to_string()
}

/// The text of a chat-completion reply, given the message content of each
/// choice: the first choice's content, trimmed; no choice or no content is an
/// error.
pub fn chat_reply_text(contents: &Vec<Option<String>>) -> (r: Result<String, LLMError>)
    ensures
        contents@.len() == 0 ==> r matches Err(LLMError::EmptyResponse),
        contents@.len() > 0 ==> match contents@[0] {
            Some(c) => r matches Ok(t) && t@ == trimmed(c@),
            None => r matches Err(LLMError::EmptyResponse),
        },
{
    if contents.len() == 0 {
        return Err(LLMError::EmptyResponse);
    }
    match &contents[0] {
        Some(c) => Ok(trim_text(c.as_str())),
        None => Err(LLMError::EmptyResponse),
    }
}

} // verus!
