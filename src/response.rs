//! Reading the model's reply: an optional code fence around a JSON object
//! whose `query` field is the search query.
use vstd::prelude::*;
use vstd::string::*;

use crate::search::SearchError;

verus! {

/// `s` with every leading copy of `p` taken off.
pub open spec fn trim_start_all(s: Seq<char>, p: Seq<char>) -> Seq<char>
    decreases s.len(),
{
    if p.len() > 0 && p.len() <= s.len() && s.subrange(0, p.len() as int) == p {
        trim_start_all(s.subrange(p.len() as int, s.len() as int), p)
    } else {
        s
    }
}

/// `s` with every trailing copy of `p` taken off.
pub open spec fn trim_end_all(s: Seq<char>, p: Seq<char>) -> Seq<char>
    decreases s.len(),
{
    if p.len() > 0 && p.len() <= s.len() && s.subrange(s.len() - p.len(), s.len() as int) == p {
        trim_end_all(s.subrange(0, s.len() - p.len()), p)
    } else {
        s
    }
}

pub open spec fn starts_with(s: Seq<char>, p: Seq<char>) -> bool {
    p.len() <= s.len() && s.subrange(0, p.len() as int) == p
}

/// The reply with its code fence removed: when it opens with the marker
/// of a JSON fence, the opening markers and the closing fences go.
pub open spec fn strip_fence(raw: Seq<char>) -> Seq<char> {
    if starts_with(raw, "```json"@) {
        trim_end_all(trim_start_all(raw, "```json"@), "```"@)
    } else {
        raw
    }
}

/// Whether `p` occurs in `s` at character position `i`.
fn occurs_at(s: &str, n: usize, i: usize, p: &str) -> (r: bool)
    requires
        n == s@.len(),
        i <= n,
    ensures
        r == (p@.len() <= n - i && s@.subrange(i as int, i + p@.len()) == p@),
{
    let m = p.unicode_len();
    if m > n - i {
        return false;
    }
    let mut j: usize = 0;
    while j < m
        invariant
            n == s@.len(),
            m == p@.len(),
            i + m <= n,
            j <= m,
            s@.subrange(i as int, i + j) == p@.subrange(0, j as int),
        decreases m - j,
    {
        if s.get_char(i + j) != p.get_char(j) {
            assert(s@.subrange(i as int, i + m)[j as int] != p@[j as int]);
            return false;
        }
        assert(s@.subrange(i as int, i + j + 1) == s@.subrange(i as int, i + j).push(
            s@[i + j],
        ));
        assert(p@.subrange(0, j + 1) == p@.subrange(0, j as int).push(p@[j as int]));
        j = j + 1;
    }
    assert(p@ == p@.subrange(0, m as int));
    true
}

/// Removes the code fence that may wrap the model's reply.
pub fn strip_code_fence(raw: &str) -> (r: String)
    ensures
        r@ == strip_fence(raw@),
{
    let ghost s = raw@;
    let n = raw.unicode_len();
    proof {
        reveal_strlit("```json");
        reveal_strlit("```");
    }
    if !occurs_at(raw, n, 0, "```json") {
        return String::from_str(raw);
    }
    let mut start: usize = 0;
    assert(s.subrange(0, n as int) == s);
    while occurs_at(raw, n, start, "```json")
        invariant
            n == s.len(),
            s == raw@,
            start <= n,
            "```json"@.len() == 7,
            trim_start_all(s.subrange(start as int, n as int), "```json"@) == trim_start_all(
                s,
                "```json"@,
            ),
        decreases n - start,
    {
        let ghost t = s.subrange(start as int, n as int);
        assert(t.subrange(0, 7) == s.subrange(start as int, start + 7));
        assert(t.subrange(7, t.len() as int) == s.subrange(start + 7, n as int));
        start = start + 7;
    }
    assert(trim_start_all(s.subrange(start as int, n as int), "```json"@) == s.subrange(
        start as int,
        n as int,
    )) by {
        let t = s.subrange(start as int, n as int);
        if 7 <= t.len() {
            assert(t.subrange(0, 7) == s.subrange(start as int, start + 7));
        }
    }
    let mut end: usize = n;
    while end - start >= 3 && occurs_at(raw, n, end - 3, "```")
        invariant
            n == s.len(),
            s == raw@,
            start <= end <= n,
            "```"@.len() == 3,
            trim_end_all(s.subrange(start as int, end as int), "```"@) == strip_fence(s),
        decreases end,
    {
        let ghost t = s.subrange(start as int, end as int);
        assert(t.subrange(t.len() - 3, t.len() as int) == s.subrange(end - 3, end as int));
        assert(t.subrange(0, t.len() - 3) == s.subrange(start as int, end - 3));
        end = end - 3;
    }
    assert(trim_end_all(s.subrange(start as int, end as int), "```"@) == s.subrange(
        start as int,
        end as int,
    )) by {
        let t = s.subrange(start as int, end as int);
        if 3 <= t.len() {
            assert(t.subrange(t.len() - 3, t.len() as int) == s.subrange(end - 3, end as int));
        }
    }
    String::from_str(raw.substring_char(start, end))
}

/// The reply once read: the query the model chose.
#[derive(Clone, Debug)]
pub struct GenerateSearchQueryResponse {
    pub query: String,
}

/// The string field `query` that serde_json reads from a text, when the text
/// is a JSON object that has one.
pub uninterp spec fn json_query_field(s: Seq<char>) -> Option<Seq<char>>;

pub open spec fn opt_view(o: Option<String>) -> Option<Seq<char>> {
    match o {
        Some(s) => Some(s@),
        None => None,
    }
}

/// Relies on `serde_json::from_str` into a `serde_json::Value`, then on
/// `Value::get("query")` and `Value::as_str`: the string under the key
/// `query` of a JSON object; `None` for text that is not JSON, for another
/// kind of value, and for a missing or non-string field.
#[verifier::external_body]
fn read_query_field(s: &str) -> (r: Option<String>)
    ensures
        opt_view(r) == json_query_field(s@),
{
    let value: serde_json::Value = serde_json::from_str(s).ok()?;
    value.get("query")?.as_str().map(|q| q.to_string())
}

/// Reads the model's reply: strips the code fence, then takes the `query`
/// field of the JSON object; anything else is malformed output.
pub fn parse_model_output(raw: &str) -> (r: Result<GenerateSearchQueryResponse, SearchError>)
    ensures
        match json_query_field(strip_fence(raw@)) {
            Some(q) => r matches Ok(resp) && resp.query@ == q,
            None => r matches Err(SearchError::MalformedModelOutput),
        },
{
    let text = strip_code_fence(raw);
    match read_query_field(text.as_str()) {
        Some(query) => Ok(GenerateSearchQueryResponse { query }),
        None => Err(SearchError::MalformedModelOutput),
    }
}

/// A body wrapped in a JSON code fence comes back unchanged, as long as it
/// neither starts nor ends with a backtick.
pub proof fn lemma_fence_round_trip(body: Seq<char>)
    requires
        body.len() > 0 ==> body[0] != '`' && body.last() != '`',
    ensures
        strip_fence("```json"@ + body + "```"@) == body,
{
    reveal_strlit("```json");
    reveal_strlit("```");
    let open = "```json"@;
    let close = "```"@;
    let f = open + body + close;
    let g = body + close;
    assert(f.subrange(0, 7) =~= open);
    assert(f.subrange(7, f.len() as int) =~= g);
    if g.len() >= 7 {
        assert(g.subrange(0, 7)[0] == g[0]);
        if body.len() > 0 {
            assert(g[0] == body[0]);
        }
    }
    assert(trim_start_all(g, open) == g);
    assert(g.subrange(g.len() - 3, g.len() as int) =~= close);
    assert(g.subrange(0, g.len() - 3) =~= body);
    if body.len() >= 3 {
        assert(body.subrange(body.len() - 3, body.len() as int)[2] == body.last());
    }
    assert(trim_end_all(body, close) == body);
}

} // verus!
