//! The Anthropic Messages API client's logic.
//!
//! Settings come from `ANTHROPIC_AUTH_TOKEN` or `ANTHROPIC_API_KEY`,
//! `ANTHROPIC_BASE_URL` (default `https://api.anthropic.com`) and
//! `ANTHROPIC_MODEL` (else the model configured for the application). Reading the
//! environment and
//! making the HTTP request is the caller's part; the settings, the URL and the
//! reading of the answer are decided here.
use vstd::prelude::*;
use vstd::string::*;

use crate::error::Error;
use crate::hypervisor::{probe_err, probe_ok, ProbeResult};
use crate::network::llm_proxy::{spec_upstream_url, upstream_url, DEFAULT_BASE_URL};

verus! {

/// `max_tokens` of a request unless set otherwise.
pub const DEFAULT_MAX_TOKENS: u32 = 4096;

/// The model named by `ANTHROPIC_MODEL`, or the application's default model.
pub open spec fn spec_model(model: Option<String>, default_model: Seq<char>) -> Seq<char> {
    match model {
        Some(m) => m@,
        None => default_model,
    }
}

fn model_or_default(model: Option<String>, default_model: &str) -> (m: String)
    ensures
        m@ == spec_model(model, default_model@),
{
    match model {
        Some(m) => m,
        None => String::from_str(default_model),
    }
}

/// The API probe, from which of the key variables are set and the configured model.
pub fn probe(has_auth_token: bool, has_api_key: bool, model: Option<String>, default_model: &str) -> (r: ProbeResult)
    ensures
        has_auth_token || has_api_key ==> r@ == probe_ok("Anthropic API ready (model: "@ + spec_model(model, default_model@) + ")"@),
        !(has_auth_token || has_api_key) ==> r@ == probe_err(
            "Anthropic agent"@,
            "ANTHROPIC_AUTH_TOKEN / ANTHROPIC_API_KEY not set"@,
        ),
{
    if has_auth_token || has_api_key {
        let m = model_or_default(model, default_model);
        let mut label = String::from_str("Anthropic API ready (model: ");
        label.append(m.as_str());
        label.append(")");
        ProbeResult::ok(label.as_str())
    } else {
        ProbeResult::err("Anthropic agent", "ANTHROPIC_AUTH_TOKEN / ANTHROPIC_API_KEY not set")
    }
}

/// The client's settings.
#[derive(Debug, Clone)]
pub struct AnthropicSettings {
    /// API key.
    pub api_key: String,
    /// Base URL of the API.
    pub base_url: String,
    /// Model name.
    pub model: String,
    /// `max_tokens` of each request.
    pub max_tokens: u32,
}

impl AnthropicSettings {
    /// Settings from the environment's values: the key is `ANTHROPIC_AUTH_TOKEN`, else
    /// `ANTHROPIC_API_KEY`, and one of them is needed; the base URL defaults to the public
    /// API, the model to `default_model`.
    pub fn from_env_values(
        auth_token: Option<String>,
        api_key: Option<String>,
        base_url: Option<String>,
        model: Option<String>,
        default_model: &str,
    ) -> (r: Result<Self, Error>)
        ensures
            (auth_token is None && api_key is None) <==> r is Err,
            r matches Err(e) ==> (e matches Error::Agent(m) && m@ == "ANTHROPIC_AUTH_TOKEN / ANTHROPIC_API_KEY not set"@),
            r matches Ok(s) ==> {
                &&& s.api_key@ == match auth_token {
                    Some(t) => t@,
                    None => match api_key {
                        Some(k) => k@,
                        None => Seq::empty(),
                    },
                }
                &&& s.base_url@ == match base_url {
                    Some(b) => b@,
                    None => DEFAULT_BASE_URL@,
                }
                &&& s.model@ == spec_model(model, default_model@)
                &&& s.max_tokens == DEFAULT_MAX_TOKENS
            },
    {
        let key = match auth_token {
            Some(t) => t,
            None => match api_key {
                Some(k) => k,
                None => {
                    return Err(Error::Agent(String::from_str("ANTHROPIC_AUTH_TOKEN / ANTHROPIC_API_KEY not set")));
                },
            },
        };
        let base = match base_url {
            Some(b) => b,
            None => String::from_str(DEFAULT_BASE_URL),
        };
        Ok(AnthropicSettings { api_key: key, base_url: base, model: model_or_default(model, default_model), max_tokens: DEFAULT_MAX_TOKENS })
    }

    /// The model name.
    pub fn model(&self) -> (m: &str)
        ensures
            m@ == self.model@,
    {
        self.model.as_str()
    }

    /// The same settings with another `max_tokens`.
    pub fn with_max_tokens(self, n: u32) -> (s: Self)
        ensures
            s.api_key@ == self.api_key@,
            s.base_url@ == self.base_url@,
            s.model@ == self.model@,
            s.max_tokens == n,
    {
        AnthropicSettings { api_key: self.api_key, base_url: self.base_url, model: self.model, max_tokens: n }
    }

    /// The Messages endpoint: the base URL without trailing slashes, then `/v1/messages`.
    pub fn messages_url(&self) -> (u: String)
        ensures
            u@ == spec_upstream_url(self.base_url@, Some("/v1/messages"@)),
    {
        upstream_url(self.base_url.as_str(), Some("/v1/messages"))
    }
}

/// One message of a conversation.
#[derive(Debug, Clone)]
pub struct Message {
    /// `"user"` or `"assistant"`.
    pub role: &'static str,
    /// The text.
    pub content: String,
}

impl Message {
    /// A message from the user.
    pub fn user(content: String) -> (m: Self)
        ensures
            m.role@ == "user"@,
            m.content@ == content@,
    {
        Message { role: "user", content }
    }

    /// A message from the assistant.
    pub fn assistant(content: String) -> (m: Self)
        ensures
            m.role@ == "assistant"@,
            m.content@ == content@,
    {
        Message { role: "assistant", content }
    }
}

/// One block of the answer's `content` array, as decoded by the caller.
#[derive(Debug, Clone)]
pub struct ContentBlock {
    /// The block's `type`, when it is a string.
    pub kind: Option<String>,
    /// The block's `text`, when it is a string.
    pub text: Option<String>,
}

/// Whether a block is of type `text`.
pub open spec fn is_text_block(b: ContentBlock) -> bool {
    b.kind matches Some(k) && k@ == "text"@
}

/// Index of the first text block, or `blocks.len()` when there is none.
pub open spec fn first_text_index(blocks: Seq<ContentBlock>) -> int
    decreases blocks.len(),
{
    if blocks.len() == 0 {
        0
    } else if is_text_block(blocks[0]) {
        0
    } else {
        1 + first_text_index(blocks.drop_first())
    }
}

/// The text of the answer: the `text` of the first block of type `text` (thinking
/// blocks may come before it), if that block has one.
pub open spec fn spec_answer_text(blocks: Option<Seq<ContentBlock>>) -> Option<Seq<char>> {
    match blocks {
        None => None,
        Some(bs) => if first_text_index(bs) < bs.len() {
            match bs[first_text_index(bs)].text {
                Some(t) => Some(t@),
                None => None,
            }
        } else {
            None
        },
    }
}

proof fn lemma_first_text_index(bs: Seq<ContentBlock>)
    ensures
        0 <= first_text_index(bs) <= bs.len(),
        first_text_index(bs) < bs.len() ==> is_text_block(bs[first_text_index(bs)]),
        forall|j: int| 0 <= j < first_text_index(bs) ==> !is_text_block(#[trigger] bs[j]),
    decreases bs.len(),
{
    if bs.len() > 0 && !is_text_block(bs[0]) {
        lemma_first_text_index(bs.drop_first());
        assert forall|j: int| 0 <= j < first_text_index(bs) implies !is_text_block(#[trigger] bs[j]) by {
            if j > 0 {
                assert(bs[j] == bs.drop_first()[j - 1]);
            }
        }
    }
}

proof fn lemma_first_text_index_at(bs: Seq<ContentBlock>, i: int)
    requires
        0 <= i <= bs.len(),
        forall|j: int| 0 <= j < i ==> !is_text_block(#[trigger] bs[j]),
        i == bs.len() || is_text_block(bs[i]),
    ensures
        first_text_index(bs) == i,
    decreases i,
{
    if i > 0 {
        assert forall|j: int| 0 <= j < i - 1 implies !is_text_block(#[trigger] bs.drop_first()[j]) by {
            assert(bs.drop_first()[j] == bs[j + 1]);
        }
        lemma_first_text_index_at(bs.drop_first(), i - 1);
    }
}

/// Reads the answer of the API: a status that is not a success is an error carrying the
/// status and the body; a body that is not JSON is an error carrying the decoder's
/// message; an answer without a text block (or whose first text block has no text) is an
/// error carrying the body.
pub fn answer_text(
    success: bool,
    status: &str,
    body: &str,
    decoded: Result<Option<Vec<ContentBlock>>, String>,
) -> (r: Result<String, Error>)
    ensures
        !success ==> (r matches Err(Error::Agent(m)) && m@ == "API error "@ + status@ + ": "@ + body@),
        success ==> match decoded {
            Err(e) => r matches Err(Error::Agent(m)) && m@ == "invalid JSON response: "@ + e@,
            Ok(blocks) => match spec_answer_text(match blocks {
                Some(b) => Some(b@),
                None => None::<Seq<ContentBlock>>,
            }) {
                Some(t) => r matches Ok(s) && s@ == t,
                None => r matches Err(Error::Agent(m)) && m@ == "no text block in response: "@ + body@,
            },
        },
{
    if !success {
        let mut m = String::from_str("API error ");
        m.append(status);
        m.append(": ");
        m.append(body);
        return Err(Error::Agent(m));
    }
    let blocks = match decoded {
        Err(e) => {
            let mut m = String::from_str("invalid JSON response: ");
            m.append(e.as_str());
            return Err(Error::Agent(m));
        },
        Ok(b) => b,
    };
    let mut none = String::from_str("no text block in response: ");
    none.append(body);
    match blocks {
        None => Err(Error::Agent(none)),
        Some(bs) => {
            let text_kind = String::from_str("text");
            let mut i: usize = 0;
            while i < bs.len()
                invariant
                    i <= bs@.len(),
                    success,
                    text_kind@ == "text"@,
                    decoded matches Ok(Some(b)) && b@ == bs@,
                    none@ == "no text block in response: "@ + body@,
                    forall|j: int| 0 <= j < i ==> !is_text_block(#[trigger] bs@[j]),
                decreases bs@.len() - i,
            {
                let is_text = match &bs[i].kind {
                    Some(k) => *k == text_kind,
                    None => false,
                };
                if is_text {
                    proof {
                        lemma_first_text_index_at(bs@, i as int);
                    }
                    return match &bs[i].text {
                        Some(t) => Ok(t.clone()),
                        None => Err(Error::Agent(none)),
                    };
                }
                i = i + 1;
            }
            proof {
                lemma_first_text_index_at(bs@, i as int);
            }
            Err(Error::Agent(none))
        },
    }
}

/// The plain contents of decoded blocks: each block's type and text.
pub open spec fn blocks_view(bs: Seq<ContentBlock>) -> Seq<(Option<Seq<char>>, Option<Seq<char>>)> {
    bs.map_values(|b: ContentBlock| (
        match b.kind { Some(k) => Some(k@), None => None },
        match b.text { Some(t) => Some(t@), None => None },
    ))
}

/// The plain contents of a decoding result.
pub open spec fn decoded_view(r: Result<Option<Vec<ContentBlock>>, String>) -> Result<Option<Seq<(Option<Seq<char>>, Option<Seq<char>>)>>, Seq<char>> {
    match r {
        Ok(Some(bs)) => Ok(Some(blocks_view(bs@))),
        Ok(None) => Ok(None),
        Err(e) => Err(e@),
    }
}

/// What `serde_json` makes of an answer body: the blocks of its `content` array (each
/// block's `type` and `text` when they are strings), nothing when `content` is not an
/// array, or the decoder's message when the body is not JSON.
pub uninterp spec fn json_content_blocks(body: Seq<char>) -> Result<Option<Seq<(Option<Seq<char>>, Option<Seq<char>>)>>, Seq<char>>;

/// `serde_json::from_str` on the answer body, then the `content` array's blocks. The
/// contract names the result; the JSON grammar is not restated here.
#[verifier::external_body]
fn decode_content_blocks(body: &str) -> (r: Result<Option<Vec<ContentBlock>>, String>)
    ensures
        decoded_view(r) == json_content_blocks(body@),
{
    serde_json::from_str::<serde_json::Value>(body).map_err(|e| e.to_string()).map(|json| {
        json["content"].as_array().map(|arr| {
            arr.iter()
                .map(|b| ContentBlock {
                    kind: b["type"].as_str().map(|s| s.to_string()),
                    text: b["text"].as_str().map(|s| s.to_string()),
                })
                .collect()
        })
    })
}

/// Reads the API's answer from its status and body: a status that is not a success is
/// an error carrying the status and the body; otherwise the body is decoded as JSON and
/// read as `answer_text` says.
pub fn read_answer(success: bool, status: &str, body: &str) -> (r: Result<String, Error>)
    ensures
        !success ==> (r matches Err(Error::Agent(m)) && m@ == "API error "@ + status@ + ": "@ + body@),
        success ==> match json_content_blocks(body@) {
            Err(e) => r matches Err(Error::Agent(m)) && m@ == "invalid JSON response: "@ + e,
            Ok(blocks) => match spec_answer_text_of(blocks) {
                Some(t) => r matches Ok(s) && s@ == t,
                None => r matches Err(Error::Agent(m)) && m@ == "no text block in response: "@ + body@,
            },
        },
{
    if !success {
        return answer_text(false, status, body, Ok(None));
    }
    let decoded = decode_content_blocks(body);
    proof {
        match &decoded {
            Ok(Some(bs)) => lemma_answer_text_view(bs@),
            _ => {},
        }
    }
    answer_text(true, status, body, decoded)
}

/// The text of the answer, on plain block contents (see `spec_answer_text`).
pub open spec fn spec_answer_text_of(blocks: Option<Seq<(Option<Seq<char>>, Option<Seq<char>>)>>) -> Option<Seq<char>> {
    match blocks {
        None => None,
        Some(bs) => {
            let i = first_text_of(bs);
            if i < bs.len() {
                bs[i].1
            } else {
                None
            }
        },
    }
}

/// Index of the first block of type `text` among plain block contents.
pub open spec fn first_text_of(bs: Seq<(Option<Seq<char>>, Option<Seq<char>>)>) -> int
    decreases bs.len(),
{
    if bs.len() == 0 {
        0
    } else if bs[0].0 == Some("text"@) {
        0
    } else {
        1 + first_text_of(bs.drop_first())
    }
}

proof fn lemma_answer_text_view(bs: Seq<ContentBlock>)
    ensures
        spec_answer_text(Some(bs)) == spec_answer_text_of(Some(blocks_view(bs))),
    decreases bs.len(),
{
    lemma_first_text_index(bs);
    lemma_first_index_view(bs);
}

proof fn lemma_first_index_view(bs: Seq<ContentBlock>)
    ensures
        first_text_index(bs) == first_text_of(blocks_view(bs)),
    decreases bs.len(),
{
    if bs.len() > 0 {
        let v = blocks_view(bs);
        assert(v[0] == (
            match bs[0].kind { Some(k) => Some(k@), None => None::<Seq<char>> },
            match bs[0].text { Some(t) => Some(t@), None => None::<Seq<char>> },
        ));
        assert(is_text_block(bs[0]) <==> v[0].0 == Some("text"@));
        assert(blocks_view(bs.drop_first()) =~= v.drop_first());
        lemma_first_index_view(bs.drop_first());
    }
}

} // verus!
