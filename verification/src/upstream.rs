//! The shapes exchanged with the generative-language endpoint, and the logic
//! that builds the outbound request and extracts the reply text.
//!
//! The wire format is fixed by the upstream service: a request is an ordered
//! sequence of turns, each an ordered sequence of text parts; a response is an
//! ordered sequence of candidates, each carrying one such turn.

use vstd::prelude::*;
use vstd::string::StringExecFns;

verus! {

/// One text part of a turn.
pub struct Part {
    pub text: String,
}

impl View for Part {
    type V = Seq<char>;

    open spec fn view(&self) -> Seq<char> {
        self.text@
    }
}

/// One entry of the ordered conversation sequence: a sequence of text parts.
pub struct Turn {
    pub parts: Vec<Part>,
}

impl View for Turn {
    type V = Seq<Seq<char>>;

    open spec fn view(&self) -> Seq<Seq<char>> {
        self.parts@.map_values(|p: Part| p@)
    }
}

/// The body sent upstream: an ordered sequence of turns.
pub struct UpstreamRequest {
    pub contents: Vec<Turn>,
}

impl View for UpstreamRequest {
    type V = Seq<Seq<Seq<char>>>;

    open spec fn view(&self) -> Seq<Seq<Seq<char>>> {
        self.contents@.map_values(|t: Turn| t@)
    }
}

/// One candidate reply of the upstream response.
pub struct Candidate {
    pub content: Turn,
}

impl View for Candidate {
    type V = Seq<Seq<char>>;

    open spec fn view(&self) -> Seq<Seq<char>> {
        self.content@
    }
}

/// The body received from upstream: an ordered sequence of candidates.
pub struct UpstreamResponse {
    pub candidates: Vec<Candidate>,
}

impl View for UpstreamResponse {
    type V = Seq<Seq<Seq<char>>>;

    open spec fn view(&self) -> Seq<Seq<Seq<char>>> {
        self.candidates@.map_values(|c: Candidate| c@)
    }
}

/// The fixed persona instruction prepended to every outbound request. It is a
/// process-wide constant and never user-controlled.
pub open spec fn spec_persona() -> Seq<char> {
    "당신은 세계적인 연애 코치 'Pink Code'입니다. 답변은 **따뜻하고 친절한 공감** 후, 사용자가 더 많은 **정보를 제공하도록 유도하는 1~2가지 핵심 질문**만 던져 짧게 마무리합니다. **절대로 첫 답변에 길고 장황한 전략이나 코칭 내용을 제시하지 마세요.** 대화 형식으로만 진행하며, 답변은 한국어로 제공됩니다."@
}

pub fn persona_text() -> (s: String)
    ensures
        s@ == spec_persona(),
{
    String::from_str(
        "당신은 세계적인 연애 코치 'Pink Code'입니다. 답변은 **따뜻하고 친절한 공감** 후, 사용자가 더 많은 **정보를 제공하도록 유도하는 1~2가지 핵심 질문**만 던져 짧게 마무리합니다. **절대로 첫 답변에 길고 장황한 전략이나 코칭 내용을 제시하지 마세요.** 대화 형식으로만 진행하며, 답변은 한국어로 제공됩니다.",
    )
}

/// The fixed fallback text substituted when no reply text can be extracted.
pub open spec fn spec_fallback() -> Seq<char> {
    "extraction failed"@
}

pub fn fallback_text() -> (s: String)
    ensures
        s@ == spec_fallback(),
{
    String::from_str("extraction failed")
}

/// What a well-formed outbound request looks like: exactly two turns, each of
/// one part, in fixed order — the persona instruction first, then the
/// caller's message verbatim.
pub open spec fn is_relay_request(req: Seq<Seq<Seq<char>>>, msg: Seq<char>) -> bool {
    &&& req.len() == 2
    &&& req[0].len() == 1
    &&& req[0][0] == spec_persona()
    &&& req[1].len() == 1
    &&& req[1][0] == msg
}

/// Builds the one outbound request for a caller's message: the persona turn,
/// then the message turn, the message embedded unmodified.
pub fn build_upstream_request(message: &String) -> (req: UpstreamRequest)
    ensures
        is_relay_request(req@, message@),
{
    let mut persona_parts: Vec<Part> = Vec::new();
    persona_parts.push(Part { text: persona_text() });
    let persona_turn = Turn { parts: persona_parts };

    let mut message_parts: Vec<Part> = Vec::new();
    message_parts.push(Part { text: message.clone() });
    let message_turn = Turn { parts: message_parts };

    let mut contents: Vec<Turn> = Vec::new();
    contents.push(persona_turn);
    contents.push(message_turn);
    let req = UpstreamRequest { contents };
    req
}

/// The reply text a response yields: the first part of the first candidate,
/// or the fixed fallback text where that position is absent.
pub open spec fn extracted(resp: UpstreamResponse) -> Seq<char> {
    if resp@.len() > 0 && resp@[0].len() > 0 {
        resp@[0][0]
    } else {
        spec_fallback()
    }
}

/// Extracts the reply text from an upstream response, degrading to the fixed
/// fallback text — never to an error — when the expected position is empty.
pub fn extract_reply(resp: &UpstreamResponse) -> (r: String)
    ensures
        r@ == extracted(*resp),
{
    if resp.candidates.len() > 0 {
        if resp.candidates[0].content.parts.len() > 0 {
            return resp.candidates[0].content.parts[0].text.clone();
        }
    }
    fallback_text()
}

/// Every well-formed outbound request holds exactly two turns, in order: one
/// holding only the fixed persona instruction, then one holding only the
/// caller's message verbatim.
pub proof fn lemma_request_two_turns(req: Seq<Seq<Seq<char>>>, msg: Seq<char>)
    requires
        is_relay_request(req, msg),
    ensures
        req.len() == 2,
        req[0] =~= seq![spec_persona()],
        req[1] =~= seq![msg],
{
}

/// Building the outbound request is deterministic and stateless: any two
/// requests built for the same message are structurally identical, so
/// repeated identical calls send identical bodies upstream.
pub proof fn lemma_build_deterministic(
    r1: Seq<Seq<Seq<char>>>,
    r2: Seq<Seq<Seq<char>>>,
    msg: Seq<char>,
)
    requires
        is_relay_request(r1, msg),
        is_relay_request(r2, msg),
    ensures
        r1 =~~= r2,
{
}

/// The fixed upstream endpoint, up to the credential that the query string
/// carries.
pub open spec fn spec_endpoint_base() -> Seq<char> {
    "https://generativelanguage.googleapis.com/v1beta/models/gemini-2.5-flash-preview-05-20:generateContent?key="@
}

/// Builds the full upstream URL: the fixed endpoint with the credential as
/// its query parameter, per the upstream service's contract.
pub fn upstream_url(api_key: &str) -> (u: String)
    ensures
        u@ == spec_endpoint_base() + api_key@,
{
    String::from_str(
        "https://generativelanguage.googleapis.com/v1beta/models/gemini-2.5-flash-preview-05-20:generateContent?key=",
    ).concat(api_key)
}

/// The hard bound, in seconds, on the one outbound network call.
pub const UPSTREAM_TIMEOUT_SECS: u64 = 45;

} // verus!
