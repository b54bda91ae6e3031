//! What goes out: the chat request of each backend and the token refresh.
use vstd::prelude::*;
use vstd::string::*;
use crate::error::{ChatError, ChatErrorView};
use crate::text::{trim, trim_of};
use crate::token::{account_id_from_token, account_id_of, filled, TokenBundle, TokenBundleView};

verus! {

/// The model that both backends are asked for.
pub const MODEL: &'static str = "gpt-5-codex";

/// The endpoint of the API-key backend.
pub const DIRECT_URL: &'static str = "https://api.openai.com/v1/responses";

/// The endpoint of the session backend.
pub const SESSION_URL: &'static str = "https://chatgpt.com/backend-api/codex/responses";

/// The fixed system instructions sent with every prompt.
pub const INSTRUCTIONS: &'static str = "You are a coding agent. Answer the user's request concisely and accurately.";

/// The token endpoint that exchanges a refresh token.
pub const TOKEN_URL: &'static str = "https://auth.openai.com/oauth/token";

/// The client identifier presented to the token endpoint.
pub const CLIENT_ID: &'static str = "app_EMoamEEZ73f0CkXaXp7hrann";

/// The scope asked for on refresh.
pub const REFRESH_SCOPE: &'static str = "openid profile email";

/// One content piece of an input message.
#[derive(Debug)]
pub struct ChatContent {
    pub kind: String,
    pub text: String,
}

/// One input message.
#[derive(Debug)]
pub struct ChatInput {
    pub role: String,
    pub content: Vec<ChatContent>,
}

/// The body of a chat request.
#[derive(Debug)]
pub struct ChatRequest {
    pub model: String,
    pub input: Vec<ChatInput>,
    pub instructions: String,
    pub stream: bool,
    pub store: bool,
}

/// A chat request with where it goes and how it authenticates.
#[derive(Debug)]
pub struct OutboundCall {
    pub url: String,
    pub bearer: String,
    pub headers: Vec<(String, String)>,
    pub request: ChatRequest,
}

/// The form fields of a refresh exchange.
#[derive(Debug)]
pub struct RefreshRequest {
    pub url: String,
    pub client_id: String,
    pub grant_type: String,
    pub refresh_token: String,
    pub scope: String,
}

/// The input messages as (role, [(kind, text)]) sequences.
pub open spec fn input_view(v: Seq<ChatInput>) -> Seq<(Seq<char>, Seq<(Seq<char>, Seq<char>)>)> {
    v.map_values(
        |m: ChatInput| (m.role@, m.content@.map_values(|c: ChatContent| (c.kind@, c.text@))),
    )
}

/// Headers as pairs of character sequences.
pub open spec fn headers_view(v: Seq<(String, String)>) -> Seq<(Seq<char>, Seq<char>)> {
    v.map_values(|h: (String, String)| (h.0@, h.1@))
}

/// A request body for a prompt: the prompt as one user message with one
/// `input_text` piece, the fixed model and instructions, never stored.
pub open spec fn is_request_for(r: ChatRequest, prompt: Seq<char>, stream: bool) -> bool {
    &&& r.model@ == MODEL@
    &&& input_view(r.input@) == seq![("user"@, seq![("input_text"@, prompt)])]
    &&& r.instructions@ == INSTRUCTIONS@
    &&& r.stream == stream
    &&& !r.store
}

/// Builds the request body for a prompt.
pub fn chat_request(prompt: &str, stream: bool) -> (r: ChatRequest)
    ensures
        is_request_for(r, prompt@, stream),
{
    let piece = ChatContent { kind: "input_text".to_owned(), text: prompt.to_owned() };
    let message = ChatInput { role: "user".to_owned(), content: vec![piece] };
    let r = ChatRequest {
        model: MODEL.to_owned(),
        input: vec![message],
        instructions: INSTRUCTIONS.to_owned(),
        stream,
        store: false,
    };
    assert(r.input@[0].content@.map_values(|c: ChatContent| (c.kind@, c.text@)) =~= seq![
        ("input_text"@, prompt@),
    ]);
    assert(input_view(r.input@) =~= seq![("user"@, seq![("input_text"@, prompt@)])]);
    r
}

/// The call to the API-key backend: bearer key, no further headers, no streaming.
pub fn direct_call(api_key: &str, prompt: &str) -> (r: OutboundCall)
    ensures
        is_direct_call(r, api_key@, prompt@),
{
    OutboundCall {
        url: DIRECT_URL.to_owned(),
        bearer: api_key.to_owned(),
        headers: Vec::new(),
        request: chat_request(prompt, false),
    }
}

/// The bearer of the session backend: the trimmed access token, empty when
/// there is none.
pub open spec fn session_bearer(t: TokenBundleView) -> Seq<char> {
    match t.access_token {
        Some(a) => trim_of(a),
        None => seq![],
    }
}

/// The headers of the session backend besides the bearer.
pub open spec fn session_headers(account: Seq<char>, conversation_id: Seq<char>) -> Seq<
    (Seq<char>, Seq<char>),
> {
    seq![
        ("OpenAI-Beta"@, "responses=experimental"@),
        ("chatgpt-account-id"@, account),
        ("conversation_id"@, conversation_id),
        ("session_id"@, conversation_id),
    ]
}

/// A session call for a bundle and a prompt: the token's failure, or a
/// streaming call that carries the account identifier and one
/// 36-character conversation identifier under both identifier headers.
pub open spec fn is_session_call(
    r: Result<OutboundCall, ChatError>,
    bundle: TokenBundleView,
    prompt: Seq<char>,
) -> bool {
    match account_id_of(bundle.id_token) {
        Err(e) => r is Err && r->Err_0@ == e,
        Ok(account) => r is Ok && {
            let c = r->Ok_0;
            &&& c.url@ == SESSION_URL@
            &&& c.bearer@ == session_bearer(bundle)
            &&& c.headers@.len() == 4
            &&& c.headers@[2].1@.len() == 36
            &&& headers_view(c.headers@) == session_headers(account, c.headers@[2].1@)
            &&& is_request_for(c.request, prompt, true)
        },
    }
}

/// A direct call for an API key and a prompt.
pub open spec fn is_direct_call(c: OutboundCall, api_key: Seq<char>, prompt: Seq<char>) -> bool {
    &&& c.url@ == DIRECT_URL@
    &&& c.bearer@ == api_key
    &&& c.headers@.len() == 0
    &&& is_request_for(c.request, prompt, false)
}

/// The refresh exchange owed for a bundle.
pub open spec fn is_refresh_for(r: Result<RefreshRequest, ChatError>, bundle: TokenBundleView) -> bool {
    if filled(bundle.refresh_token) {
        r is Ok && {
            let q = r->Ok_0;
            &&& q.url@ == TOKEN_URL@
            &&& q.client_id@ == CLIENT_ID@
            &&& q.grant_type@ == "refresh_token"@
            &&& q.refresh_token@ == trim_of(bundle.refresh_token->0)
            &&& q.scope@ == REFRESH_SCOPE@
        }
    } else {
        r is Err && r->Err_0@ == ChatErrorView::NoRefreshToken
    }
}

/// The call to the session backend with a given conversation identifier:
/// it fails as the identity token does, else it carries the account
/// identifier and the conversation identifier under both names, and streams.
pub fn session_call_with_id(bundle: &TokenBundle, prompt: &str, conversation_id: &str) -> (r: Result<
    OutboundCall,
    ChatError,
>)
    ensures
        match account_id_of(bundle.id_token@) {
            Err(e) => r is Err && r->Err_0@ == e,
            Ok(account) => r is Ok && {
                let c = r->Ok_0;
                &&& c.url@ == SESSION_URL@
                &&& c.bearer@ == session_bearer(bundle@)
                &&& headers_view(c.headers@) == session_headers(account, conversation_id@)
                &&& is_request_for(c.request, prompt@, true)
            },
        },
{
    let account = match account_id_from_token(bundle.id_token.as_str()) {
        Ok(a) => a,
        Err(e) => return Err(e),
    };
    let bearer = match &bundle.access_token {
        Some(a) => trim(a.as_str()).to_owned(),
        None => String::new(),
    };
    let headers = vec![
        ("OpenAI-Beta".to_owned(), "responses=experimental".to_owned()),
        ("chatgpt-account-id".to_owned(), account),
        ("conversation_id".to_owned(), conversation_id.to_owned()),
        ("session_id".to_owned(), conversation_id.to_owned()),
    ];
    assert(headers_view(headers@) =~= session_headers(account@, conversation_id@));
    Ok(
        OutboundCall {
            url: SESSION_URL.to_owned(),
            bearer,
            headers,
            request: chat_request(prompt, true),
        },
    )
}

/// Relies on `uuid::Uuid::new_v4` and its `Display`: a fresh random
/// identifier in the 36-character hyphenated form.
#[verifier::external_body]
fn new_conversation_id() -> (r: String)
    ensures
        r@.len() == 36,
{
    uuid::Uuid::new_v4().to_string()
}

/// The call to the session backend with a fresh conversation identifier,
/// sent under both identifier headers.
pub fn session_call(bundle: &TokenBundle, prompt: &str) -> (r: Result<OutboundCall, ChatError>)
    ensures
        is_session_call(r, bundle@, prompt@),
{
    let id = new_conversation_id();
    let r = session_call_with_id(bundle, prompt, id.as_str());
    proof {
        if r is Ok {
            let h = r->Ok_0.headers@;
            assert(headers_view(h).len() == 4);
            assert(headers_view(h)[2] == (h[2].0@, h[2].1@));
        }
    }
    r
}

/// The refresh exchange for a bundle, or `NoRefreshToken` when it has no
/// non-blank refresh token.
pub fn refresh_request(bundle: &TokenBundle) -> (r: Result<RefreshRequest, ChatError>)
    ensures
        is_refresh_for(r, bundle@),
{
    match &bundle.refresh_token {
        Some(t) => {
            let token = trim(t.as_str());
            if token.unicode_len() == 0 {
                return Err(ChatError::NoRefreshToken);
            }
            Ok(
                RefreshRequest {
                    url: TOKEN_URL.to_owned(),
                    client_id: CLIENT_ID.to_owned(),
                    grant_type: "refresh_token".to_owned(),
                    refresh_token: token.to_owned(),
                    scope: REFRESH_SCOPE.to_owned(),
                },
            )
        },
        None => Err(ChatError::NoRefreshToken),
    }
}

} // verus!
