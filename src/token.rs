//! Credentials, the identity-token claim, and the merge of a refreshed bundle.
use vstd::prelude::*;
use base64::Engine as _;
use crate::error::{ChatError, ChatErrorView};
use crate::json::{
    json_as_str, json_get, json_of_bytes, json_of_text, member, parse_json_bytes, parse_json_text,
    str_member, JsonView,
};
use crate::reply::{opt_view, optional_text};
use crate::text::{split_on, split_text, trim, trim_of};

verus! {

/// The claim object of an identity token that carries the account identifier.
pub const AUTH_CLAIM: &'static str = "https://api.openai.com/auth";

/// The member of the claim object that holds the account identifier.
pub const ACCOUNT_ID_CLAIM: &'static str = "chatgpt_account_id";

/// What `URL_SAFE_NO_PAD.decode` gives for a text, if it is unpadded base64url.
pub uninterp spec fn base64url_decoded(s: Seq<char>) -> Option<Seq<u8>>;

/// Relies on `base64`'s `URL_SAFE_NO_PAD` engine: the decoded bytes, or `None`
/// for a text that is not unpadded base64url.
#[verifier::external_body]
fn decode_base64url(s: &str) -> (r: Option<Vec<u8>>)
    ensures
        match r {
            Some(b) => base64url_decoded(s@) == Some(b@),
            None => base64url_decoded(s@).is_none(),
        },
{
    base64::engine::general_purpose::URL_SAFE_NO_PAD.decode(s).ok()
}

/// The account identifier that an identity token's payload claims, or why
/// there is none. The signature segment is not checked.
pub open spec fn account_id_of(token: Seq<char>) -> Result<Seq<char>, ChatErrorView> {
    let parts = split_on(token, '.');
    if parts.len() != 3 || parts[0].len() == 0 || parts[1].len() == 0 || parts[2].len() == 0 {
        Err(ChatErrorView::MalformedToken)
    } else {
        match base64url_decoded(parts[1]) {
            None => Err(ChatErrorView::TokenDecodeError),
            Some(bytes) => match json_of_bytes(bytes) {
                None => Err(ChatErrorView::TokenDecodeError),
                Some(claims) => match member(claims, AUTH_CLAIM@) {
                    Some(auth) => match str_member(auth, ACCOUNT_ID_CLAIM@) {
                        Some(id) => Ok(id),
                        None => Err(ChatErrorView::MissingAccountClaim),
                    },
                    None => Err(ChatErrorView::MissingAccountClaim),
                },
            },
        }
    }
}

/// A token that is not three non-empty dot-separated segments is refused as
/// malformed; one whose payload decodes to claims that carry the account
/// identifier gives exactly that identifier.
pub proof fn lemma_account_id_of_shape(token: Seq<char>)
    ensures
        split_on(token, '.').len() != 3 ==> account_id_of(token) == Err::<Seq<char>, ChatErrorView>(
            ChatErrorView::MalformedToken,
        ),
        ({
            let parts = split_on(token, '.');
            parts.len() == 3 && parts[0].len() > 0 && parts[1].len() > 0 && parts[2].len() > 0
                && base64url_decoded(parts[1]) is Some
                && json_of_bytes(base64url_decoded(parts[1])->0) is Some ==> ({
                let claims = json_of_bytes(base64url_decoded(parts[1])->0)->0;
                match member(claims, AUTH_CLAIM@) {
                    Some(auth) => match str_member(auth, ACCOUNT_ID_CLAIM@) {
                        Some(id) => account_id_of(token) == Ok::<Seq<char>, ChatErrorView>(id),
                        None => account_id_of(token) == Err::<Seq<char>, ChatErrorView>(
                            ChatErrorView::MissingAccountClaim,
                        ),
                    },
                    None => account_id_of(token) == Err::<Seq<char>, ChatErrorView>(
                        ChatErrorView::MissingAccountClaim,
                    ),
                }
            })
        }),
{
}

/// Reads the account identifier from the payload of an identity token.
pub fn account_id_from_token(token: &str) -> (r: Result<String, ChatError>)
    ensures
        crate::error::outcome_view(r) == account_id_of(token@),
{
    let parts = split_text(token, '.');
    if parts.len() != 3 || parts[0].unicode_len() == 0 || parts[1].unicode_len() == 0
        || parts[2].unicode_len() == 0 {
        return Err(ChatError::MalformedToken);
    }
    assert(parts@[1]@ == split_on(token@, '.')[1]);
    let bytes = match decode_base64url(parts[1].as_str()) {
        Some(b) => b,
        None => return Err(ChatError::TokenDecodeError),
    };
    let claims = match parse_json_bytes(bytes.as_slice()) {
        Some(c) => c,
        None => return Err(ChatError::TokenDecodeError),
    };
    let auth = match json_get(&claims, AUTH_CLAIM) {
        Some(a) => a,
        None => return Err(ChatError::MissingAccountClaim),
    };
    match json_get(auth, ACCOUNT_ID_CLAIM) {
        Some(id) => match json_as_str(id) {
            Some(s) => Ok(s.to_owned()),
            None => Err(ChatError::MissingAccountClaim),
        },
        None => Err(ChatError::MissingAccountClaim),
    }
}

/// Session material: an identity token and, optionally, an access token and
/// a refresh token.
#[derive(Debug)]
pub struct TokenBundle {
    pub id_token: String,
    pub access_token: Option<String>,
    pub refresh_token: Option<String>,
}

/// A token bundle as plain values.
pub struct TokenBundleView {
    pub id_token: Seq<char>,
    pub access_token: Option<Seq<char>>,
    pub refresh_token: Option<Seq<char>>,
}

impl View for TokenBundle {
    type V = TokenBundleView;

    open spec fn view(&self) -> TokenBundleView {
        TokenBundleView {
            id_token: self.id_token@,
            access_token: opt_view(self.access_token),
            refresh_token: opt_view(self.refresh_token),
        }
    }
}

/// The way an invocation authenticates: exactly one of the two.
#[derive(Debug)]
pub enum Credential {
    ApiKey(String),
    SessionTokens(TokenBundle),
}

/// A credential as plain values.
pub enum CredentialView {
    ApiKey(Seq<char>),
    SessionTokens(TokenBundleView),
}

impl View for Credential {
    type V = CredentialView;

    open spec fn view(&self) -> CredentialView {
        match self {
            Credential::ApiKey(k) => CredentialView::ApiKey(k@),
            Credential::SessionTokens(t) => CredentialView::SessionTokens(t@),
        }
    }
}

/// A text that is present and not only whitespace.
pub open spec fn filled(o: Option<Seq<char>>) -> bool {
    match o {
        Some(t) => trim_of(t).len() > 0,
        None => false,
    }
}

/// The credential chosen from what a store holds: a non-blank API key first
/// (trimmed), else a bundle with a non-blank access or refresh token.
pub open spec fn credential_choice(
    api_key: Option<Seq<char>>,
    tokens: Option<TokenBundleView>,
) -> Option<CredentialView> {
    if filled(api_key) {
        Some(CredentialView::ApiKey(trim_of(api_key->0)))
    } else {
        match tokens {
            Some(t) => if filled(t.access_token) || filled(t.refresh_token) {
                Some(CredentialView::SessionTokens(t))
            } else {
                None
            },
            None => None,
        }
    }
}

/// An optional bundle as plain values.
pub open spec fn bundle_opt_view(o: Option<TokenBundle>) -> Option<TokenBundleView> {
    match o {
        Some(t) => Some(t@),
        None => None,
    }
}

/// Whether an optional text is present and not only whitespace.
fn is_filled(o: &Option<String>) -> (r: bool)
    ensures
        r == filled(opt_view(*o)),
{
    match o {
        Some(t) => trim(t.as_str()).unicode_len() > 0,
        None => false,
    }
}

/// Chooses how to authenticate from a stored API key and token bundle;
/// `None` when neither is usable.
pub fn select_credential(api_key: Option<String>, tokens: Option<TokenBundle>) -> (r: Option<
    Credential,
>)
    ensures
        match r {
            Some(c) => credential_choice(opt_view(api_key), bundle_opt_view(tokens))
                == Some(c@),
            None => credential_choice(opt_view(api_key), bundle_opt_view(tokens)).is_none(),
        },
{
    if is_filled(&api_key) {
        match api_key {
            Some(k) => {
                return Some(Credential::ApiKey(trim(k.as_str()).to_owned()));
            },
            None => {
                return None;
            },
        }
    }
    match tokens {
        Some(t) => {
            if is_filled(&t.access_token) || is_filled(&t.refresh_token) {
                Some(Credential::SessionTokens(t))
            } else {
                None
            }
        },
        None => None,
    }
}

/// A token bundle read from JSON: an object with a string `id_token` and
/// `access_token` / `refresh_token` that are strings, `null` or absent.
pub open spec fn bundle_of_json(j: JsonView) -> Option<TokenBundleView> {
    match (str_member(j, "id_token"@), member(j, "access_token"@), member(j, "refresh_token"@)) {
        (Some(id), a, f) => match (optional_of(a), optional_of(f)) {
            (Some(access), Some(refresh)) => Some(
                TokenBundleView { id_token: id, access_token: access, refresh_token: refresh },
            ),
            _ => None,
        },
        _ => None,
    }
}

/// An optional string member: `Some(None)` when absent or `null`, `None`
/// when it holds something other than a string.
pub open spec fn optional_of(m: Option<JsonView>) -> Option<Option<Seq<char>>> {
    match m {
        None => Some(None),
        Some(JsonView::Null) => Some(None),
        Some(JsonView::Str(t)) => Some(Some(t)),
        _ => None,
    }
}

/// Reads the token bundle of a token endpoint's JSON answer.
pub fn parse_refresh_response(body: &str) -> (r: Option<TokenBundle>)
    ensures
        match r {
            Some(b) => match json_of_text(body@) {
                Some(j) => bundle_of_json(j) == Some(b@),
                None => false,
            },
            None => match json_of_text(body@) {
                Some(j) => bundle_of_json(j).is_none(),
                None => true,
            },
        },
{
    let v = match parse_json_text(body) {
        Some(v) => v,
        None => return None,
    };
    let id_token = match json_get(&v, "id_token") {
        Some(f) => match json_as_str(f) {
            Some(s) => s.to_owned(),
            None => return None,
        },
        None => return None,
    };
    let access_token = match optional_text(&v, "access_token") {
        Ok(a) => a,
        Err(()) => return None,
    };
    let refresh_token = match optional_text(&v, "refresh_token") {
        Ok(f) => f,
        Err(()) => return None,
    };
    Some(TokenBundle { id_token, access_token, refresh_token })
}

/// The bundle after a refresh: the new identity token always, and each of the
/// other two tokens from the refresh when it carries one, else as before.
pub open spec fn merged(previous: TokenBundleView, fresh: TokenBundleView) -> TokenBundleView {
    TokenBundleView {
        id_token: fresh.id_token,
        access_token: if fresh.access_token is Some {
            fresh.access_token
        } else {
            previous.access_token
        },
        refresh_token: if fresh.refresh_token is Some {
            fresh.refresh_token
        } else {
            previous.refresh_token
        },
    }
}

/// Merges a refresh's answer into the bundle it refreshed.
pub fn merge_refreshed(previous: &TokenBundle, fresh: TokenBundle) -> (r: TokenBundle)
    ensures
        r@ == merged(previous@, fresh@),
{
    let access_token = match fresh.access_token {
        Some(a) => Some(a),
        None => previous.access_token.clone(),
    };
    let refresh_token = match fresh.refresh_token {
        Some(f) => Some(f),
        None => previous.refresh_token.clone(),
    };
    TokenBundle { id_token: fresh.id_token, access_token, refresh_token }
}

} // verus!
