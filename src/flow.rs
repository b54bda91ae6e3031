//! The retry policy of one invocation: send, and on an unauthorized session
//! reply refresh once and send again.
use vstd::prelude::*;
use crate::error::{ChatError, ChatErrorView};
use crate::json::json_of_text;
use crate::reply::{decode_reply_body, reply_body_answer};
use crate::request::{
    direct_call, is_direct_call, is_refresh_for, is_session_call, refresh_request, session_call,
    OutboundCall, RefreshRequest,
};
use crate::stream::{decode_stream, stream_body_answer};
use crate::token::{
    bundle_of_json, filled, merge_refreshed, merged, parse_refresh_response, Credential,
    CredentialView, TokenBundle,
};

verus! {

/// The HTTP status of an unauthorized reply.
pub const UNAUTHORIZED: u16 = 401;

/// Where an invocation stands.
#[derive(Debug, Clone, Copy, PartialEq, Eq, Structural)]
pub enum Phase {
    /// A chat request is to be sent, or its reply awaited.
    Sending,
    /// A refresh exchange is to be sent, or its reply awaited.
    Refreshing,
    /// The invocation has its answer or its failure.
    Finished,
}

/// What the caller does next.
#[derive(Debug)]
pub enum Step {
    /// Send the chat request of the current credential.
    SendChat,
    /// Send the refresh exchange of the current bundle.
    SendRefresh,
    /// Stop with this answer or failure.
    Finish(Result<String, ChatError>),
}

/// A step as plain values.
pub enum StepView {
    SendChat,
    SendRefresh,
    Finish(Result<Seq<char>, ChatErrorView>),
}

impl View for Step {
    type V = StepView;

    open spec fn view(&self) -> StepView {
        match self {
            Step::SendChat => StepView::SendChat,
            Step::SendRefresh => StepView::SendRefresh,
            Step::Finish(r) => StepView::Finish(crate::error::outcome_view(*r)),
        }
    }
}

/// The state of one invocation: its credential, whether it has refreshed
/// already, and its phase.
#[derive(Debug)]
pub struct Orchestrator {
    pub credential: Credential,
    pub refreshed: bool,
    pub phase: Phase,
}

/// An invocation's state as plain values.
pub struct OrchestratorView {
    pub credential: CredentialView,
    pub refreshed: bool,
    pub phase: Phase,
}

impl View for Orchestrator {
    type V = OrchestratorView;

    open spec fn view(&self) -> OrchestratorView {
        OrchestratorView {
            credential: self.credential@,
            refreshed: self.refreshed,
            phase: self.phase,
        }
    }
}

/// A status in the 2xx range.
pub open spec fn is_success(status: u16) -> bool {
    200 <= status < 300
}

/// The state entered with a step: waiting on a refresh, on a chat reply, or done.
pub open spec fn after(o: OrchestratorView, s: StepView) -> OrchestratorView {
    OrchestratorView {
        phase: match s {
            StepView::SendChat => Phase::Sending,
            StepView::SendRefresh => Phase::Refreshing,
            StepView::Finish(_) => Phase::Finished,
        },
        ..o
    }
}

/// The step taken on a chat reply.
pub open spec fn chat_reply_step(o: OrchestratorView, status: u16, body: Seq<char>) -> StepView {
    if status == UNAUTHORIZED {
        match o.credential {
            CredentialView::ApiKey(_) => StepView::Finish(Err(ChatErrorView::Unauthorized)),
            CredentialView::SessionTokens(t) => if o.refreshed {
                StepView::Finish(Err(ChatErrorView::RefreshRejected))
            } else if filled(t.refresh_token) {
                StepView::SendRefresh
            } else {
                StepView::Finish(Err(ChatErrorView::NoRefreshToken))
            },
        }
    } else if !is_success(status) {
        StepView::Finish(Err(ChatErrorView::BackendError { status, body }))
    } else {
        match o.credential {
            CredentialView::ApiKey(_) => StepView::Finish(reply_body_answer(body)),
            CredentialView::SessionTokens(_) => StepView::Finish(stream_body_answer(body)),
        }
    }
}

/// The state and step after a chat reply.
pub open spec fn on_chat(o: OrchestratorView, status: u16, body: Seq<char>) -> (
    OrchestratorView,
    StepView,
) {
    let s = chat_reply_step(o, status, body);
    (after(o, s), s)
}

/// The state and step after the token endpoint's reply: on success the
/// merged bundle replaces the old one and the chat is sent again.
pub open spec fn on_refresh(o: OrchestratorView, status: u16, body: Seq<char>) -> (
    OrchestratorView,
    StepView,
) {
    let failed = StepView::Finish(Err(ChatErrorView::RefreshFailed { status, body }));
    match o.credential {
        CredentialView::SessionTokens(t) => if !is_success(status) {
            (after(o, failed), failed)
        } else {
            match json_of_text(body) {
                Some(j) => match bundle_of_json(j) {
                    Some(fresh) => (
                        OrchestratorView {
                            credential: CredentialView::SessionTokens(merged(t, fresh)),
                            refreshed: true,
                            phase: Phase::Sending,
                        },
                        StepView::SendChat,
                    ),
                    None => (after(o, failed), failed),
                },
                None => (after(o, failed), failed),
            }
        },
        CredentialView::ApiKey(_) => {
            let denied = StepView::Finish(Err(ChatErrorView::Unauthorized));
            (after(o, denied), denied)
        },
    }
}

/// The state and step after a reply, read as the current phase expects: a
/// chat reply while sending, a token endpoint reply while refreshing.
pub open spec fn on_reply(o: OrchestratorView, status: u16, body: Seq<char>) -> (
    OrchestratorView,
    StepView,
) {
    if o.phase == Phase::Refreshing {
        on_refresh(o, status, body)
    } else {
        on_chat(o, status, body)
    }
}

/// The number of refresh exchanges asked for while the replies are fed in
/// order, until the invocation finishes.
pub open spec fn refreshes_asked(o: OrchestratorView, replies: Seq<(u16, Seq<char>)>) -> nat
    decreases replies.len(),
{
    if replies.len() == 0 || o.phase == Phase::Finished {
        0
    } else {
        let (next, step) = on_reply(o, replies[0].0, replies[0].1);
        (if step is SendRefresh {
            1nat
        } else {
            0nat
        }) + refreshes_asked(next, replies.skip(1))
    }
}

/// Once a refresh has been asked for or has happened, no other is asked for.
pub proof fn lemma_no_refresh_after_refresh(o: OrchestratorView, replies: Seq<(u16, Seq<char>)>)
    requires
        o.refreshed || o.phase == Phase::Refreshing,
    ensures
        refreshes_asked(o, replies) == 0,
    decreases replies.len(),
{
    if replies.len() > 0 && o.phase != Phase::Finished {
        let (next, step) = on_reply(o, replies[0].0, replies[0].1);
        assert(!(step is SendRefresh));
        if next.phase != Phase::Finished {
            assert(next.refreshed);
            lemma_no_refresh_after_refresh(next, replies.skip(1));
        } else {
            assert(refreshes_asked(next, replies.skip(1)) == 0);
        }
        assert(refreshes_asked(o, replies) == refreshes_asked(next, replies.skip(1)));
    }
}

/// Whatever the replies, one invocation asks for at most one refresh.
pub proof fn lemma_refresh_at_most_once(o: OrchestratorView, replies: Seq<(u16, Seq<char>)>)
    ensures
        refreshes_asked(o, replies) <= 1,
{
    if o.refreshed || o.phase == Phase::Refreshing {
        lemma_no_refresh_after_refresh(o, replies);
    } else if replies.len() > 0 && o.phase != Phase::Finished {
        let (next, step) = on_reply(o, replies[0].0, replies[0].1);
        if step is SendRefresh {
            lemma_no_refresh_after_refresh(next, replies.skip(1));
        } else {
            assert(next.phase == Phase::Finished);
            assert(refreshes_asked(next, replies.skip(1)) == 0);
        }
    }
}

/// An invocation with an API key never asks for a refresh, and a 401 reply
/// ends it at once with `Unauthorized`.
pub proof fn lemma_api_key_never_refreshes(
    o: OrchestratorView,
    replies: Seq<(u16, Seq<char>)>,
    body: Seq<char>,
)
    requires
        o.credential is ApiKey,
    ensures
        refreshes_asked(o, replies) == 0,
        on_chat(o, UNAUTHORIZED, body).1 == StepView::Finish(Err(ChatErrorView::Unauthorized)),
        on_chat(o, UNAUTHORIZED, body).0.phase == Phase::Finished,
    decreases replies.len(),
{
    if replies.len() > 0 && o.phase != Phase::Finished {
        let (next, step) = on_reply(o, replies[0].0, replies[0].1);
        lemma_api_key_never_refreshes(next, replies.skip(1), body);
    }
}

/// A session invocation whose first chat reply is 401 refreshes once; when
/// the refresh succeeds and the second chat reply succeeds, the stream's
/// answer is returned; when the second is 401 again, it ends with
/// `RefreshRejected` and asks for nothing more.
pub proof fn lemma_retry_once_after_refresh(
    t: crate::token::TokenBundleView,
    first_body: Seq<char>,
    refresh_status: u16,
    refresh_body: Seq<char>,
    status: u16,
    body: Seq<char>,
)
    requires
        filled(t.refresh_token),
        is_success(refresh_status),
        json_of_text(refresh_body) is Some,
        bundle_of_json(json_of_text(refresh_body)->0) is Some,
    ensures
        ({
            let o0 = OrchestratorView {
                credential: CredentialView::SessionTokens(t),
                refreshed: false,
                phase: Phase::Sending,
            };
            let (o1, s1) = on_chat(o0, UNAUTHORIZED, first_body);
            let (o2, s2) = on_refresh(o1, refresh_status, refresh_body);
            let (o3, s3) = on_chat(o2, status, body);
            &&& s1 == StepView::SendRefresh
            &&& s2 == StepView::SendChat
            &&& o2.refreshed
            &&& is_success(status) ==> s3 == StepView::Finish(stream_body_answer(body))
            &&& status == UNAUTHORIZED ==> s3 == StepView::Finish(
                Err(ChatErrorView::RefreshRejected),
            )
            &&& status == UNAUTHORIZED ==> o3.phase == Phase::Finished
            &&& refreshes_asked(
                o0,
                seq![(UNAUTHORIZED, first_body), (refresh_status, refresh_body), (status, body)],
            ) == 1
        }),
{
    let o0 = OrchestratorView {
        credential: CredentialView::SessionTokens(t),
        refreshed: false,
        phase: Phase::Sending,
    };
    let replies = seq![(UNAUTHORIZED, first_body), (refresh_status, refresh_body), (status, body)];
    let (o1, s1) = on_chat(o0, UNAUTHORIZED, first_body);
    assert(replies.skip(1) =~= seq![(refresh_status, refresh_body), (status, body)]);
    lemma_no_refresh_after_refresh(o1, replies.skip(1));
}

impl Orchestrator {
    /// Starts an invocation: nothing refreshed, a chat request to send.
    pub fn new(credential: Credential) -> (r: Orchestrator)
        ensures
            r@ == (OrchestratorView {
                credential: credential@,
                refreshed: false,
                phase: Phase::Sending,
            }),
    {
        Orchestrator { credential, refreshed: false, phase: Phase::Sending }
    }

    /// The chat call of the current credential.
    pub fn chat_call(&self, prompt: &str) -> (r: Result<OutboundCall, ChatError>)
        ensures
            match self.credential@ {
                CredentialView::ApiKey(k) => r is Ok && is_direct_call(r->Ok_0, k, prompt@),
                CredentialView::SessionTokens(t) => is_session_call(r, t, prompt@),
            },
    {
        match &self.credential {
            Credential::ApiKey(key) => Ok(direct_call(key.as_str(), prompt)),
            Credential::SessionTokens(bundle) => session_call(bundle, prompt),
        }
    }

    /// The refresh exchange of the current bundle.
    pub fn refresh_call(&self) -> (r: Result<RefreshRequest, ChatError>)
        ensures
            match self.credential@ {
                CredentialView::ApiKey(_) => r is Err && r->Err_0@ == ChatErrorView::NoRefreshToken,
                CredentialView::SessionTokens(t) => is_refresh_for(r, t),
            },
    {
        match &self.credential {
            Credential::ApiKey(_) => Err(ChatError::NoRefreshToken),
            Credential::SessionTokens(bundle) => refresh_request(bundle),
        }
    }

    /// Takes the backend's reply to a chat request.
    pub fn on_chat_reply(&mut self, status: u16, body: &str) -> (r: Step)
        requires
            old(self).phase == Phase::Sending,
        ensures
            (final(self)@, r@) == on_chat(old(self)@, status, body@),
    {
        let step = if status == UNAUTHORIZED {
            match &self.credential {
                Credential::ApiKey(_) => Step::Finish(Err(ChatError::Unauthorized)),
                Credential::SessionTokens(t) => {
                    if self.refreshed {
                        Step::Finish(Err(ChatError::RefreshRejected))
                    } else if refresh_request(t).is_ok() {
                        Step::SendRefresh
                    } else {
                        Step::Finish(Err(ChatError::NoRefreshToken))
                    }
                },
            }
        } else if !(200 <= status && status < 300) {
            Step::Finish(Err(ChatError::BackendError { status, body: body.to_owned() }))
        } else {
            match &self.credential {
                Credential::ApiKey(_) => Step::Finish(decode_reply_body(body)),
                Credential::SessionTokens(_) => Step::Finish(decode_stream(body)),
            }
        };
        self.phase = match &step {
            Step::SendChat => Phase::Sending,
            Step::SendRefresh => Phase::Refreshing,
            Step::Finish(_) => Phase::Finished,
        };
        step
    }

    /// Takes the token endpoint's reply to a refresh exchange.
    pub fn on_refresh_reply(&mut self, status: u16, body: &str) -> (r: Step)
        requires
            old(self).phase == Phase::Refreshing,
        ensures
            (final(self)@, r@) == on_refresh(old(self)@, status, body@),
    {
        let failed = Step::Finish(Err(ChatError::RefreshFailed { status, body: body.to_owned() }));
        let fresh = match &self.credential {
            Credential::ApiKey(_) => {
                self.phase = Phase::Finished;
                return Step::Finish(Err(ChatError::Unauthorized));
            },
            Credential::SessionTokens(t) => {
                if !(200 <= status && status < 300) {
                    None
                } else {
                    match parse_refresh_response(body) {
                        Some(fresh) => Some(merge_refreshed(t, fresh)),
                        None => None,
                    }
                }
            },
        };
        match fresh {
            Some(bundle) => {
                self.credential = Credential::SessionTokens(bundle);
                self.refreshed = true;
                self.phase = Phase::Sending;
                Step::SendChat
            },
            None => {
                self.phase = Phase::Finished;
                failed
            },
        }
    }
}

} // verus!
