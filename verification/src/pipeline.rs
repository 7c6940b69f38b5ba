//! The exchange as a whole: a credential is acquired, the request is built and
//! sent, the answer is read, and the first failure ends it.
//!
//! The pipeline itself never waits. It tells its driver what to do next, as an
//! [`Action`], and is told what came of it, as an [`Event`]. The driver owns
//! the identity provider and the network; the pipeline owns every decision.

use vstd::prelude::*;
use vstd::string::*;
use reqwest::header::HeaderMap;
use crate::endpoint::{get_dbx_token_url, token_url};
use crate::error::{CredentialError, Failure, IssuanceError, IssuanceFailure, PipelineError};
use crate::headers::{create_header, header_entries, header_safe, issuance_headers};
use crate::issuance::{
    check_status, is_success, issuance_body, DbxRequestBody, DbxTokenResponse, IssuedToken,
    RequestBody,
};

verus! {

/// Where an exchange stands.
#[derive(Clone, Copy, Debug, PartialEq, Eq, Structural)]
pub enum Phase {
    /// The identity provider has been asked for a credential.
    AwaitingCredential,
    /// The issuance request is on its way.
    AwaitingResponse,
    /// The platform answered with success; its body is being read.
    AwaitingBody,
    /// The outcome has been handed out. Nothing follows.
    Finished,
}

/// What the driver observed.
#[derive(Debug)]
pub enum Event {
    /// The identity provider issued a bearer credential.
    CredentialAcquired { token: String },
    /// The identity provider issued none.
    CredentialFailed { message: String },
    /// The request, or the reading of its answer, failed below HTTP.
    TransportFailed { message: String },
    /// The platform answered with this status.
    ResponseReceived { status: u16 },
    /// The body of the answer is an issued token.
    BodyDecoded { response: DbxTokenResponse },
    /// The body of the answer is not what an issued token looks like.
    BodyRejected { message: String },
}

/// What the driver is to do next.
#[derive(Debug)]
pub enum Action {
    /// Ask the identity provider for a bearer credential for `scope`.
    AcquireCredential { scope: String },
    /// POST `body`, as JSON, to `url` with `headers`. Once.
    SendRequest { url: String, headers: HeaderMap, body: DbxRequestBody },
    /// Read the body of the answer and decode it.
    ReadBody,
    /// Stop: this is the outcome, the secret token or the error to report.
    Finish { outcome: Result<String, PipelineError> },
}

/// An event as a value of the model.
pub enum Observation {
    CredentialAcquired { token: Seq<char> },
    CredentialFailed { message: Seq<char> },
    TransportFailed { message: Seq<char> },
    ResponseReceived { status: u16 },
    BodyDecoded { response: IssuedToken },
    BodyRejected { message: Seq<char> },
}

/// An action as a value of the model.
pub enum Command {
    AcquireCredential { scope: Seq<char> },
    SendRequest { url: Seq<char>, headers: Map<Seq<char>, Seq<Seq<u8>>>, body: RequestBody },
    ReadBody,
    Finish { outcome: Result<Seq<char>, Failure> },
}

/// An exchange as a value of the model. No credential is part of it: the one
/// the driver hands in leaves with the request it was built for.
pub struct Exchange {
    pub phase: Phase,
    /// The issuance endpoint of the workspace.
    pub endpoint: Seq<char>,
    /// The lifetime asked for, in seconds.
    pub lifetime_seconds: i32,
}

impl View for Event {
    type V = Observation;

    open spec fn view(&self) -> Observation {
        match self {
            Event::CredentialAcquired { token } => Observation::CredentialAcquired { token: token@ },
            Event::CredentialFailed { message } => Observation::CredentialFailed {
                message: message@,
            },
            Event::TransportFailed { message } => Observation::TransportFailed {
                message: message@,
            },
            Event::ResponseReceived { status } => Observation::ResponseReceived { status: *status },
            Event::BodyDecoded { response } => Observation::BodyDecoded { response: response@ },
            Event::BodyRejected { message } => Observation::BodyRejected { message: message@ },
        }
    }
}

/// The outcome of an exchange as a value of the model.
pub open spec fn outcome_view(outcome: Result<String, PipelineError>) -> Result<
    Seq<char>,
    Failure,
> {
    match outcome {
        Ok(token_value) => Ok(token_value@),
        Err(error) => Err(error@),
    }
}

impl View for Action {
    type V = Command;

    open spec fn view(&self) -> Command {
        match self {
            Action::AcquireCredential { scope } => Command::AcquireCredential { scope: scope@ },
            Action::SendRequest { url, headers, body } => Command::SendRequest {
                url: url@,
                headers: header_entries(*headers),
                body: body@,
            },
            Action::ReadBody => Command::ReadBody,
            Action::Finish { outcome } => Command::Finish { outcome: outcome_view(*outcome) },
        }
    }
}

/// The scope a credential is asked for: the application identity under which
/// Azure Databricks is registered.
pub open spec fn databricks_scope() -> Seq<char> {
    "2ff814a6-3304-4ab8-85cb-cd0e6f879c1d/.default"@
}

/// The sentence with which a credential is refused as a header value.
pub open spec fn header_refusal() -> Seq<char> {
    "failed to parse header value"@
}

/// Whether an exchange in `phase` has been waiting for `event`.
pub open spec fn accepts(phase: Phase, event: Observation) -> bool {
    match phase {
        Phase::AwaitingCredential => event is CredentialAcquired || event is CredentialFailed,
        Phase::AwaitingResponse => event is ResponseReceived || event is TransportFailed,
        Phase::AwaitingBody => event is BodyDecoded || event is BodyRejected
            || event is TransportFailed,
        Phase::Finished => false,
    }
}

impl Exchange {
    /// The same exchange in another phase.
    pub open spec fn at(self, phase: Phase) -> Exchange {
        Exchange { phase, ..self }
    }

    /// The exchange, ended with `failure`.
    pub open spec fn fail(self, failure: Failure) -> (Exchange, Command) {
        (self.at(Phase::Finished), Command::Finish { outcome: Err(failure) })
    }

    /// What an exchange does with an event it has been waiting for: where it
    /// stands afterwards, and what it asks of the driver.
    pub open spec fn react(self, event: Observation) -> (Exchange, Command)
        recommends
            accepts(self.phase, event),
    {
        match event {
            Observation::CredentialAcquired { token } => {
                if header_safe(token) {
                    (
                        self.at(Phase::AwaitingResponse),
                        Command::SendRequest {
                            url: self.endpoint,
                            headers: issuance_headers(token),
                            body: issuance_body(self.lifetime_seconds),
                        },
                    )
                } else {
                    self.fail(Failure::Header { message: header_refusal() })
                }
            },
            Observation::CredentialFailed { message } => self.fail(
                Failure::Credential { message },
            ),
            Observation::TransportFailed { message } => self.fail(
                Failure::Issuance(IssuanceFailure::Transport { message }),
            ),
            Observation::ResponseReceived { status } => {
                if is_success(status) {
                    (self.at(Phase::AwaitingBody), Command::ReadBody)
                } else {
                    self.fail(
                        Failure::Issuance(IssuanceFailure::RequestRejected { status_code: status }),
                    )
                }
            },
            Observation::BodyDecoded { response } => (
                self.at(Phase::Finished),
                Command::Finish { outcome: Ok(response.token_value) },
            ),
            Observation::BodyRejected { message } => self.fail(
                Failure::Issuance(IssuanceFailure::DecodeFailure { message }),
            ),
        }
    }
}

/// The exchange that has just begun for a workspace and a lifetime.
pub open spec fn begun(workspace_url: Seq<char>, lifetime_seconds: i32) -> Exchange {
    Exchange {
        phase: Phase::AwaitingCredential,
        endpoint: token_url(workspace_url),
        lifetime_seconds,
    }
}

/// The actions an exchange hands out, in order, when it is fed `events` one
/// after the other. An event it has not been waiting for draws no action.
pub open spec fn run(state: Exchange, events: Seq<Observation>) -> Seq<Command>
    decreases events.len(),
{
    if events.len() == 0 {
        seq![]
    } else if accepts(state.phase, events[0]) {
        seq![state.react(events[0]).1] + run(state.react(events[0]).0, events.drop_first())
    } else {
        run(state, events.drop_first())
    }
}

/// How far an exchange has come: every event it takes in moves it further.
pub open spec fn progress(phase: Phase) -> nat {
    match phase {
        Phase::AwaitingCredential => 0,
        Phase::AwaitingResponse => 1,
        Phase::AwaitingBody => 2,
        Phase::Finished => 3,
    }
}

/// An event that is taken in moves the exchange forward and leaves its
/// endpoint and lifetime as they were. A request is sent only on a credential
/// that was acquired, and an outcome always ends the exchange.
pub proof fn lemma_react_moves_forward(state: Exchange, event: Observation)
    requires
        accepts(state.phase, event),
    ensures
        progress(state.react(event).0.phase) > progress(state.phase),
        state.react(event).0.endpoint == state.endpoint,
        state.react(event).0.lifetime_seconds == state.lifetime_seconds,
        state.react(event).1 is SendRequest ==> event is CredentialAcquired,
        state.react(event).1 is Finish <==> state.react(event).0.phase == Phase::Finished,
        !(state.react(event).1 is AcquireCredential),
{
}

/// Once the outcome has been handed out, nothing follows, whatever is observed.
pub proof fn lemma_finished_is_final(state: Exchange, events: Seq<Observation>)
    requires
        state.phase == Phase::Finished,
    ensures
        run(state, events) == Seq::<Command>::empty(),
    decreases events.len(),
{
    if events.len() > 0 {
        lemma_finished_is_final(state, events.drop_first());
    }
}

/// An exchange whose credential has already been dealt with sends no request.
pub proof fn lemma_request_needs_credential_phase(state: Exchange, events: Seq<Observation>)
    requires
        state.phase != Phase::AwaitingCredential,
    ensures
        forall|i: int| 0 <= i < run(state, events).len() ==> !(#[trigger] run(state, events)[i]
            is SendRequest),
    decreases events.len(),
{
    if events.len() > 0 {
        if accepts(state.phase, events[0]) {
            lemma_react_moves_forward(state, events[0]);
            lemma_request_needs_credential_phase(state.react(events[0]).0, events.drop_first());
        } else {
            lemma_request_needs_credential_phase(state, events.drop_first());
        }
    }
}

/// If the identity provider fails, the issuance endpoint is never called:
/// the exchange ends with the provider's error, and no later event brings a
/// request about.
pub proof fn lemma_failed_credential_sends_nothing(
    state: Exchange,
    events: Seq<Observation>,
)
    requires
        state.phase == Phase::AwaitingCredential,
        events.len() > 0,
        events[0] is CredentialFailed,
    ensures
        run(state, events) == seq![
            Command::Finish {
                outcome: Err(Failure::Credential { message: events[0]->CredentialFailed_message }),
            },
        ],
        forall|i: int| 0 <= i < run(state, events).len() ==> !(#[trigger] run(state, events)[i]
            is SendRequest),
{
    lemma_finished_is_final(state.react(events[0]).0, events.drop_first());
}

/// Without an acquired credential no request is sent, whatever else is observed.
pub proof fn lemma_no_request_without_credential(state: Exchange, events: Seq<Observation>)
    requires
        forall|i: int| 0 <= i < events.len() ==> !(#[trigger] events[i] is CredentialAcquired),
    ensures
        forall|i: int| 0 <= i < run(state, events).len() ==> !(#[trigger] run(state, events)[i]
            is SendRequest),
    decreases events.len(),
{
    if events.len() > 0 {
        let rest = events.drop_first();
        assert forall|i: int| 0 <= i < rest.len() implies !(#[trigger] rest[i]
            is CredentialAcquired) by {
            assert(rest[i] == events[i + 1]);
        }
        if accepts(state.phase, events[0]) {
            lemma_react_moves_forward(state, events[0]);
            lemma_no_request_without_credential(state.react(events[0]).0, rest);
        } else {
            lemma_no_request_without_credential(state, rest);
        }
    }
}

/// The issuance endpoint is called at most once in an exchange: nothing is
/// retried.
pub proof fn lemma_at_most_one_request(state: Exchange, events: Seq<Observation>)
    ensures
        forall|i: int, j: int|
            0 <= i < j < run(state, events).len() ==> !(#[trigger] run(state, events)[i]
                is SendRequest && #[trigger] run(state, events)[j] is SendRequest),
    decreases events.len(),
{
    if events.len() > 0 {
        let rest = events.drop_first();
        if accepts(state.phase, events[0]) {
            let next = state.react(events[0]).0;
            lemma_react_moves_forward(state, events[0]);
            lemma_request_needs_credential_phase(next, rest);
            let tail = run(next, rest);
            assert forall|i: int, j: int| 0 <= i < j < run(state, events).len() implies !(
            #[trigger] run(state, events)[i] is SendRequest && #[trigger] run(state, events)[j]
                is SendRequest) by {
                assert(run(state, events)[j] == tail[j - 1]);
            }
        } else {
            lemma_at_most_one_request(state, rest);
        }
    }
}

/// An exchange hands out at most three actions after its first, and an
/// outcome, if there is one, is the last of them.
pub proof fn lemma_run_is_short(state: Exchange, events: Seq<Observation>)
    ensures
        run(state, events).len() + progress(state.phase) <= 3,
        forall|i: int|
            0 <= i < run(state, events).len() && #[trigger] run(state, events)[i] is Finish ==> i
                == run(state, events).len() - 1,
    decreases events.len(),
{
    if events.len() > 0 {
        let rest = events.drop_first();
        if accepts(state.phase, events[0]) {
            let next = state.react(events[0]).0;
            lemma_react_moves_forward(state, events[0]);
            lemma_run_is_short(next, rest);
            if next.phase == Phase::Finished {
                lemma_finished_is_final(next, rest);
            }
            let tail = run(next, rest);
            assert forall|i: int|
                0 <= i < run(state, events).len() && #[trigger] run(state, events)[i]
                    is Finish implies i == run(state, events).len() - 1 by {
                if i > 0 {
                    assert(run(state, events)[i] == tail[i - 1]);
                }
            }
        } else {
            lemma_run_is_short(state, rest);
        }
    }
}

/// One exchange of an ambient credential for a personal access token.
pub struct Pipeline {
    phase: Phase,
    endpoint: String,
    lifetime_seconds: i32,
}

impl View for Pipeline {
    type V = Exchange;

    closed spec fn view(&self) -> Exchange {
        Exchange {
            phase: self.phase,
            endpoint: self.endpoint@,
            lifetime_seconds: self.lifetime_seconds,
        }
    }
}

impl Pipeline {
    /// Begins an exchange for the workspace at `workspace_url` and a token
    /// that is to live `lifetime_seconds`. The first thing asked of the driver
    /// is a credential for Azure Databricks.
    pub fn start(workspace_url: &str, lifetime_seconds: i32) -> (begin: (Pipeline, Action))
        ensures
            begin.0@ == begun(workspace_url@, lifetime_seconds),
            begin.1@ == (Command::AcquireCredential { scope: databricks_scope() }),
    {
        let pipeline = Pipeline {
            phase: Phase::AwaitingCredential,
            endpoint: get_dbx_token_url(workspace_url),
            lifetime_seconds,
        };
        let scope = String::from_str("2ff814a6-3304-4ab8-85cb-cd0e6f879c1d/.default");
        (pipeline, Action::AcquireCredential { scope })
    }

    /// Where the exchange stands.
    pub fn phase(&self) -> (phase: Phase)
        ensures
            phase == self@.phase,
    {
        self.phase
    }

    /// Whether the outcome has been handed out.
    pub fn is_finished(&self) -> (finished: bool)
        ensures
            finished == (self@.phase == Phase::Finished),
    {
        match self.phase {
            Phase::Finished => true,
            _ => false,
        }
    }

    /// Takes in what the driver observed and says what to do next.
    ///
    /// An event the exchange has not been waiting for changes nothing and
    /// gives `None`. Any other event moves the exchange on as [`Exchange::react`]
    /// says: to the next stage, or, at the first failure, to its end.
    pub fn step(&mut self, event: Event) -> (next: Option<Action>)
        ensures
            next is Some <==> accepts(old(self)@.phase, event@),
            next matches Some(action) ==> (final(self)@, action@) == old(self)@.react(event@),
            next is None ==> final(self)@ == old(self)@,
    {
        match (self.phase, event) {
            (Phase::AwaitingCredential, Event::CredentialAcquired { token }) => {
                match create_header(token.as_str()) {
                    Ok(headers) => {
                        self.phase = Phase::AwaitingResponse;
                        Some(
                            Action::SendRequest {
                                url: self.endpoint.clone(),
                                headers,
                                body: DbxRequestBody::for_lifetime(self.lifetime_seconds),
                            },
                        )
                    },
                    Err(error) => Some(self.finish(Err(PipelineError::Header(error)))),
                }
            },
            (Phase::AwaitingCredential, Event::CredentialFailed { message }) => Some(
                self.finish(Err(PipelineError::Credential(CredentialError { message }))),
            ),
            (Phase::AwaitingResponse, Event::ResponseReceived { status }) => {
                match check_status(status) {
                    Ok(()) => {
                        self.phase = Phase::AwaitingBody;
                        Some(Action::ReadBody)
                    },
                    Err(error) => Some(self.finish(Err(PipelineError::Issuance(error)))),
                }
            },
            (Phase::AwaitingResponse, Event::TransportFailed { message }) => Some(
                self.finish(Err(PipelineError::Issuance(IssuanceError::Transport { message }))),
            ),
            (Phase::AwaitingBody, Event::TransportFailed { message }) => Some(
                self.finish(Err(PipelineError::Issuance(IssuanceError::Transport { message }))),
            ),
            (Phase::AwaitingBody, Event::BodyDecoded { response }) => Some(
                self.finish(Ok(response.token_value)),
            ),
            (Phase::AwaitingBody, Event::BodyRejected { message }) => Some(
                self.finish(Err(PipelineError::Issuance(IssuanceError::DecodeFailure { message }))),
            ),
            _ => None,
        }
    }

    fn finish(&mut self, outcome: Result<String, PipelineError>) -> (action: Action)
        ensures
            final(self)@ == old(self)@.at(Phase::Finished),
            action@ == (Command::Finish { outcome: outcome_view(outcome) }),
    {
        self.phase = Phase::Finished;
        Action::Finish { outcome }
    }
}

} // verus!
