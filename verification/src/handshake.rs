//! The login handshake: a `hello` that yields a nonce, then a `login` that
//! proves the password by a digest salted with the nonce and yields the
//! identifier of the session.
//!
//! The handshake is a state machine. It neither sends nor receives, and it
//! does not compute the digest: each step tells its caller what to do next,
//! an [`Action`], and the caller reports what came of it, an [`Event`].

use crate::client::{member, LoginParams, LoginType, ParamsModel};
use crate::credentials::{decoded_password, Credentials};
use crate::message::{response_model, Request, RequestModel, Response, ResponseModel};
use crate::text::{decoded, text_of};
use crate::value::Wire;
use vstd::prelude::*;
use vstd::string::StrSliceExecFns;
use vstd::utf8::*;

verus! {

/// The ways in which a peer or a caller can break the protocol.
#[derive(Copy, Clone, Debug, PartialEq, Eq)]
pub enum Violation {
    /// The response to `hello` carries neither a result nor an error.
    MissingResult,
    /// The result of `hello` has no `nonce`.
    MissingNonce,
    /// The `nonce` is not a string.
    NonceNotText,
    /// The percent-decoded password is not well-formed UTF-8.
    PasswordNotText,
    /// The channel was closed where the response to `login` was due.
    SocketClosed,
    /// The response to `login` carries neither a result nor an error.
    UnknownError,
    /// An event was reported that the state of the handshake did not ask for.
    UnexpectedEvent,
}

/// Why a handshake failed.
#[derive(Clone, Debug, PartialEq, Eq)]
pub enum LoginError {
    /// Sending or receiving failed; the text says how.
    Transport(String),
    /// A response, or the course of events, is not what the protocol allows.
    ProtocolViolation(Violation),
    /// The broker answered with an error; the text is its message.
    AuthenticationRejected(String),
    /// The digest of the password is not well-formed UTF-8.
    Encoding,
}

/// The mathematical content of a [`LoginError`].
pub enum Failure {
    Transport(Seq<char>),
    ProtocolViolation(Violation),
    AuthenticationRejected(Seq<char>),
    Encoding,
}

impl View for LoginError {
    type V = Failure;

    open spec fn view(&self) -> Failure {
        match self {
            LoginError::Transport(text) => Failure::Transport(text@),
            LoginError::ProtocolViolation(violation) => Failure::ProtocolViolation(*violation),
            LoginError::AuthenticationRejected(text) => Failure::AuthenticationRejected(text@),
            LoginError::Encoding => Failure::Encoding,
        }
    }
}

impl Violation {
    /// The violation in words.
    pub open spec fn text(self) -> Seq<char> {
        match self {
            Violation::MissingResult => "Bad result"@,
            Violation::MissingNonce => "Bad nonce"@,
            Violation::NonceNotText => "Nonce is not a string"@,
            Violation::PasswordNotText => "Password is not valid UTF-8"@,
            Violation::SocketClosed => "Socket closed"@,
            Violation::UnknownError => "Unknown error"@,
            Violation::UnexpectedEvent => "Unexpected event"@,
        }
    }

    /// The violation in words.
    pub fn describe(&self) -> (text: &'static str)
        ensures
            text@ == self.text(),
    {
        match self {
            Violation::MissingResult => "Bad result",
            Violation::MissingNonce => "Bad nonce",
            Violation::NonceNotText => "Nonce is not a string",
            Violation::PasswordNotText => "Password is not valid UTF-8",
            Violation::SocketClosed => "Socket closed",
            Violation::UnknownError => "Unknown error",
            Violation::UnexpectedEvent => "Unexpected event",
        }
    }
}

impl Failure {
    /// The cause of the failure in words. What the transport or the broker
    /// said is handed on as it came.
    pub open spec fn text(self) -> Seq<char> {
        match self {
            Failure::Transport(text) => text,
            Failure::ProtocolViolation(violation) => violation.text(),
            Failure::AuthenticationRejected(text) => text,
            Failure::Encoding => "Digest is not valid UTF-8"@,
        }
    }
}

impl LoginError {
    /// The cause of the failure in words.
    pub fn message(&self) -> (text: String)
        ensures
            text@ == self@.text(),
    {
        match self {
            LoginError::Transport(text) => text.clone(),
            LoginError::ProtocolViolation(violation) => violation.describe().to_owned(),
            LoginError::AuthenticationRejected(text) => text.clone(),
            LoginError::Encoding => "Digest is not valid UTF-8".to_owned(),
        }
    }

    /// A copy of the error.
    pub fn duplicate(&self) -> (copy: LoginError)
        ensures
            copy@ == self@,
    {
        match self {
            LoginError::Transport(text) => LoginError::Transport(text.clone()),
            LoginError::ProtocolViolation(violation) => LoginError::ProtocolViolation(*violation),
            LoginError::AuthenticationRejected(text) => LoginError::AuthenticationRejected(
                text.clone(),
            ),
            LoginError::Encoding => LoginError::Encoding,
        }
    }
}

/// The content of the outcome of a handshake.
pub open spec fn outcome_model(outcome: Result<i32, LoginError>) -> Result<i32, Failure> {
    match outcome {
        Ok(id) => Ok(id),
        Err(error) => Err(error@),
    }
}

/// The response itself, or the empty response where the channel gave none.
pub open spec fn or_empty(response: Option<ResponseModel>) -> ResponseModel {
    match response {
        Some(response) => response,
        None => ResponseModel::empty(),
    }
}

/// The nonce that a response to `hello` yields. A response that carries an
/// error is a rejection, with the message of the error. Otherwise the nonce
/// is the string `nonce` of the result, and the response violates the
/// protocol when it has no result, no `nonce`, or a `nonce` that is no
/// string.
pub open spec fn nonce_of(response: ResponseModel) -> Result<Seq<char>, Failure> {
    match response.error {
        Some(message) => Err(Failure::AuthenticationRejected(message)),
        None => match response.result {
            None => Err(Failure::ProtocolViolation(Violation::MissingResult)),
            Some(result) => match result.get("nonce"@) {
                None => Err(Failure::ProtocolViolation(Violation::MissingNonce)),
                Some(Wire::Text(nonce)) => Ok(nonce),
                Some(_) => Err(Failure::ProtocolViolation(Violation::NonceNotText)),
            },
        },
    }
}

/// The session that a response to `login` yields. A result gives the session
/// its identifier by `clientId`, read as 32 bits, or the identifier 0 when
/// it has no `clientId`. A response with only an error is a rejection, with
/// the message of the error. A missing response, and one that carries
/// nothing, violate the protocol.
pub open spec fn session_of(response: Option<ResponseModel>) -> Result<i32, Failure> {
    match response {
        None => Err(Failure::ProtocolViolation(Violation::SocketClosed)),
        Some(response) => match response.result {
            Some(result) => match result.get("clientId"@) {
                None => Ok(0i32),
                Some(id) => Ok(id.to_i32()),
            },
            None => match response.error {
                Some(message) => Err(Failure::AuthenticationRejected(message)),
                None => Err(Failure::ProtocolViolation(Violation::UnknownError)),
            },
        },
    }
}

/// The request that opens the handshake: `hello`, without parameters.
pub open spec fn hello_model() -> RequestModel {
    RequestModel { method: "hello"@, params: None }
}

/// The parameters of the login of `user` with the digest as password: a
/// hashed login that names no device and asks for no watchdog.
pub open spec fn login_params_model(user: Seq<char>, digest: Seq<char>) -> ParamsModel {
    ParamsModel {
        user,
        password: digest,
        login_type: LoginType::SHA1,
        device_id: Seq::empty(),
        mount_point: Seq::empty(),
        heartbeat_interval: None,
    }
}

/// The request that logs `user` in with the digest as password.
pub open spec fn login_model(user: Seq<char>, digest: Seq<char>) -> RequestModel {
    RequestModel { method: "login"@, params: Some(login_params_model(user, digest).wire()) }
}

/// The request that opens the handshake.
pub fn hello_request() -> (request: Request)
    ensures
        request@ == hello_model(),
{
    Request { method: "hello".to_owned(), params: None }
}

/// The nonce that the response to `hello` yields, or why it yields none.
/// A channel that gave no response counts as an empty response.
pub fn nonce_from_hello(response: &Option<Response>) -> (nonce: Result<String, LoginError>)
    ensures
        match nonce {
            Ok(text) => nonce_of(or_empty(response_model(*response))) == Ok::<Seq<char>, Failure>(
                text@,
            ),
            Err(error) => nonce_of(or_empty(response_model(*response))) == Err::<
                Seq<char>,
                Failure,
            >(error@),
        },
{
    match response {
        None => Err(LoginError::ProtocolViolation(Violation::MissingResult)),
        Some(response) => match &response.error {
            Some(error) => Err(LoginError::AuthenticationRejected(error.message.clone())),
            None => match &response.result {
                None => Err(LoginError::ProtocolViolation(Violation::MissingResult)),
                Some(result) => match result.get("nonce") {
                    None => Err(LoginError::ProtocolViolation(Violation::MissingNonce)),
                    Some(nonce) => match nonce.as_str() {
                        Some(text) => Ok(text.to_owned()),
                        None => Err(LoginError::ProtocolViolation(Violation::NonceNotText)),
                    },
                },
            },
        },
    }
}

/// The request that logs `user` in with `digest` as the proof of the
/// password, or an encoding error when the digest is not well-formed UTF-8.
pub fn login_request(user: &str, digest: &[u8]) -> (request: Result<Request, LoginError>)
    ensures
        match decoded(digest@) {
            Some(text) => request matches Ok(request) && request@ == login_model(user@, text),
            None => request matches Err(error) && error@ == Failure::Encoding,
        },
{
    match text_of(digest) {
        Some(text) => {
            let params = LoginParams {
                user: user.to_owned(),
                password: text,
                login_type: LoginType::SHA1,
                device_id: String::new(),
                mount_point: String::new(),
                heartbeat_interval: None,
            };
            assert(params@ == login_params_model(user@, decoded(digest@)->0));
            Ok(Request { method: "login".to_owned(), params: Some(params.to_rpcvalue()) })
        },
        None => Err(LoginError::Encoding),
    }
}

/// The identifier of the session that the response to `login` opens, or why
/// it opens none.
pub fn client_id_from_login(response: &Option<Response>) -> (id: Result<i32, LoginError>)
    ensures
        outcome_model(id) == session_of(response_model(*response)),
{
    match response {
        None => Err(LoginError::ProtocolViolation(Violation::SocketClosed)),
        Some(response) => match &response.result {
            Some(result) => match result.get("clientId") {
                None => Ok(0),
                Some(id) => Ok(id.as_i32()),
            },
            None => match &response.error {
                Some(error) => Err(LoginError::AuthenticationRejected(error.message.clone())),
                None => Err(LoginError::ProtocolViolation(Violation::UnknownError)),
            },
        },
    }
}

/// Where a handshake stands.
#[derive(Debug, PartialEq, Eq)]
pub enum State {
    /// The `hello` request is on its way.
    Start,
    /// The `hello` request was sent; its response is awaited.
    HelloSent,
    /// The response to `hello` gave the nonce; the digest is awaited.
    NonceObtained(String),
    /// The `login` request is on its way.
    LoginReady,
    /// The `login` request was sent; its response is awaited.
    LoginSent,
    /// The broker opened the session with this identifier.
    Authenticated(i32),
    /// The handshake failed.
    Failed(LoginError),
}

/// What the caller of the handshake reports.
#[derive(Debug, PartialEq, Eq)]
pub enum Event {
    /// The request was sent.
    Sent,
    /// Sending or receiving failed; the text says how.
    TransportFailed(String),
    /// A response was read, or the channel was closed before one came.
    Received(Option<Response>),
    /// The digest of the password and the nonce was computed.
    Digest(Vec<u8>),
}

/// What the handshake asks its caller to do next.
#[derive(Debug, PartialEq, Eq)]
pub enum Action {
    /// Send this request and report `Sent`, or `TransportFailed`.
    Send(Request),
    /// Read one response and report `Received`, or `TransportFailed`.
    Receive,
    /// Compute the digest of the password and the nonce and report `Digest`.
    ComputeDigest { password: Vec<u8>, nonce: Vec<u8> },
    /// Nothing: the handshake has ended, with this outcome.
    Done(Result<i32, LoginError>),
}

/// The mathematical content of a [`State`].
pub enum Stage {
    Start,
    HelloSent,
    NonceObtained(Seq<char>),
    LoginReady,
    LoginSent,
    Authenticated(i32),
    Failed(Failure),
}

/// The mathematical content of an [`Event`].
pub enum Input {
    Sent,
    TransportFailed(Seq<char>),
    Received(Option<ResponseModel>),
    Digest(Seq<u8>),
}

/// The mathematical content of an [`Action`].
pub enum Output {
    Send(RequestModel),
    Receive,
    ComputeDigest { password: Seq<u8>, nonce: Seq<u8> },
    Done(Result<i32, Failure>),
}

impl View for State {
    type V = Stage;

    open spec fn view(&self) -> Stage {
        match self {
            State::Start => Stage::Start,
            State::HelloSent => Stage::HelloSent,
            State::NonceObtained(nonce) => Stage::NonceObtained(nonce@),
            State::LoginReady => Stage::LoginReady,
            State::LoginSent => Stage::LoginSent,
            State::Authenticated(id) => Stage::Authenticated(*id),
            State::Failed(error) => Stage::Failed(error@),
        }
    }
}

impl View for Event {
    type V = Input;

    open spec fn view(&self) -> Input {
        match self {
            Event::Sent => Input::Sent,
            Event::TransportFailed(text) => Input::TransportFailed(text@),
            Event::Received(response) => Input::Received(response_model(*response)),
            Event::Digest(digest) => Input::Digest(digest@),
        }
    }
}

impl View for Action {
    type V = Output;

    open spec fn view(&self) -> Output {
        match self {
            Action::Send(request) => Output::Send(request@),
            Action::Receive => Output::Receive,
            Action::ComputeDigest { password, nonce } => Output::ComputeDigest {
                password: password@,
                nonce: nonce@,
            },
            Action::Done(outcome) => Output::Done(outcome_model(*outcome)),
        }
    }
}

impl Stage {
    /// Whether the handshake has ended.
    pub open spec fn is_terminal(self) -> bool {
        self is Authenticated || self is Failed
    }
}

/// The end of a handshake in failure.
pub open spec fn fail(failure: Failure) -> (Stage, Output) {
    (Stage::Failed(failure), Output::Done(Err(failure)))
}

/// What the response to `hello` leads to: with a nonce and a password that
/// decodes to text, the digest of the two is asked for, each as its UTF-8
/// bytes; otherwise the handshake fails.
pub open spec fn after_hello(password: Seq<char>, response: Option<ResponseModel>) -> (
    Stage,
    Output,
) {
    match nonce_of(or_empty(response)) {
        Err(failure) => fail(failure),
        Ok(nonce) => match decoded_password(password) {
            None => fail(Failure::ProtocolViolation(Violation::PasswordNotText)),
            Some(text) => (
                Stage::NonceObtained(nonce),
                Output::ComputeDigest { password: encode_utf8(text), nonce: encode_utf8(nonce) },
            ),
        },
    }
}

/// What the digest leads to: the `login` request, with the digest read as
/// text for a password, or a failure when the digest is no text.
pub open spec fn after_digest(user: Seq<char>, digest: Seq<u8>) -> (Stage, Output) {
    match decoded(digest) {
        Some(text) => (Stage::LoginReady, Output::Send(login_model(user, text))),
        None => fail(Failure::Encoding),
    }
}

/// What the response to `login` leads to: the session, or a failure.
pub open spec fn after_login(response: Option<ResponseModel>) -> (Stage, Output) {
    match session_of(response) {
        Ok(id) => (Stage::Authenticated(id), Output::Done(Ok(id))),
        Err(failure) => fail(failure),
    }
}

/// The step of the handshake of `user` with `password`, percent-encoded,
/// from `stage` on `input`: the stage that follows and what is to be done.
///
/// A handshake that has ended stays as it is. Before that, a failure of the
/// transport ends it, and so does an event that the stage did not ask for.
pub open spec fn transition(user: Seq<char>, password: Seq<char>, stage: Stage, input: Input) -> (
    Stage,
    Output,
) {
    match (stage, input) {
        (Stage::Authenticated(id), _) => (stage, Output::Done(Ok(id))),
        (Stage::Failed(failure), _) => (stage, Output::Done(Err(failure))),
        (_, Input::TransportFailed(text)) => fail(Failure::Transport(text)),
        (Stage::Start, Input::Sent) => (Stage::HelloSent, Output::Receive),
        (Stage::HelloSent, Input::Received(response)) => after_hello(password, response),
        (Stage::NonceObtained(_), Input::Digest(digest)) => after_digest(user, digest),
        (Stage::LoginReady, Input::Sent) => (Stage::LoginSent, Output::Receive),
        (Stage::LoginSent, Input::Received(response)) => after_login(response),
        _ => fail(Failure::ProtocolViolation(Violation::UnexpectedEvent)),
    }
}

/// A handshake that has ended stays where it is, whatever is reported.
pub proof fn lemma_end_is_final(user: Seq<char>, password: Seq<char>, stage: Stage, input: Input)
    requires
        stage.is_terminal(),
    ensures
        transition(user, password, stage, input).0 == stage,
{
}

/// The outcome is handed out exactly when the handshake has ended, and it is
/// the one that the final stage holds: there is no success without a session
/// and no failure without its cause.
pub proof fn lemma_outcome_is_stage(
    user: Seq<char>,
    password: Seq<char>,
    stage: Stage,
    input: Input,
)
    ensures
        ({
            let (next, output) = transition(user, password, stage, input);
            &&& output is Done <==> next.is_terminal()
            &&& forall|id: i32| output == Output::Done(Ok(id)) <==> next == Stage::Authenticated(id)
            &&& forall|failure: Failure|
                output == Output::Done(Err(failure)) <==> next == Stage::Failed(failure)
        }),
{
}

/// A step sends a request only from the stage that holds the nonce, on the
/// digest, and the request is the `login` request for that digest.
pub proof fn lemma_login_follows_nonce(
    user: Seq<char>,
    password: Seq<char>,
    stage: Stage,
    input: Input,
)
    requires
        transition(user, password, stage, input).1 is Send,
    ensures
        stage is NonceObtained,
        input is Digest,
        decoded(input->Digest_0) is Some,
        transition(user, password, stage, input).1 == Output::Send(
            login_model(user, decoded(input->Digest_0)->0),
        ),
{
}

/// The stage that holds the nonce is entered only from `HelloSent`, on a
/// response to `hello` that was accepted: one that yields this nonce, while
/// the password decodes to text. With [`lemma_login_follows_nonce`]: no
/// `login` goes out before the response to `hello` was accepted.
pub proof fn lemma_nonce_follows_hello(
    user: Seq<char>,
    password: Seq<char>,
    stage: Stage,
    input: Input,
)
    requires
        transition(user, password, stage, input).0 is NonceObtained,
    ensures
        stage is HelloSent,
        input is Received,
        nonce_of(or_empty(input->Received_0)) == Ok::<Seq<char>, Failure>(
            transition(user, password, stage, input).0->NonceObtained_0,
        ),
        decoded_password(password) is Some,
{
}

impl Stage {
    /// How far the handshake has come: the number of steps that lead from
    /// the start to this stage; every end counts as the last stage.
    pub open spec fn progress(self) -> nat {
        match self {
            Stage::Start => 0,
            Stage::HelloSent => 1,
            Stage::NonceObtained(_) => 2,
            Stage::LoginReady => 3,
            Stage::LoginSent => 4,
            Stage::Authenticated(_) => 5,
            Stage::Failed(_) => 5,
        }
    }
}

/// Each step of a running handshake moves it forward, by one stage or to
/// its end: no stage is entered twice, so each request is sent once and a
/// handshake ends after at most five steps.
pub proof fn lemma_step_moves_forward(
    user: Seq<char>,
    password: Seq<char>,
    stage: Stage,
    input: Input,
)
    requires
        !stage.is_terminal(),
    ensures
        ({
            let next = transition(user, password, stage, input).0;
            next.is_terminal() || next.progress() == stage.progress() + 1
        }),
        transition(user, password, stage, input).0.progress() > stage.progress(),
{
}

/// A failure of the transport ends a running handshake with that failure.
pub proof fn lemma_transport_failure_ends(
    user: Seq<char>,
    password: Seq<char>,
    stage: Stage,
    text: Seq<char>,
)
    requires
        !stage.is_terminal(),
    ensures
        transition(user, password, stage, Input::TransportFailed(text)) == fail(
            Failure::Transport(text),
        ),
{
}

/// The `login` request of a handshake carries the user, the digest and the
/// hashed login type, and its `options` section is there and empty.
pub proof fn lemma_login_request(user: Seq<char>, digest: Seq<char>)
    ensures
        ({
            let params = login_model(user, digest).params->0;
            &&& login_model(user, digest).params is Some
            &&& member(params.get("login"@), "user"@) == Some(Wire::Text(user))
            &&& member(params.get("login"@), "password"@) == Some(Wire::Text(digest))
            &&& member(params.get("login"@), "type"@) == Some(Wire::Text("SHA1"@))
            &&& params.get("options"@) == Some(Wire::Dict(Seq::empty()))
        }),
{
    let model = login_params_model(user, digest);
    model.lemma_sections();
    model.lemma_login_section();
    assert(model.option_entries() =~= Seq::empty());
}

/// A handshake in progress: who logs in, and where the handshake stands.
#[derive(Debug, PartialEq, Eq)]
pub struct Handshake {
    credentials: Credentials,
    state: State,
}

/// The handshake ended in failure.
fn failed(credentials: Credentials, error: LoginError) -> (next: (Handshake, Action))
    ensures
        next.0.user() == credentials.user@,
        next.0.password() == credentials.password@,
        (next.0.stage(), next.1@) == fail(error@),
{
    let copy = error.duplicate();
    (Handshake { credentials, state: State::Failed(error) }, Action::Done(Err(copy)))
}

impl Handshake {
    /// The user who logs in.
    pub closed spec fn user(&self) -> Seq<char> {
        self.credentials.user@
    }

    /// The password of the user, percent-encoded.
    pub closed spec fn password(&self) -> Seq<char> {
        self.credentials.password@
    }

    /// Where the handshake stands.
    pub closed spec fn stage(&self) -> Stage {
        self.state@
    }

    /// A handshake for the given credentials, and its first action: to send
    /// the `hello` request.
    pub fn start(credentials: Credentials) -> (begun: (Handshake, Action))
        ensures
            begun.0.user() == credentials.user@,
            begun.0.password() == credentials.password@,
            begun.0.stage() == Stage::Start,
            begun.1@ == Output::Send(hello_model()),
    {
        (Handshake { credentials, state: State::Start }, Action::Send(hello_request()))
    }

    /// Where the handshake stands.
    pub fn state(&self) -> (state: &State)
        ensures
            state@ == self.stage(),
    {
        &self.state
    }

    /// The outcome of the handshake, once it has ended.
    pub fn outcome(&self) -> (outcome: Option<Result<i32, LoginError>>)
        ensures
            match outcome {
                Some(Ok(id)) => self.stage() == Stage::Authenticated(id),
                Some(Err(error)) => self.stage() == Stage::Failed(error@),
                None => !self.stage().is_terminal(),
            },
    {
        match &self.state {
            State::Authenticated(id) => Some(Ok(*id)),
            State::Failed(error) => Some(Err(error.duplicate())),
            _ => None,
        }
    }

    /// Takes the handshake one step further on what the caller reports, and
    /// says what the caller is to do next.
    pub fn step(self, event: Event) -> (next: (Handshake, Action))
        ensures
            next.0.user() == self.user(),
            next.0.password() == self.password(),
            (next.0.stage(), next.1@) == transition(
                self.user(),
                self.password(),
                self.stage(),
                event@,
            ),
    {
        let Handshake { credentials, state } = self;
        match (state, event) {
            (State::Authenticated(id), _) => (
                Handshake { credentials, state: State::Authenticated(id) },
                Action::Done(Ok(id)),
            ),
            (State::Failed(error), _) => failed(credentials, error),
            (_, Event::TransportFailed(text)) => failed(credentials, LoginError::Transport(text)),
            (State::Start, Event::Sent) => (
                Handshake { credentials, state: State::HelloSent },
                Action::Receive,
            ),
            (State::HelloSent, Event::Received(response)) => {
                match nonce_from_hello(&response) {
                    Err(error) => failed(credentials, error),
                    Ok(nonce) => match credentials.decode_password() {
                        None => failed(
                            credentials,
                            LoginError::ProtocolViolation(Violation::PasswordNotText),
                        ),
                        Some(text) => {
                            let action = Action::ComputeDigest {
                                password: text.as_str().as_bytes_vec(),
                                nonce: nonce.as_str().as_bytes_vec(),
                            };
                            (Handshake { credentials, state: State::NonceObtained(nonce) }, action)
                        },
                    },
                }
            },
            (State::NonceObtained(_), Event::Digest(digest)) => {
                match login_request(credentials.user.as_str(), digest.as_slice()) {
                    Ok(request) => (
                        Handshake { credentials, state: State::LoginReady },
                        Action::Send(request),
                    ),
                    Err(error) => failed(credentials, error),
                }
            },
            (State::LoginReady, Event::Sent) => (
                Handshake { credentials, state: State::LoginSent },
                Action::Receive,
            ),
            (State::LoginSent, Event::Received(response)) => {
                match client_id_from_login(&response) {
                    Ok(id) => (
                        Handshake { credentials, state: State::Authenticated(id) },
                        Action::Done(Ok(id)),
                    ),
                    Err(error) => failed(credentials, error),
                }
            },
            _ => failed(credentials, LoginError::ProtocolViolation(Violation::UnexpectedEvent)),
        }
    }
}

} // verus!
