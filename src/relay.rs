//! Streaming relay: how a request is formed, and the state machine that
//! decides, for each thing the network reports, what the host does next.

use vstd::prelude::*;
use vstd::string::StrSliceExecFns;

use crate::store::copy_string;

verus! {

/// The methods the relay sends with.
#[derive(PartialEq, Eq, Structural, Clone, Copy, Debug)]
pub enum HttpMethod {
    Get,
    Post,
}

/// The method the relay uses for the caller's `name`: GET for "GET", POST
/// for anything else, "POST" included.
pub open spec fn method_for(name: Seq<char>) -> HttpMethod {
    if name == seq!['G', 'E', 'T'] {
        HttpMethod::Get
    } else {
        HttpMethod::Post
    }
}

/// Picks the method for the caller's `name`. Unrecognised names fall back to
/// POST rather than being refused.
pub fn parse_method(name: &str) -> (r: HttpMethod)
    ensures
        r == method_for(name@),
{
    if name.unicode_len() == 3 && name.get_char(0) == 'G' && name.get_char(1) == 'E'
        && name.get_char(2) == 'T' {
        assert(name@ =~= seq!['G', 'E', 'T']);
        HttpMethod::Get
    } else {
        HttpMethod::Post
    }
}

/// What the caller asks the relay to send.
#[derive(Clone, Debug, PartialEq, Eq)]
pub struct RelayRequest {
    pub url: String,
    pub method: String,
    pub headers: Vec<(String, String)>,
    pub body: String,
}

/// The request as it goes out: the chosen method, the URL and headers
/// unchanged, and a body only where the caller's body is not empty.
#[derive(Clone, Debug, PartialEq, Eq)]
pub struct RequestPlan {
    pub method: HttpMethod,
    pub url: String,
    pub headers: Vec<(String, String)>,
    pub body: Option<String>,
}

/// Forms the outbound request. Headers are passed on verbatim and in the
/// given order; an empty body is sent as no body at all.
pub fn plan_request(request: RelayRequest) -> (r: RequestPlan)
    ensures
        r.method == method_for(request.method@),
        r.url == request.url,
        r.headers == request.headers,
        r.body == (if request.body@.len() == 0 {
            None
        } else {
            Some(request.body)
        }),
{
    let method = parse_method(request.method.as_str());
    let body = if request.body.as_str().is_empty() {
        None
    } else {
        Some(request.body)
    };
    RequestPlan { method, url: request.url, headers: request.headers, body }
}

/// Whether `status` is a success status: 200 to 299.
pub open spec fn is_success(status: u16) -> bool {
    200 <= status <= 299
}

pub fn status_is_success(status: u16) -> (r: bool)
    ensures
        r == is_success(status),
{
    200 <= status && status <= 299
}

/// Text of a chunk's bytes, decoded as UTF-8 with each invalid sequence
/// replaced by U+FFFD.
pub uninterp spec fn lossy_text(bytes: Seq<u8>) -> Seq<char>;

/// Relies on std's `String::from_utf8_lossy`: decodes UTF-8, replacing
/// invalid sequences instead of failing; no bytes give no text.
#[verifier::external_body]
fn decode_lossy(bytes: &[u8]) -> (r: String)
    ensures
        r@ == lossy_text(bytes@),
        bytes@.len() == 0 ==> r@.len() == 0,
{
    String::from_utf8_lossy(bytes).into_owned()
}

/// The status line of `code`: the code followed by its reason phrase.
pub uninterp spec fn status_text(code: u16) -> Seq<char>;

/// Relies on reqwest's `StatusCode` (http's): `from_u16` accepts every code
/// from 100 to 999, and its `Display` writes the code and reason phrase.
#[verifier::external_body]
fn status_line(code: u16) -> (r: String)
    requires
        100 <= code <= 999,
    ensures
        r@ == status_text(code),
{
    match reqwest::StatusCode::from_u16(code) {
        Ok(status) => status.to_string(),
        Err(_) => String::new(),
    }
}


/// Why a relay failed.
#[derive(Clone, Debug, PartialEq, Eq)]
pub enum RelayError {
    /// The request could not be sent or no response came; the transport's
    /// own description.
    Transport(String),
    /// The backend answered with a status that is not a success, and this body.
    Status { code: u16, body: String },
    /// The response stream broke off after it had started; the transport's
    /// own description.
    Stream(String),
}

pub enum RelayErrorModel {
    Transport(Seq<char>),
    Status { code: u16, body: Seq<char> },
    Stream(Seq<char>),
}

impl View for RelayError {
    type V = RelayErrorModel;

    open spec fn view(&self) -> RelayErrorModel {
        match self {
            RelayError::Transport(m) => RelayErrorModel::Transport(m@),
            RelayError::Status { code, body } => RelayErrorModel::Status { code: *code, body: body@ },
            RelayError::Stream(m) => RelayErrorModel::Stream(m@),
        }
    }
}

/// The text a caller is given for `error`.
pub open spec fn error_text(error: RelayErrorModel) -> Seq<char> {
    match error {
        RelayErrorModel::Transport(m) => m,
        RelayErrorModel::Status { code, body } => "Backend error "@ + status_text(code) + ": "@ + body,
        RelayErrorModel::Stream(m) => "Stream error: "@ + m,
    }
}

/// A status error carries a code that an HTTP response can have.
pub open spec fn has_valid_status(error: RelayErrorModel) -> bool {
    error matches RelayErrorModel::Status { code, .. } ==> 100 <= code <= 999
}

impl RelayError {
    /// The description handed to the caller of a failed relay.
    pub fn message(&self) -> (r: String)
        requires
            has_valid_status(self@),
        ensures
            r@ == error_text(self@),
    {
        match self {
            RelayError::Transport(m) => copy_string(m),
            RelayError::Status { code, body } => {
                let mut r = String::from_str("Backend error ");
                let line = status_line(*code);
                r.append(line.as_str());
                r.append(": ");
                r.append(body.as_str());
                r
            },
            RelayError::Stream(m) => {
                let mut r = String::from_str("Stream error: ");
                r.append(m.as_str());
                r
            },
        }
    }
}

/// Where a relay stands.
#[derive(PartialEq, Eq, Structural, Clone, Copy, Debug)]
pub enum RelayPhase {
    /// Nothing sent yet.
    Idle,
    /// The request is out; waiting for the response's head.
    RequestSent,
    /// The response had this status, not a success; waiting for its body.
    AwaitingErrorBody(u16),
    /// The response is being read chunk by chunk.
    Streaming,
    /// Ended with a failure. Terminal.
    Failed,
    /// Ended after the last chunk. Terminal.
    Complete,
}

pub open spec fn is_terminal(phase: RelayPhase) -> bool {
    phase is Failed || phase is Complete
}

/// What the host reports to the relay.
#[derive(Clone, Debug, PartialEq, Eq)]
pub enum RelayInput {
    /// The response's head arrived with this status code.
    Responded(u16),
    /// Sending failed before any response; the transport's description.
    SendFailed(String),
    /// The error response's body, or `None` where it could not be read.
    ErrorBody(Option<String>),
    /// One chunk of the response body, as it came off the wire.
    Chunk(Vec<u8>),
    /// Reading the response body failed; the transport's description.
    StreamFailed(String),
    /// The response body has no more chunks.
    StreamEnded,
}

pub enum RelayInputModel {
    Responded(u16),
    SendFailed(Seq<char>),
    ErrorBody(Option<Seq<char>>),
    Chunk(Seq<u8>),
    StreamFailed(Seq<char>),
    StreamEnded,
}

impl View for RelayInput {
    type V = RelayInputModel;

    open spec fn view(&self) -> RelayInputModel {
        match self {
            RelayInput::Responded(s) => RelayInputModel::Responded(*s),
            RelayInput::SendFailed(m) => RelayInputModel::SendFailed(m@),
            RelayInput::ErrorBody(t) => RelayInputModel::ErrorBody(
                match t {
                    Some(t) => Some(t@),
                    None => None,
                },
            ),
            RelayInput::Chunk(b) => RelayInputModel::Chunk(b@),
            RelayInput::StreamFailed(m) => RelayInputModel::StreamFailed(m@),
            RelayInput::StreamEnded => RelayInputModel::StreamEnded,
        }
    }
}

/// What the host does next.
#[derive(Clone, Debug, PartialEq, Eq)]
pub enum RelayAction {
    /// Read the error response's whole body and report it.
    ReadErrorBody,
    /// Wait for the next chunk of the response body and report it.
    ReadChunk,
    /// Emit this text to the UI as one chunk event, then wait for the next
    /// chunk. A failure to emit is only logged.
    EmitChunk(String),
    /// Emit the completion event; the relay succeeded.
    EmitComplete,
    /// The relay failed with this error.
    Fail(RelayError),
    /// The report does not fit the current phase; nothing to do.
    Ignore,
}

pub enum RelayActionModel {
    ReadErrorBody,
    ReadChunk,
    EmitChunk(Seq<char>),
    EmitComplete,
    Fail(RelayErrorModel),
    Ignore,
}

impl View for RelayAction {
    type V = RelayActionModel;

    open spec fn view(&self) -> RelayActionModel {
        match self {
            RelayAction::ReadErrorBody => RelayActionModel::ReadErrorBody,
            RelayAction::ReadChunk => RelayActionModel::ReadChunk,
            RelayAction::EmitChunk(t) => RelayActionModel::EmitChunk(t@),
            RelayAction::EmitComplete => RelayActionModel::EmitComplete,
            RelayAction::Fail(e) => RelayActionModel::Fail(e@),
            RelayAction::Ignore => RelayActionModel::Ignore,
        }
    }
}

/// One step of the relay: the next phase and the action for `input` in
/// `phase`.
pub open spec fn transition(phase: RelayPhase, input: RelayInputModel) -> (RelayPhase, RelayActionModel) {
    match (phase, input) {
        (RelayPhase::RequestSent, RelayInputModel::Responded(status)) => if is_success(status) {
            (RelayPhase::Streaming, RelayActionModel::ReadChunk)
        } else {
            (RelayPhase::AwaitingErrorBody(status), RelayActionModel::ReadErrorBody)
        },
        (RelayPhase::RequestSent, RelayInputModel::SendFailed(m)) => (
            RelayPhase::Failed,
            RelayActionModel::Fail(RelayErrorModel::Transport(m)),
        ),
        (RelayPhase::AwaitingErrorBody(status), RelayInputModel::ErrorBody(text)) => (
            RelayPhase::Failed,
            RelayActionModel::Fail(
                RelayErrorModel::Status {
                    code: status,
                    body: match text {
                        Some(t) => t,
                        None => Seq::empty(),
                    },
                },
            ),
        ),
        (RelayPhase::Streaming, RelayInputModel::Chunk(bytes)) => (
            RelayPhase::Streaming,
            RelayActionModel::EmitChunk(lossy_text(bytes)),
        ),
        (RelayPhase::Streaming, RelayInputModel::StreamFailed(m)) => (
            RelayPhase::Failed,
            RelayActionModel::Fail(RelayErrorModel::Stream(m)),
        ),
        (RelayPhase::Streaming, RelayInputModel::StreamEnded) => (
            RelayPhase::Complete,
            RelayActionModel::EmitComplete,
        ),
        _ => (phase, RelayActionModel::Ignore),
    }
}

/// One relay call's state. Each call starts from a fresh `Relay`.
pub struct Relay {
    pub phase: RelayPhase,
}

impl Relay {
    pub fn new() -> (r: Relay)
        ensures
            r.phase == RelayPhase::Idle,
    {
        Relay { phase: RelayPhase::Idle }
    }

    /// Starts the relay: forms the request to send and moves to
    /// `RequestSent`. A relay that has already started is left as it is and
    /// gives `None`.
    pub fn start(&mut self, request: RelayRequest) -> (r: Option<RequestPlan>)
        ensures
            old(self).phase == RelayPhase::Idle ==> {
                &&& final(self).phase == RelayPhase::RequestSent
                &&& r matches Some(plan) && plan.method == method_for(request.method@)
                    && plan.url == request.url && plan.headers == request.headers
                    && plan.body == (if request.body@.len() == 0 {
                    None
                } else {
                    Some(request.body)
                })
            },
            old(self).phase != RelayPhase::Idle ==> final(self).phase == old(self).phase && r is None,
    {
        match self.phase {
            RelayPhase::Idle => {
                self.phase = RelayPhase::RequestSent;
                Some(plan_request(request))
            },
            _ => None,
        }
    }

    /// Takes in what the host reports and says what it does next.
    pub fn step(&mut self, input: RelayInput) -> (r: RelayAction)
        ensures
            (final(self).phase, r@) == transition(old(self).phase, input@),
    {
        let phase = self.phase;
        match phase {
            RelayPhase::RequestSent => match input {
                RelayInput::Responded(status) => {
                    if status_is_success(status) {
                        self.phase = RelayPhase::Streaming;
                        RelayAction::ReadChunk
                    } else {
                        self.phase = RelayPhase::AwaitingErrorBody(status);
                        RelayAction::ReadErrorBody
                    }
                },
                RelayInput::SendFailed(m) => {
                    self.phase = RelayPhase::Failed;
                    RelayAction::Fail(RelayError::Transport(m))
                },
                _ => RelayAction::Ignore,
            },
            RelayPhase::AwaitingErrorBody(status) => match input {
                RelayInput::ErrorBody(text) => {
                    self.phase = RelayPhase::Failed;
                    let body = match text {
                        Some(t) => t,
                        None => String::new(),
                    };
                    RelayAction::Fail(RelayError::Status { code: status, body })
                },
                _ => RelayAction::Ignore,
            },
            RelayPhase::Streaming => match input {
                RelayInput::Chunk(bytes) => RelayAction::EmitChunk(decode_lossy(bytes.as_slice())),
                RelayInput::StreamFailed(m) => {
                    self.phase = RelayPhase::Failed;
                    RelayAction::Fail(RelayError::Stream(m))
                },
                RelayInput::StreamEnded => {
                    self.phase = RelayPhase::Complete;
                    RelayAction::EmitComplete
                },
                _ => RelayAction::Ignore,
            },
            _ => RelayAction::Ignore,
        }
    }
}


/// The phase reached and the actions taken when `inputs` are reported one
/// after another, starting in `phase`.
pub open spec fn run(phase: RelayPhase, inputs: Seq<RelayInputModel>) -> (RelayPhase, Seq<RelayActionModel>)
    decreases inputs.len(),
{
    if inputs.len() == 0 {
        (phase, Seq::empty())
    } else {
        let first = transition(phase, inputs[0]);
        let rest = run(first.0, inputs.drop_first());
        (rest.0, seq![first.1] + rest.1)
    }
}

pub open spec fn chunk_inputs(chunks: Seq<Seq<u8>>) -> Seq<RelayInputModel> {
    chunks.map_values(|bytes: Seq<u8>| RelayInputModel::Chunk(bytes))
}

pub open spec fn chunk_events(chunks: Seq<Seq<u8>>) -> Seq<RelayActionModel> {
    chunks.map_values(|bytes: Seq<u8>| RelayActionModel::EmitChunk(lossy_text(bytes)))
}

pub open spec fn ignored(n: nat) -> Seq<RelayActionModel> {
    Seq::new(n, |i: int| RelayActionModel::Ignore)
}

/// Running two batches of inputs one after the other is running them joined.
pub proof fn lemma_run_concat(phase: RelayPhase, first: Seq<RelayInputModel>, second: Seq<RelayInputModel>)
    ensures
        run(phase, first + second) == (
            run(run(phase, first).0, second).0,
            run(phase, first).1 + run(run(phase, first).0, second).1,
        ),
    decreases first.len(),
{
    if first.len() == 0 {
        assert(first + second =~= second);
        assert(run(phase, first).1 + run(phase, second).1 =~= run(phase, second).1);
    } else {
        let next = transition(phase, first[0]).0;
        lemma_run_concat(next, first.drop_first(), second);
        assert((first + second).drop_first() =~= first.drop_first() + second);
        assert((first + second)[0] == first[0]);
        assert(seq![transition(phase, first[0]).1] + (run(next, first.drop_first()).1 + run(
            run(next, first.drop_first()).0,
            second,
        ).1) =~= (seq![transition(phase, first[0]).1] + run(next, first.drop_first()).1) + run(
            run(next, first.drop_first()).0,
            second,
        ).1);
    }
}

/// A relay that has failed or completed stays so, and does nothing more,
/// whatever is reported to it.
pub proof fn lemma_terminal_phase_is_final(phase: RelayPhase, inputs: Seq<RelayInputModel>)
    requires
        is_terminal(phase),
    ensures
        run(phase, inputs) == (phase, ignored(inputs.len())),
    decreases inputs.len(),
{
    if inputs.len() > 0 {
        lemma_terminal_phase_is_final(phase, inputs.drop_first());
        assert(seq![RelayActionModel::Ignore] + ignored((inputs.len() - 1) as nat) =~= ignored(
            inputs.len(),
        ));
    } else {
        assert(ignored(0) =~= Seq::<RelayActionModel>::empty());
    }
}

/// While streaming, each chunk is emitted as one event, in arrival order.
pub proof fn lemma_chunks_emitted_in_order(chunks: Seq<Seq<u8>>)
    ensures
        run(RelayPhase::Streaming, chunk_inputs(chunks)) == (RelayPhase::Streaming, chunk_events(chunks)),
    decreases chunks.len(),
{
    if chunks.len() > 0 {
        lemma_chunks_emitted_in_order(chunks.drop_first());
        assert(chunk_inputs(chunks).drop_first() =~= chunk_inputs(chunks.drop_first()));
        assert(seq![RelayActionModel::EmitChunk(lossy_text(chunks[0]))] + chunk_events(chunks.drop_first())
            =~= chunk_events(chunks));
    } else {
        assert(chunk_events(chunks) =~= Seq::<RelayActionModel>::empty());
    }
}

/// A response with a success status whose body arrives as `chunks` gives one
/// chunk event per chunk, in arrival order, then exactly one completion
/// event, and nothing after it.
pub proof fn lemma_successful_response_streams(status: u16, chunks: Seq<Seq<u8>>, later: Seq<RelayInputModel>)
    requires
        is_success(status),
    ensures
        run(
            RelayPhase::RequestSent,
            seq![RelayInputModel::Responded(status)] + chunk_inputs(chunks) + seq![RelayInputModel::StreamEnded]
                + later,
        ) == (
            RelayPhase::Complete,
            seq![RelayActionModel::ReadChunk] + chunk_events(chunks) + seq![RelayActionModel::EmitComplete]
                + ignored(later.len()),
        ),
{
    let head = seq![RelayInputModel::Responded(status)];
    let body = chunk_inputs(chunks);
    let end = seq![RelayInputModel::StreamEnded];
    lemma_run_concat(RelayPhase::RequestSent, head, body);
    lemma_run_concat(RelayPhase::RequestSent, head + body, end);
    lemma_run_concat(RelayPhase::RequestSent, head + body + end, later);
    assert(run(RelayPhase::Streaming, Seq::empty()) == (RelayPhase::Streaming, Seq::<RelayActionModel>::empty()));
    assert(head.drop_first() =~= Seq::<RelayInputModel>::empty());
    assert(run(RelayPhase::RequestSent, head) == (RelayPhase::Streaming, seq![RelayActionModel::ReadChunk]));
    lemma_chunks_emitted_in_order(chunks);
    assert(end.drop_first() =~= Seq::<RelayInputModel>::empty());
    assert(run(RelayPhase::Complete, Seq::empty()) == (RelayPhase::Complete, Seq::<RelayActionModel>::empty()));
    assert(run(RelayPhase::Streaming, end) == (RelayPhase::Complete, seq![RelayActionModel::EmitComplete]));
    lemma_terminal_phase_is_final(RelayPhase::Complete, later);
}

/// A response whose status is not a success gives no chunk event and
/// exactly one failure, carrying the status and the body's text (empty where
/// the body could not be read), and nothing after it.
pub proof fn lemma_rejected_response_fails(status: u16, body: Option<Seq<char>>, later: Seq<RelayInputModel>)
    requires
        !is_success(status),
    ensures
        run(
            RelayPhase::RequestSent,
            seq![RelayInputModel::Responded(status), RelayInputModel::ErrorBody(body)] + later,
        ) == (
            RelayPhase::Failed,
            seq![
                RelayActionModel::ReadErrorBody,
                RelayActionModel::Fail(
                    RelayErrorModel::Status {
                        code: status,
                        body: match body {
                            Some(t) => t,
                            None => Seq::empty(),
                        },
                    },
                ),
            ] + ignored(later.len()),
        ),
{
    let head = seq![RelayInputModel::Responded(status), RelayInputModel::ErrorBody(body)];
    lemma_run_concat(RelayPhase::RequestSent, head, later);
    assert(head.drop_first() =~= seq![RelayInputModel::ErrorBody(body)]);
    assert(head.drop_first().drop_first() =~= Seq::<RelayInputModel>::empty());
    assert(run(RelayPhase::Failed, Seq::empty()) == (RelayPhase::Failed, Seq::<RelayActionModel>::empty()));
    let fail = transition(RelayPhase::AwaitingErrorBody(status), RelayInputModel::ErrorBody(body)).1;
    assert(run(RelayPhase::AwaitingErrorBody(status), head.drop_first()) == (RelayPhase::Failed, seq![fail]));
    assert(seq![RelayActionModel::ReadErrorBody] + seq![fail] =~= seq![RelayActionModel::ReadErrorBody, fail]);
    lemma_terminal_phase_is_final(RelayPhase::Failed, later);
}

} // verus!
