//! A transport that sends nothing: it turns a request into a signed message
//! on disk and then stops on purpose.
//!
//! One request goes through these states, one at a time:
//!
//! ```text
//! Idle -> BuildingEnvelope -> Serialized -> AbortedBySentinel
//! ```
//!
//! The transport itself is the idle state. [`SignReplicaV1Transport::read`]
//! and [`SignReplicaV1Transport::submit`] build the message; the caller
//! serializes it and reports with [`BuildingEnvelope::serialized`]; the caller
//! writes the file and reports with [`Serialized::written`]. The end is
//! [`TransportOutcome::Written`], which is no failure: it says that the
//! message is on disk and that nothing is to be sent. No state stands for a
//! request that was sent.

use vstd::prelude::*;
use crate::hex_text::{hex_encode, hex_of};
use crate::signed_message::{SignedMessageV1, SignedMessageV1View, QUERY, UPDATE};
use crate::text::appended;

verus! {

/// The two kinds of call that can be signed for later.
#[derive(Clone, Copy, Debug, PartialEq, Eq)]
pub enum CallKind {
    Query,
    Update,
}

/// How a request through the transport ended.
#[derive(Clone, Debug, PartialEq, Eq)]
pub enum TransportOutcome {
    /// The message was written to `path`, and nothing was sent. This is the
    /// end that a supported request is meant to reach.
    Written { kind: CallKind, path: String },
    /// The request failed.
    TransportFailure { reason: String },
}

pub enum TransportOutcomeView {
    Written { kind: CallKind, path: Seq<char> },
    TransportFailure { reason: Seq<char> },
}

impl View for TransportOutcome {
    type V = TransportOutcomeView;

    open spec fn view(&self) -> TransportOutcomeView {
        match self {
            TransportOutcome::Written { kind, path } => TransportOutcomeView::Written {
                kind: *kind,
                path: path@,
            },
            TransportOutcome::TransportFailure { reason } => TransportOutcomeView::TransportFailure {
                reason: reason@,
            },
        }
    }
}

/// The message for an outcome: where the message was generated, or why the
/// request failed.
pub open spec fn outcome_message(outcome: TransportOutcomeView) -> Seq<char> {
    match outcome {
        TransportOutcomeView::Written { kind, path } => match kind {
            CallKind::Query => "Query message generated at ["@ + path + "]"@,
            CallKind::Update => "Update message generated at ["@ + path + "]"@,
        },
        TransportOutcomeView::TransportFailure { reason } => reason,
    }
}

impl TransportOutcome {
    /// Whether the request ended as it was meant to: with the message on
    /// disk.
    pub fn is_written(&self) -> (written: bool)
        ensures
            written == (self@ is Written),
    {
        match self {
            TransportOutcome::Written { .. } => true,
            TransportOutcome::TransportFailure { .. } => false,
        }
    }

    /// The message to show for this outcome.
    pub fn message(&self) -> (message: String)
        ensures
            message@ == outcome_message(self@),
    {
        match self {
            TransportOutcome::Written { kind, path } => {
                let opening = match kind {
                    CallKind::Query => "Query message generated at [",
                    CallKind::Update => "Update message generated at [",
                };
                let located = appended(opening, path.as_str());
                appended(located.as_str(), "]")
            },
            TransportOutcome::TransportFailure { reason } => reason.clone(),
        }
    }
}

/// The message for a query: the template with the call kind and the signed
/// request in hexadecimal. A request identifier of the template stays.
pub open spec fn query_message(template: SignedMessageV1View, envelope: Seq<u8>) -> SignedMessageV1View {
    template.with_call_type(QUERY@).with_content(hex_of(envelope))
}

/// The message for an update: the template with the call kind, the request
/// identifier and the signed request, both in hexadecimal.
pub open spec fn update_message(
    template: SignedMessageV1View,
    envelope: Seq<u8>,
    request_id: Seq<u8>,
) -> SignedMessageV1View {
    template.with_call_type(UPDATE@).with_request_id(request_id).with_content(hex_of(envelope))
}

/// The transport, at rest: where to write, and what every message holds.
#[derive(Clone, Debug, PartialEq, Eq)]
pub struct SignReplicaV1Transport {
    file_name: String,
    message_template: SignedMessageV1,
}

pub struct SignReplicaV1TransportView {
    pub file_name: Seq<char>,
    pub message_template: SignedMessageV1View,
}

impl View for SignReplicaV1Transport {
    type V = SignReplicaV1TransportView;

    closed spec fn view(&self) -> SignReplicaV1TransportView {
        SignReplicaV1TransportView {
            file_name: self.file_name@,
            message_template: self.message_template@,
        }
    }
}

/// A request whose message is built and has to be serialized.
#[derive(Debug, PartialEq, Eq)]
pub struct BuildingEnvelope {
    kind: CallKind,
    file_name: String,
    message: SignedMessageV1,
}

pub struct BuildingEnvelopeView {
    pub kind: CallKind,
    pub file_name: Seq<char>,
    pub message: SignedMessageV1View,
}

impl View for BuildingEnvelope {
    type V = BuildingEnvelopeView;

    closed spec fn view(&self) -> BuildingEnvelopeView {
        BuildingEnvelopeView {
            kind: self.kind,
            file_name: self.file_name@,
            message: self.message@,
        }
    }
}

/// A request whose message is serialized and has to be written.
#[derive(Debug, PartialEq, Eq)]
pub struct Serialized {
    kind: CallKind,
    file_name: String,
    json: String,
}

pub struct SerializedView {
    pub kind: CallKind,
    pub file_name: Seq<char>,
    pub json: Seq<char>,
}

impl View for Serialized {
    type V = SerializedView;

    closed spec fn view(&self) -> SerializedView {
        SerializedView { kind: self.kind, file_name: self.file_name@, json: self.json@ }
    }
}

/// A request, as the transport takes it.
pub enum TransportRequest {
    /// A query, with the signed request.
    Read { envelope: Seq<u8> },
    /// An update, with the signed request and its identifier.
    Submit { envelope: Seq<u8>, request_id: Seq<u8> },
    ReadState,
    Call,
    Status,
}

/// The refusal of a kind of request that cannot be signed for later.
pub open spec fn unsupported(what: Seq<char>) -> TransportOutcomeView {
    TransportOutcomeView::TransportFailure { reason: what + " calls not supported"@ }
}

impl SignReplicaV1TransportView {
    /// What the transport makes of a request: the message to serialize, for
    /// a query and for an update; a refusal for anything else.
    pub open spec fn takes(self, request: TransportRequest) -> Result<
        BuildingEnvelopeView,
        TransportOutcomeView,
    > {
        match request {
            TransportRequest::Read { envelope } => Ok(
                BuildingEnvelopeView {
                    kind: CallKind::Query,
                    file_name: self.file_name,
                    message: query_message(self.message_template, envelope),
                },
            ),
            TransportRequest::Submit { envelope, request_id } => Ok(
                BuildingEnvelopeView {
                    kind: CallKind::Update,
                    file_name: self.file_name,
                    message: update_message(self.message_template, envelope, request_id),
                },
            ),
            TransportRequest::ReadState => Err(unsupported("read_state"@)),
            TransportRequest::Call => Err(unsupported("call"@)),
            TransportRequest::Status => Err(unsupported("status"@)),
        }
    }
}

impl BuildingEnvelopeView {
    /// What follows the serialization of the message: the text to write, or
    /// the end of the request where there is none.
    pub open spec fn serialized(self, json: Result<Seq<char>, Seq<char>>) -> Result<
        SerializedView,
        TransportOutcomeView,
    > {
        match json {
            Ok(text) => Ok(SerializedView { kind: self.kind, file_name: self.file_name, json: text }),
            Err(reason) => Err(TransportOutcomeView::TransportFailure { reason }),
        }
    }
}

impl SerializedView {
    /// How the request ends once the file system has answered.
    pub open spec fn written(self, result: Result<(), Seq<char>>) -> TransportOutcomeView {
        match result {
            Ok(()) => TransportOutcomeView::Written { kind: self.kind, path: self.file_name },
            Err(reason) => TransportOutcomeView::TransportFailure { reason },
        }
    }
}

/// What a request comes to once the caller has played its part: the file that
/// the caller was asked to write, with its contents, if it was asked to write
/// one; and how the request ended.
pub struct Course {
    pub file: Option<(Seq<char>, Seq<char>)>,
    pub outcome: TransportOutcomeView,
}

/// The course of a request through the transport, where `encode` is what the
/// caller's serializer makes of a message and `written` is what the file
/// system answers to a write.
pub open spec fn course(
    transport: SignReplicaV1TransportView,
    request: TransportRequest,
    encode: spec_fn(SignedMessageV1View) -> Result<Seq<char>, Seq<char>>,
    written: Result<(), Seq<char>>,
) -> Course {
    match transport.takes(request) {
        Err(outcome) => Course { file: None, outcome },
        Ok(building) => match building.serialized(encode(building.message)) {
            Err(outcome) => Course { file: None, outcome },
            Ok(ready) => Course {
                file: Some((ready.file_name, ready.json)),
                outcome: ready.written(written),
            },
        },
    }
}

/// The view of the result of a serialization or of a write.
pub open spec fn text_result(result: Result<String, String>) -> Result<Seq<char>, Seq<char>> {
    match result {
        Ok(text) => Ok(text@),
        Err(reason) => Err(reason@),
    }
}

/// The view of the result of a write.
pub open spec fn unit_result(result: Result<(), String>) -> Result<(), Seq<char>> {
    match result {
        Ok(()) => Ok(()),
        Err(reason) => Err(reason@),
    }
}

impl SignReplicaV1Transport {
    /// A transport that writes to `file_name` what `message_template` and the
    /// request make.
    pub fn new(file_name: String, message_template: SignedMessageV1) -> (transport: Self)
        ensures
            transport@ == (SignReplicaV1TransportView {
                file_name: file_name@,
                message_template: message_template@,
            }),
    {
        Self { file_name, message_template }
    }

    /// The file that this transport writes to.
    pub fn file_name(&self) -> (name: &String)
        ensures
            name@ == self@.file_name,
    {
        &self.file_name
    }

    /// Takes a query: builds its message, for the transport's file.
    pub fn read(&self, envelope: &[u8]) -> (request: BuildingEnvelope)
        ensures
            self@.takes(TransportRequest::Read { envelope: envelope@ }) == Ok::<
                BuildingEnvelopeView,
                TransportOutcomeView,
            >(request@),
    {
        let message = self.message_template.duplicate().with_call_type(
            QUERY.to_owned(),
        ).with_content(hex_encode(envelope));
        BuildingEnvelope { kind: CallKind::Query, file_name: self.file_name.clone(), message }
    }

    /// Takes an update with its request identifier: builds its message, for
    /// the transport's file.
    pub fn submit(&self, envelope: &[u8], request_id: &[u8]) -> (request: BuildingEnvelope)
        ensures
            self@.takes(
                TransportRequest::Submit { envelope: envelope@, request_id: request_id@ },
            ) == Ok::<BuildingEnvelopeView, TransportOutcomeView>(request@),
    {
        let message = self.message_template.duplicate().with_call_type(
            UPDATE.to_owned(),
        ).with_request_id(request_id).with_content(hex_encode(envelope));
        BuildingEnvelope { kind: CallKind::Update, file_name: self.file_name.clone(), message }
    }

    /// Refuses to read state: no message has that shape, so nothing is built
    /// and nothing is to be written.
    pub fn read_state(&self, _envelope: &[u8]) -> (outcome: TransportOutcome)
        ensures
            self@.takes(TransportRequest::ReadState) == Err::<BuildingEnvelopeView, TransportOutcomeView>(
                outcome@,
            ),
    {
        TransportOutcome::TransportFailure { reason: appended("read_state", " calls not supported") }
    }

    /// Refuses a generic call: no message has that shape, so nothing is built
    /// and nothing is to be written.
    pub fn call(&self, _envelope: &[u8]) -> (outcome: TransportOutcome)
        ensures
            self@.takes(TransportRequest::Call) == Err::<BuildingEnvelopeView, TransportOutcomeView>(
                outcome@,
            ),
    {
        TransportOutcome::TransportFailure { reason: appended("call", " calls not supported") }
    }

    /// Refuses to ask for the status: nothing is built and nothing is to be
    /// written.
    pub fn status(&self) -> (outcome: TransportOutcome)
        ensures
            self@.takes(TransportRequest::Status) == Err::<BuildingEnvelopeView, TransportOutcomeView>(
                outcome@,
            ),
    {
        TransportOutcome::TransportFailure { reason: appended("status", " calls not supported") }
    }
}

impl BuildingEnvelope {
    /// The message to serialize.
    pub fn message(&self) -> (message: &SignedMessageV1)
        ensures
            message@ == self@.message,
    {
        &self.message
    }

    /// Takes the result of serializing the message: the text to write, or the
    /// reason why there is none, which ends the request as a failure.
    pub fn serialized(
        self,
        json: Result<String, String>,
    ) -> (next: Result<Serialized, TransportOutcome>)
        ensures
            match next {
                Ok(ready) => self@.serialized(text_result(json)) == Ok::<
                    SerializedView,
                    TransportOutcomeView,
                >(ready@),
                Err(outcome) => self@.serialized(text_result(json)) == Err::<
                    SerializedView,
                    TransportOutcomeView,
                >(outcome@),
            },
    {
        match json {
            Ok(text) => Ok(Serialized { kind: self.kind, file_name: self.file_name, json: text }),
            Err(reason) => Err(TransportOutcome::TransportFailure { reason }),
        }
    }
}

impl Serialized {
    /// The file to write; what it held before is replaced.
    pub fn path(&self) -> (path: &String)
        ensures
            path@ == self@.file_name,
    {
        &self.file_name
    }

    /// What to write.
    pub fn contents(&self) -> (contents: &String)
        ensures
            contents@ == self@.json,
    {
        &self.json
    }

    /// Takes the result of writing the file, and ends the request: with the
    /// message on disk and nothing sent, or with the reason why the file
    /// could not be written.
    pub fn written(self, result: Result<(), String>) -> (outcome: TransportOutcome)
        ensures
            outcome@ == self@.written(unit_result(result)),
    {
        match result {
            Ok(()) => TransportOutcome::Written { kind: self.kind, path: self.file_name },
            Err(reason) => TransportOutcome::TransportFailure { reason },
        }
    }
}

/// A request that cannot be signed for later is refused at once: the caller
/// is asked to write no file, whatever its serializer and its file system
/// would do, and the request ends as a failure that says what is not
/// supported.
pub proof fn lemma_unsupported_requests_write_nothing(
    transport: SignReplicaV1Transport,
    encode: spec_fn(SignedMessageV1View) -> Result<Seq<char>, Seq<char>>,
    written: Result<(), Seq<char>>,
)
    ensures
        course(transport@, TransportRequest::ReadState, encode, written) == (Course {
            file: None,
            outcome: TransportOutcomeView::TransportFailure {
                reason: "read_state calls not supported"@,
            },
        }),
        course(transport@, TransportRequest::Call, encode, written) == (Course {
            file: None,
            outcome: TransportOutcomeView::TransportFailure { reason: "call calls not supported"@ },
        }),
        course(transport@, TransportRequest::Status, encode, written) == (Course {
            file: None,
            outcome: TransportOutcomeView::TransportFailure {
                reason: "status calls not supported"@,
            },
        }),
{
    reveal_strlit("read_state");
    reveal_strlit("call");
    reveal_strlit("status");
    reveal_strlit(" calls not supported");
    reveal_strlit("read_state calls not supported");
    reveal_strlit("call calls not supported");
    reveal_strlit("status calls not supported");
    assert("read_state"@ + " calls not supported"@ =~= "read_state calls not supported"@);
    assert("call"@ + " calls not supported"@ =~= "call calls not supported"@);
    assert("status"@ + " calls not supported"@ =~= "status calls not supported"@);
}

/// A query or an update ends with its message on disk and nothing sent, and
/// in no other way unless a step fails: the caller is asked to write what its
/// serializer made of the message, to the transport's file, and the request
/// ends as written where the file system accepts the write. Where the
/// serializer or the file system fails, the request ends as a failure with
/// their reason, which is no such end.
pub proof fn lemma_supported_requests_end_in_abort(
    transport: SignReplicaV1Transport,
    request: TransportRequest,
    encode: spec_fn(SignedMessageV1View) -> Result<Seq<char>, Seq<char>>,
    written: Result<(), Seq<char>>,
)
    requires
        request is Read || request is Submit,
    ensures
        ({
            let building = transport@.takes(request)->Ok_0;
            let run = course(transport@, request, encode, written);
            &&& transport@.takes(request) is Ok
            &&& building.file_name == transport@.file_name
            &&& building.kind == (if request is Read {
                CallKind::Query
            } else {
                CallKind::Update
            })
            &&& match encode(building.message) {
                Ok(json) => {
                    &&& run.file == Some((transport@.file_name, json))
                    &&& match written {
                        Ok(()) => run.outcome == (TransportOutcomeView::Written {
                            kind: building.kind,
                            path: transport@.file_name,
                        }),
                        Err(reason) => run.outcome == (TransportOutcomeView::TransportFailure {
                            reason,
                        }),
                    }
                },
                Err(reason) => {
                    &&& run.file is None
                    &&& run.outcome == (TransportOutcomeView::TransportFailure { reason })
                },
            }
        }),
{
}

/// What is written does not depend on where it is written: for the same
/// request, two transports with the same template ask for the same contents
/// to be written, each to its own file.
pub proof fn lemma_contents_are_independent_of_the_file(
    first: SignReplicaV1Transport,
    second: SignReplicaV1Transport,
    request: TransportRequest,
    encode: spec_fn(SignedMessageV1View) -> Result<Seq<char>, Seq<char>>,
    written: Result<(), Seq<char>>,
)
    requires
        first@.message_template == second@.message_template,
    ensures
        ({
            let one = course(first@, request, encode, written);
            let other = course(second@, request, encode, written);
            &&& one.file is Some <==> other.file is Some
            &&& one.file matches Some((path, contents)) ==> path == first@.file_name
                && other.file == Some((second@.file_name, contents))
        }),
{
}

/// The message of an update holds the request identifier that was supplied,
/// the call kind, and the signed request; that of a query holds the call kind
/// and the signed request, and leaves the template's request identifier as
/// it is. All else comes from the template.
pub proof fn lemma_message_fields(
    template: SignedMessageV1View,
    envelope: Seq<u8>,
    request_id: Seq<u8>,
)
    ensures
        update_message(template, envelope, request_id).request_id == Some(hex_of(request_id)),
        update_message(template, envelope, request_id).call_type == UPDATE@,
        update_message(template, envelope, request_id).content == hex_of(envelope),
        query_message(template, envelope).request_id == template.request_id,
        query_message(template, envelope).call_type == QUERY@,
        query_message(template, envelope).content == hex_of(envelope),
        update_message(template, envelope, request_id) == (SignedMessageV1View {
            call_type: UPDATE@,
            request_id: Some(hex_of(request_id)),
            content: hex_of(envelope),
            ..template
        }),
        query_message(template, envelope) == (SignedMessageV1View {
            call_type: QUERY@,
            content: hex_of(envelope),
            ..template
        }),
{
}

} // verus!
