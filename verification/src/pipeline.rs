//! One request, from the front door to the reply.
//!
//! [`receive`] takes a request as far as it goes without the workflow
//! backend: to a reply, or to the one hand-off that the caller is to attempt.
//! [`complete`] turns the backend's answer into the reply. The caller makes
//! the attempt between the two, once, and waits only for the backend to take
//! it.

use vstd::prelude::*;
use vstd::utf8::encode_utf8;
use crate::decision::{
    decide, decision, dispatch_input_of, document, is_liveness_command, settle, settlement,
    Action, ActionView, DispatchInput, DispatchInputView, DispatchOutcome, DispatchResult,
    Rejection,
};
use crate::interaction::{
    classification, classified_view, classify, event_pointers, Interaction, InteractionKind,
    InteractionView, ParseError,
};
use crate::json::{json_lookup, text_view};
use crate::response::{reply, reply_for, Reply, ResponsePayload, STATUS_OK};
use crate::signature::{verification, verify, PublicKey, VerificationError};

verus! {

/// The name of the header that carries the signature.
pub const SIGNATURE_HEADER: &'static str = "x-signature-ed25519";

/// The name of the header that carries the timestamp.
pub const TIMESTAMP_HEADER: &'static str = "x-signature-timestamp";

/// A request as the front door delivers it: the two headers, where present,
/// and the body exactly as it was transmitted.
#[derive(Debug)]
pub struct RawRequest {
    /// The signature header: hexadecimal text of 64 bytes.
    pub signature: Option<String>,
    /// The timestamp header: a string of decimal digits.
    pub timestamp: Option<String>,
    /// The raw body.
    pub body: Vec<u8>,
}

/// A [`RawRequest`] as specifications see it: headers by the bytes of their
/// text.
pub struct RawRequestView {
    pub signature: Option<Seq<u8>>,
    pub timestamp: Option<Seq<u8>>,
    pub body: Seq<u8>,
}

/// The bytes of a header's text, where the header is there.
pub open spec fn header_view(header: Option<String>) -> Option<Seq<u8>> {
    match header {
        Some(text) => Some(encode_utf8(text@)),
        None => None,
    }
}

impl View for RawRequest {
    type V = RawRequestView;

    open spec fn view(&self) -> RawRequestView {
        RawRequestView {
            signature: header_view(self.signature),
            timestamp: header_view(self.timestamp),
            body: self.body@,
        }
    }
}

/// One hand-off to the workflow backend.
#[derive(Debug)]
pub struct DispatchRequest {
    /// What is handed off.
    pub input: DispatchInput,
    /// The same as JSON text, as the backend takes it.
    pub document: String,
}

/// A [`DispatchRequest`] as specifications see it.
pub struct DispatchRequestView {
    pub input: DispatchInputView,
    pub document: Seq<char>,
}

impl View for DispatchRequest {
    type V = DispatchRequestView;

    open spec fn view(&self) -> DispatchRequestView {
        DispatchRequestView { input: self.input@, document: self.document@ }
    }
}

/// Where a request stands after [`receive`].
#[derive(Debug)]
pub enum Step {
    /// The request is answered; the backend is not called.
    Reply(Reply),
    /// The backend is to be called once with this, and its answer given to
    /// [`complete`].
    Dispatch(DispatchRequest),
}

/// A [`Step`] as specifications see it.
pub enum StepView {
    Reply(Reply),
    Dispatch(DispatchRequestView),
}

impl View for Step {
    type V = StepView;

    open spec fn view(&self) -> StepView {
        match self {
            Step::Reply(r) => StepView::Reply(*r),
            Step::Dispatch(request) => StepView::Dispatch(request@),
        }
    }
}

/// The step that a hand-off leads to, given its document. A hand-off without
/// a document cannot be made and counts as failed.
pub open spec fn step_of_hand_off(input: DispatchInputView, document: Option<Seq<char>>) -> StepView {
    match document {
        Some(text) => StepView::Dispatch(DispatchRequestView { input, document: text }),
        None => StepView::Reply(reply_for(DispatchOutcome::DispatchFailed)),
    }
}

/// The step that a decision leads to.
pub open spec fn step_of_decision(action: ActionView) -> StepView {
    match action {
        ActionView::Answer(outcome) => StepView::Reply(reply_for(outcome)),
        ActionView::Dispatch(input) => step_of_hand_off(input, document(input)),
    }
}

/// The step that an authentic body leads to, given its classification.
pub open spec fn step_of_classified(classified: Result<InteractionView, ParseError>) -> StepView {
    match classified {
        Err(e) => StepView::Reply(reply_for(DispatchOutcome::Rejected(Rejection::Schema(e)))),
        Ok(interaction) => step_of_decision(decision(interaction)),
    }
}

/// The step that a request leads to, given its verification and the
/// classification of its body. The body counts only where the request is
/// authentic.
pub open spec fn step_of(
    verified: Result<(), VerificationError>,
    classified: Result<InteractionView, ParseError>,
) -> StepView {
    match verified {
        Err(e) => StepView::Reply(
            reply_for(DispatchOutcome::Rejected(Rejection::Authentication(e))),
        ),
        Ok(_) => step_of_classified(classified),
    }
}

/// The classification of a body.
pub open spec fn classified(body: Seq<u8>) -> Result<InteractionView, ParseError> {
    classification(json_lookup(body, event_pointers()))
}

/// The verification of a request under a key.
pub open spec fn verified(public_key: Seq<u8>, request: RawRequestView) -> Result<
    (),
    VerificationError,
> {
    verification(public_key, request.signature, request.timestamp, request.body)
}

/// The step that a request leads to under a key.
pub open spec fn received(public_key: Seq<u8>, request: RawRequestView) -> StepView {
    step_of(verified(public_key, request), classified(request.body))
}

/// Makes the hand-off ready, given its document as JSON text.
pub fn hand_off(input: DispatchInput, document: Option<String>) -> (step: Step)
    ensures
        step@ == step_of_hand_off(input@, text_view(document)),
{
    match document {
        Some(document) => Step::Dispatch(DispatchRequest { input, document }),
        None => Step::Reply(reply(DispatchOutcome::DispatchFailed)),
    }
}

/// Carries a decision out as far as it goes without the backend.
pub fn act(action: Action) -> (step: Step)
    ensures
        step@ == step_of_decision(action@),
{
    match action {
        Action::Answer(outcome) => Step::Reply(reply(outcome)),
        Action::Dispatch(input) => {
            let document: Option<String> = input.to_json();
            hand_off(input, document)
        },
    }
}

/// Handles the classification of an authentic body: a body that could not be
/// classified is rejected, any other is decided on.
pub fn handle_classified(classified: Result<Interaction, ParseError>) -> (step: Step)
    ensures
        step@ == step_of_classified(classified_view(classified)),
{
    match classified {
        Err(e) => Step::Reply(reply(DispatchOutcome::Rejected(Rejection::Schema(e)))),
        Ok(interaction) => act(decide(&interaction)),
    }
}

/// Takes a request as far as it goes without the workflow backend.
///
/// The request is verified first, on its raw bytes. Only the body of an
/// authentic request is read, classified and decided on.
pub fn receive(public_key: &PublicKey, request: &RawRequest) -> (step: Step)
    ensures
        step@ == received(public_key@, request@),
{
    let signature: Option<&str> = match &request.signature {
        Some(text) => Some(text.as_str()),
        None => None,
    };
    let timestamp: Option<&str> = match &request.timestamp {
        Some(text) => Some(text.as_str()),
        None => None,
    };
    match verify(public_key, signature, timestamp, request.body.as_slice()) {
        Err(e) => Step::Reply(reply(DispatchOutcome::Rejected(Rejection::Authentication(e)))),
        Ok(_) => handle_classified(classify(request.body.as_slice())),
    }
}

/// Turns the backend's answer to the one attempt into the reply.
pub fn complete(result: DispatchResult) -> (r: Reply)
    ensures
        r == reply_for(settlement(result)),
        r.status == STATUS_OK,
{
    reply(settle(result))
}

/// Nothing reaches the workflow backend from a request that did not pass
/// verification: whatever the key and the request, a hand-off is made only
/// for an authentic request whose body classified as a command or a component
/// interaction.
pub proof fn lemma_dispatch_only_if_authentic(public_key: Seq<u8>, request: RawRequestView)
    requires
        received(public_key, request) is Dispatch,
    ensures
        verified(public_key, request) is Ok,
        classified(request.body) matches Ok(interaction) && (interaction.kind
            == InteractionKind::Command || interaction.kind
            == InteractionKind::ComponentInteraction),
{
}

/// A request that fails verification is answered with a rejection that names
/// the failure, whatever its body holds.
pub proof fn lemma_unauthentic_is_rejected(
    public_key: Seq<u8>,
    request: RawRequestView,
    error: VerificationError,
)
    requires
        verified(public_key, request) == Err::<(), VerificationError>(error),
    ensures
        received(public_key, request) == StepView::Reply(
            reply_for(DispatchOutcome::Rejected(Rejection::Authentication(error))),
        ),
{
}

/// A ping is answered with exactly the pong shape, and no hand-off is made.
pub proof fn lemma_ping_is_acknowledged(interaction: InteractionView)
    requires
        interaction.kind == InteractionKind::Ping,
    ensures
        decision(interaction) == ActionView::Answer(DispatchOutcome::Acknowledged),
        step_of_classified(Ok(interaction)) == StepView::Reply(
            Reply {
                status: STATUS_OK,
                outcome: DispatchOutcome::Acknowledged,
                payload: ResponsePayload::Pong,
            },
        ),
        !(step_of_classified(Ok(interaction)) is Dispatch),
{
}

/// A command or a component interaction, the reserved liveness command
/// excepted, is handed off with its token and its channel, guild, application
/// and interaction identifiers as the event gave them; once the backend has
/// taken it, the reply is exactly the deferred shape.
pub proof fn lemma_dispatched_is_deferred(interaction: InteractionView, text: Seq<char>)
    requires
        interaction.kind == InteractionKind::Command || interaction.kind
            == InteractionKind::ComponentInteraction,
        !is_liveness_command(interaction),
        document(dispatch_input_of(interaction)) == Some(text),
    ensures
        step_of_classified(Ok(interaction)) matches StepView::Dispatch(request) && {
            &&& request.document == text
            &&& request.input.token == interaction.token
            &&& request.input.channel_id == interaction.channel_id
            &&& request.input.guild_id == interaction.guild_id
            &&& request.input.application_id == interaction.application_id
            &&& request.input.interaction_id == interaction.id
            &&& request.input.kind == interaction.kind
        },
        reply_for(settlement(DispatchResult::Accepted)) == (Reply {
            status: STATUS_OK,
            outcome: DispatchOutcome::DeferredAndDispatched,
            payload: ResponsePayload::Processing,
        }),
{
}

/// A hand-off that the backend refuses is answered with exactly the failure
/// shape, under status 200 and never an error status.
pub proof fn lemma_failed_dispatch_is_reported()
    ensures
        reply_for(settlement(DispatchResult::Failed)) == (Reply {
            status: STATUS_OK,
            outcome: DispatchOutcome::DispatchFailed,
            payload: ResponsePayload::ErrorProcessing,
        }),
        reply_for(settlement(DispatchResult::Failed)).status == 200,
{
}

/// An unknown kind is answered with exactly the unknown-kind shape, and no
/// hand-off is made.
pub proof fn lemma_unknown_kind_is_reported(interaction: InteractionView)
    requires
        interaction.kind == InteractionKind::Unknown,
    ensures
        decision(interaction) == ActionView::Answer(DispatchOutcome::UnknownKind),
        step_of_classified(Ok(interaction)) == StepView::Reply(
            Reply {
                status: STATUS_OK,
                outcome: DispatchOutcome::UnknownKind,
                payload: ResponsePayload::UnknownKind,
            },
        ),
        !(step_of_classified(Ok(interaction)) is Dispatch),
{
}

/// Every reply carries status 200, whatever the request.
pub proof fn lemma_every_reply_is_ok(public_key: Seq<u8>, request: RawRequestView)
    ensures
        received(public_key, request) matches StepView::Reply(r) ==> r.status == STATUS_OK,
{
}

} // verus!
