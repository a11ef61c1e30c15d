//! The decision that one request leads to: an immediate answer, or one
//! hand-off to the workflow backend.

use vstd::prelude::*;
use vstd::string::*;
use crate::interaction::{Interaction, InteractionKind, InteractionView, ParseError};
use crate::json::{entries_view, json_object, render_object, text_view, Field, FieldView};
use crate::signature::VerificationError;

verus! {

/// Why a request was turned away.
#[derive(Clone, Copy, Debug, PartialEq, Eq, Structural)]
pub enum Rejection {
    /// The request did not pass authentication.
    Authentication(VerificationError),
    /// The request is authentic, and its body could not be classified.
    Schema(ParseError),
}

/// How the handling of one request ended.
#[derive(Clone, Copy, Debug, PartialEq, Eq, Structural)]
pub enum DispatchOutcome {
    /// A liveness check of the platform, answered at once.
    Acknowledged,
    /// The reserved liveness command, answered at once.
    AnsweredDirectly,
    /// The backend took the hand-off; the work goes on outside the reply.
    DeferredAndDispatched,
    /// The backend refused the hand-off, or it could not be made.
    DispatchFailed,
    /// The request was turned away.
    Rejected(Rejection),
    /// A kind of interaction that the endpoint does not handle.
    UnknownKind,
}

/// What the workflow backend said to one attempt.
#[derive(Clone, Copy, Debug, PartialEq, Eq, Structural)]
pub enum DispatchResult {
    Accepted,
    Failed,
}

/// What is handed to the workflow backend for one interaction.
#[derive(Debug)]
pub struct DispatchInput {
    pub token: String,
    pub channel_id: Option<String>,
    pub guild_id: Option<String>,
    pub application_id: String,
    pub interaction_id: String,
    pub invoking_user_id: Option<String>,
    pub invoking_username: Option<String>,
    pub kind: InteractionKind,
    /// The interaction's data payload, as JSON text.
    pub data: Option<String>,
}

/// A [`DispatchInput`] as specifications see it.
pub struct DispatchInputView {
    pub token: Seq<char>,
    pub channel_id: Option<Seq<char>>,
    pub guild_id: Option<Seq<char>>,
    pub application_id: Seq<char>,
    pub interaction_id: Seq<char>,
    pub invoking_user_id: Option<Seq<char>>,
    pub invoking_username: Option<Seq<char>>,
    pub kind: InteractionKind,
    pub data: Option<Seq<char>>,
}

impl View for DispatchInput {
    type V = DispatchInputView;

    open spec fn view(&self) -> DispatchInputView {
        DispatchInputView {
            token: self.token@,
            channel_id: text_view(self.channel_id),
            guild_id: text_view(self.guild_id),
            application_id: self.application_id@,
            interaction_id: self.interaction_id@,
            invoking_user_id: text_view(self.invoking_user_id),
            invoking_username: text_view(self.invoking_username),
            kind: self.kind,
            data: text_view(self.data),
        }
    }
}

/// The next thing to do for a classified interaction.
#[derive(Debug)]
pub enum Action {
    /// Answer at once; nothing is handed off.
    Answer(DispatchOutcome),
    /// Hand the input to the workflow backend, once.
    Dispatch(DispatchInput),
}

/// An [`Action`] as specifications see it.
pub enum ActionView {
    Answer(DispatchOutcome),
    Dispatch(DispatchInputView),
}

impl View for Action {
    type V = ActionView;

    open spec fn view(&self) -> ActionView {
        match self {
            Action::Answer(outcome) => ActionView::Answer(*outcome),
            Action::Dispatch(input) => ActionView::Dispatch(input@),
        }
    }
}

/// The name of the command that is answered without a hand-off.
pub open spec fn liveness_command() -> Seq<char> {
    "ping"@
}

/// Whether the interaction is the reserved liveness command.
pub open spec fn is_liveness_command(interaction: InteractionView) -> bool {
    interaction.kind == InteractionKind::Command && interaction.command_name == Some(
        liveness_command(),
    )
}

/// What is handed off for an interaction: its identifying fields, its kind and
/// its data payload, each as the event gave it.
pub open spec fn dispatch_input_of(interaction: InteractionView) -> DispatchInputView {
    DispatchInputView {
        token: interaction.token,
        channel_id: interaction.channel_id,
        guild_id: interaction.guild_id,
        application_id: interaction.application_id,
        interaction_id: interaction.id,
        invoking_user_id: interaction.invoking_user_id,
        invoking_username: interaction.invoking_username,
        kind: interaction.kind,
        data: interaction.raw_data,
    }
}

/// The decision for each kind of interaction.
pub open spec fn decision(interaction: InteractionView) -> ActionView {
    match interaction.kind {
        InteractionKind::Ping => ActionView::Answer(DispatchOutcome::Acknowledged),
        InteractionKind::Unknown => ActionView::Answer(DispatchOutcome::UnknownKind),
        InteractionKind::Command => if is_liveness_command(interaction) {
            ActionView::Answer(DispatchOutcome::AnsweredDirectly)
        } else {
            ActionView::Dispatch(dispatch_input_of(interaction))
        },
        InteractionKind::ComponentInteraction => ActionView::Dispatch(
            dispatch_input_of(interaction),
        ),
    }
}

/// The outcome that the backend's answer leads to.
pub open spec fn settlement(result: DispatchResult) -> DispatchOutcome {
    match result {
        DispatchResult::Accepted => DispatchOutcome::DeferredAndDispatched,
        DispatchResult::Failed => DispatchOutcome::DispatchFailed,
    }
}

/// A copy of optional text.
pub fn copy_text(text: &Option<String>) -> (copy: Option<String>)
    ensures
        text_view(copy) == text_view(*text),
{
    match text {
        Some(s) => Some(s.clone()),
        None => None,
    }
}

/// Builds what is handed off for an interaction.
pub fn dispatch_input(interaction: &Interaction) -> (input: DispatchInput)
    ensures
        input@ == dispatch_input_of(interaction@),
{
    DispatchInput {
        token: interaction.token.clone(),
        channel_id: copy_text(&interaction.channel_id),
        guild_id: copy_text(&interaction.guild_id),
        application_id: interaction.application_id.clone(),
        interaction_id: interaction.id.clone(),
        invoking_user_id: copy_text(&interaction.invoking_user_id),
        invoking_username: copy_text(&interaction.invoking_username),
        kind: interaction.kind,
        data: copy_text(&interaction.raw_data),
    }
}

/// Whether the command's name is the reserved one.
fn names_liveness_command(name: &Option<String>) -> (b: bool)
    ensures
        b == (text_view(*name) == Some(liveness_command())),
{
    match name {
        Some(text) => {
            let reserved: String = String::from_str("ping");
            *text == reserved
        },
        None => false,
    }
}

/// Decides what to do for a classified interaction.
///
/// A ping is acknowledged and an unknown kind is reported, both at once. A
/// command or a component interaction is handed off, except the reserved
/// liveness command, which is answered at once.
pub fn decide(interaction: &Interaction) -> (action: Action)
    ensures
        action@ == decision(interaction@),
{
    match interaction.kind {
        InteractionKind::Ping => Action::Answer(DispatchOutcome::Acknowledged),
        InteractionKind::Unknown => Action::Answer(DispatchOutcome::UnknownKind),
        InteractionKind::Command => {
            if names_liveness_command(&interaction.command_name) {
                Action::Answer(DispatchOutcome::AnsweredDirectly)
            } else {
                Action::Dispatch(dispatch_input(interaction))
            }
        },
        InteractionKind::ComponentInteraction => Action::Dispatch(dispatch_input(interaction)),
    }
}

/// The JSON text that stands for an absent value.
pub open spec fn null_json() -> Seq<char> {
    "null"@
}

/// The type code under which a kind is handed off. An unknown kind has lost
/// its code and is handed off as `null`.
pub open spec fn kind_code(kind: InteractionKind) -> Seq<char> {
    match kind {
        InteractionKind::Ping => "1"@,
        InteractionKind::Command => "2"@,
        InteractionKind::ComponentInteraction => "3"@,
        InteractionKind::Unknown => null_json(),
    }
}

/// An entry whose value is a string where the text is there, `null` where not.
pub open spec fn optional_entry(name: Seq<char>, text: Option<Seq<char>>) -> (
    Seq<char>,
    FieldView,
) {
    match text {
        Some(content) => (name, FieldView::Text(content)),
        None => (name, FieldView::Raw(null_json())),
    }
}

/// An entry whose value is the given JSON text, `null` where there is none.
pub open spec fn raw_entry(name: Seq<char>, json: Option<Seq<char>>) -> (Seq<char>, FieldView) {
    match json {
        Some(text) => (name, FieldView::Raw(text)),
        None => (name, FieldView::Raw(null_json())),
    }
}

/// The entries of the document that is handed off, in order.
pub open spec fn document_entries(input: DispatchInputView) -> Seq<(Seq<char>, FieldView)> {
    seq![
        ("webhookToken"@, FieldView::Text(input.token)),
        optional_entry("channel"@, input.channel_id),
        optional_entry("guildId"@, input.guild_id),
        ("applicationId"@, FieldView::Text(input.application_id)),
        ("interactionId"@, FieldView::Text(input.interaction_id)),
        optional_entry("memberId"@, input.invoking_user_id),
        optional_entry("memberUsername"@, input.invoking_username),
        ("type"@, FieldView::Raw(kind_code(input.kind))),
        raw_entry("data"@, input.data),
    ]
}

/// The document that is handed off, as JSON text; nothing where the data
/// payload is not JSON.
pub open spec fn document(input: DispatchInputView) -> Option<Seq<char>> {
    json_object(document_entries(input))
}

fn text_entry(name: &str, text: &String) -> (entry: (String, Field))
    ensures
        (entry.0@, entry.1@) == (name@, FieldView::Text(text@)),
{
    (String::from_str(name), Field::Text(text.clone()))
}

fn entry_of_optional(name: &str, text: &Option<String>) -> (entry: (String, Field))
    ensures
        (entry.0@, entry.1@) == optional_entry(name@, text_view(*text)),
{
    match text {
        Some(content) => (String::from_str(name), Field::Text(content.clone())),
        None => (String::from_str(name), Field::Raw(String::from_str("null"))),
    }
}

fn entry_of_raw(name: &str, json: &Option<String>) -> (entry: (String, Field))
    ensures
        (entry.0@, entry.1@) == raw_entry(name@, text_view(*json)),
{
    match json {
        Some(text) => (String::from_str(name), Field::Raw(text.clone())),
        None => (String::from_str(name), Field::Raw(String::from_str("null"))),
    }
}

fn code_of_kind(kind: InteractionKind) -> (code: String)
    ensures
        code@ == kind_code(kind),
{
    match kind {
        InteractionKind::Ping => String::from_str("1"),
        InteractionKind::Command => String::from_str("2"),
        InteractionKind::ComponentInteraction => String::from_str("3"),
        InteractionKind::Unknown => String::from_str("null"),
    }
}

impl DispatchInput {
    /// The entries of the document, in order.
    pub fn entries(&self) -> (entries: Vec<(String, Field)>)
        ensures
            entries_view(entries@) == document_entries(self@),
    {
        let mut entries: Vec<(String, Field)> = Vec::new();
        entries.push(text_entry("webhookToken", &self.token));
        entries.push(entry_of_optional("channel", &self.channel_id));
        entries.push(entry_of_optional("guildId", &self.guild_id));
        entries.push(text_entry("applicationId", &self.application_id));
        entries.push(text_entry("interactionId", &self.interaction_id));
        entries.push(entry_of_optional("memberId", &self.invoking_user_id));
        entries.push(entry_of_optional("memberUsername", &self.invoking_username));
        entries.push((String::from_str("type"), Field::Raw(code_of_kind(self.kind))));
        entries.push(entry_of_raw("data", &self.data));
        assert(entries_view(entries@) =~= document_entries(self@));
        entries
    }

    /// The document as JSON text, for the workflow backend.
    pub fn to_json(&self) -> (text: Option<String>)
        ensures
            text_view(text) == document(self@),
    {
        let entries = self.entries();
        render_object(&entries)
    }
}

/// Turns the backend's answer to the one attempt into the outcome. A failure
/// is final: nothing is tried again.
pub fn settle(result: DispatchResult) -> (outcome: DispatchOutcome)
    ensures
        outcome == settlement(result),
{
    match result {
        DispatchResult::Accepted => DispatchOutcome::DeferredAndDispatched,
        DispatchResult::Failed => DispatchOutcome::DispatchFailed,
    }
}

} // verus!
