//! Classification of an authenticated body: which kind of interaction it
//! carries, and the few fields that a hand-off needs.

use vstd::prelude::*;
use vstd::string::*;
use crate::json::{
    fields_view, json_lookup, lookup, optional_view, pointers_view, text_view, Field, FieldView,
};

verus! {

/// The kinds of interaction that the endpoint tells apart.
#[derive(Clone, Copy, Debug, PartialEq, Eq, Structural)]
pub enum InteractionKind {
    /// The platform's liveness check.
    Ping,
    /// An application command.
    Command,
    /// An interaction with a message component.
    ComponentInteraction,
    /// Any kind that the endpoint does not handle.
    Unknown,
}

/// Why a body could not be classified.
#[derive(Clone, Copy, Debug, PartialEq, Eq, Structural)]
pub enum ParseError {
    /// The body is not a JSON document.
    NotJson,
    /// The document has no kind: no `type`, or one that is no whole number.
    NoKind,
    /// The document lacks its id, its application id or its token.
    MissingField,
}

/// An interaction as parsed from an authenticated body.
#[derive(Debug)]
pub struct Interaction {
    pub kind: InteractionKind,
    pub id: String,
    pub application_id: String,
    pub token: String,
    pub channel_id: Option<String>,
    pub guild_id: Option<String>,
    pub invoking_user_id: Option<String>,
    pub invoking_username: Option<String>,
    /// The name of the command, where the data payload has one.
    pub command_name: Option<String>,
    /// The data payload, as JSON text.
    pub raw_data: Option<String>,
}

/// An [`Interaction`] as specifications see it.
pub struct InteractionView {
    pub kind: InteractionKind,
    pub id: Seq<char>,
    pub application_id: Seq<char>,
    pub token: Seq<char>,
    pub channel_id: Option<Seq<char>>,
    pub guild_id: Option<Seq<char>>,
    pub invoking_user_id: Option<Seq<char>>,
    pub invoking_username: Option<Seq<char>>,
    pub command_name: Option<Seq<char>>,
    pub raw_data: Option<Seq<char>>,
}

impl View for Interaction {
    type V = InteractionView;

    open spec fn view(&self) -> InteractionView {
        InteractionView {
            kind: self.kind,
            id: self.id@,
            application_id: self.application_id@,
            token: self.token@,
            channel_id: text_view(self.channel_id),
            guild_id: text_view(self.guild_id),
            invoking_user_id: text_view(self.invoking_user_id),
            invoking_username: text_view(self.invoking_username),
            command_name: text_view(self.command_name),
            raw_data: text_view(self.raw_data),
        }
    }
}

/// The result of classification as specifications see it.
pub open spec fn classified_view(r: Result<Interaction, ParseError>) -> Result<
    InteractionView,
    ParseError,
> {
    match r {
        Ok(interaction) => Ok(interaction@),
        Err(e) => Err(e),
    }
}

/// Where the fields of an event stand in its document, in the order in which
/// [`classify_fields`] takes them.
pub open spec fn event_pointers() -> Seq<Seq<char>> {
    seq![
        "/type"@,
        "/id"@,
        "/application_id"@,
        "/token"@,
        "/channel_id"@,
        "/guild_id"@,
        "/member/user/id"@,
        "/member/user/username"@,
        "/data/name"@,
        "/data"@,
    ]
}

/// A decimal digit.
pub open spec fn is_digit(c: char) -> bool {
    '0' <= c <= '9'
}

/// A non-empty run of decimal digits: the text of a whole number.
pub open spec fn is_whole_number(text: Seq<char>) -> bool {
    &&& text.len() > 0
    &&& forall|i: int| 0 <= i < text.len() ==> is_digit(#[trigger] text[i])
}

/// Whether `code` is the single digit `digit`.
pub open spec fn is_code(code: Seq<char>, digit: char) -> bool {
    code.len() == 1 && code[0] == digit
}

/// The kind that a type code stands for. Codes that the endpoint does not
/// know are kept as [`InteractionKind::Unknown`], so that kinds added later do
/// not fail classification.
pub open spec fn kind_of_code(code: Seq<char>) -> InteractionKind {
    if is_code(code, '1') {
        InteractionKind::Ping
    } else if is_code(code, '2') {
        InteractionKind::Command
    } else if is_code(code, '3') {
        InteractionKind::ComponentInteraction
    } else {
        InteractionKind::Unknown
    }
}

/// The kind that a `type` field gives, if it gives one.
pub open spec fn kind_of_field(field: Option<FieldView>) -> Option<InteractionKind> {
    match field {
        Some(FieldView::Raw(code)) => if is_whole_number(code) {
            Some(kind_of_code(code))
        } else {
            None
        },
        _ => None,
    }
}

/// The content of a field that is a string.
pub open spec fn text_of_field(field: Option<FieldView>) -> Option<Seq<char>> {
    match field {
        Some(FieldView::Text(text)) => Some(text),
        _ => None,
    }
}

/// The JSON text of a field that is not a string.
pub open spec fn raw_of_field(field: Option<FieldView>) -> Option<Seq<char>> {
    match field {
        Some(FieldView::Raw(json)) => Some(json),
        _ => None,
    }
}

/// What the fields found at [`event_pointers`] classify as.
pub open spec fn classification(found: Option<Seq<Option<FieldView>>>) -> Result<
    InteractionView,
    ParseError,
> {
    match found {
        None => Err(ParseError::NotJson),
        Some(fields) => if fields.len() != 10 || kind_of_field(fields[0]) is None {
            Err(ParseError::NoKind)
        } else if text_of_field(fields[1]) is None || text_of_field(fields[2]) is None
            || text_of_field(fields[3]) is None {
            Err(ParseError::MissingField)
        } else {
            Ok(
                InteractionView {
                    kind: kind_of_field(fields[0])->0,
                    id: text_of_field(fields[1])->0,
                    application_id: text_of_field(fields[2])->0,
                    token: text_of_field(fields[3])->0,
                    channel_id: text_of_field(fields[4]),
                    guild_id: text_of_field(fields[5]),
                    invoking_user_id: text_of_field(fields[6]),
                    invoking_username: text_of_field(fields[7]),
                    command_name: text_of_field(fields[8]),
                    raw_data: raw_of_field(fields[9]),
                },
            )
        },
    }
}

/// The kind that a type code stands for.
pub fn kind_from_code(code: &str) -> (kind: Option<InteractionKind>)
    ensures
        kind == if is_whole_number(code@) {
            Some(kind_of_code(code@))
        } else {
            None::<InteractionKind>
        },
{
    let n: usize = code.unicode_len();
    if n == 0 {
        return None;
    }
    let mut i: usize = 0;
    while i < n
        invariant
            n == code@.len(),
            i <= n,
            forall|k: int| 0 <= k < i ==> is_digit(#[trigger] code@[k]),
        decreases n - i,
    {
        let c: char = code.get_char(i);
        if !('0' <= c && c <= '9') {
            return None;
        }
        i = i + 1;
    }
    let first: char = code.get_char(0);
    if n == 1 && first == '1' {
        Some(InteractionKind::Ping)
    } else if n == 1 && first == '2' {
        Some(InteractionKind::Command)
    } else if n == 1 && first == '3' {
        Some(InteractionKind::ComponentInteraction)
    } else {
        Some(InteractionKind::Unknown)
    }
}

/// The kind that a `type` field gives.
fn kind_from_field(field: &Option<Field>) -> (kind: Option<InteractionKind>)
    ensures
        kind == kind_of_field(optional_view(*field)),
{
    match field {
        Some(Field::Raw(code)) => kind_from_code(code.as_str()),
        _ => None,
    }
}

/// The content of a field that is a string.
fn text_from_field(field: &Option<Field>) -> (text: Option<String>)
    ensures
        text_view(text) == text_of_field(optional_view(*field)),
{
    match field {
        Some(Field::Text(text)) => Some(text.clone()),
        _ => None,
    }
}

/// The JSON text of a field that is not a string.
fn raw_from_field(field: &Option<Field>) -> (json: Option<String>)
    ensures
        text_view(json) == raw_of_field(optional_view(*field)),
{
    match field {
        Some(Field::Raw(json)) => Some(json.clone()),
        _ => None,
    }
}

/// Classifies what was found of a parsed body at [`event_pointers`].
///
/// The kind is required, and so are the interaction's id, its application id
/// and its token, which the platform sends with every kind. The other fields
/// are kept where the document has them.
pub fn classify_fields(found: Option<Vec<Option<Field>>>) -> (r: Result<Interaction, ParseError>)
    ensures
        classified_view(r) == classification(
            match found {
                Some(fields) => Some(fields_view(fields@)),
                None => None,
            },
        ),
{
    let fields: Vec<Option<Field>> = match found {
        Some(fields) => fields,
        None => {
            return Err(ParseError::NotJson);
        },
    };
    if fields.len() != 10 {
        return Err(ParseError::NoKind);
    }
    let kind: InteractionKind = match kind_from_field(&fields[0]) {
        Some(kind) => kind,
        None => {
            return Err(ParseError::NoKind);
        },
    };
    let id = text_from_field(&fields[1]);
    let application_id = text_from_field(&fields[2]);
    let token = text_from_field(&fields[3]);
    match (id, application_id, token) {
        (Some(id), Some(application_id), Some(token)) => Ok(
            Interaction {
                kind,
                id,
                application_id,
                token,
                channel_id: text_from_field(&fields[4]),
                guild_id: text_from_field(&fields[5]),
                invoking_user_id: text_from_field(&fields[6]),
                invoking_username: text_from_field(&fields[7]),
                command_name: text_from_field(&fields[8]),
                raw_data: raw_from_field(&fields[9]),
            },
        ),
        _ => Err(ParseError::MissingField),
    }
}

/// The pointers of [`event_pointers`].
fn pointers() -> (pointers: Vec<&'static str>)
    ensures
        pointers_view(pointers@) == event_pointers(),
{
    let pointers: Vec<&'static str> = vec![
        "/type",
        "/id",
        "/application_id",
        "/token",
        "/channel_id",
        "/guild_id",
        "/member/user/id",
        "/member/user/username",
        "/data/name",
        "/data",
    ];
    assert(pointers_view(pointers@) =~= event_pointers());
    pointers
}

/// Classifies an authenticated body.
///
/// Fails where the body is not JSON, where it has no whole number as its
/// `type`, and where its id, application id or token is missing.
pub fn classify(body: &[u8]) -> (r: Result<Interaction, ParseError>)
    ensures
        classified_view(r) == classification(json_lookup(body@, event_pointers())),
{
    let pointers = pointers();
    classify_fields(lookup(body, &pointers))
}

} // verus!
