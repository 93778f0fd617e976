//! How outbound messages are written: one JSON object per line, the `"type"`
//! field first, the other fields in the order of their declaration.

use vstd::prelude::*;
use vstd::string::*;
use crate::base64::{base64_text, encode};
use crate::model::{
    ConnectionState, FrameFormat, ParticipantData, ParticipantDataView, ParticipantRole,
    ScreenInfo, ScreenInfoView,
};
use crate::permissions::{PermissionState, PermissionStatus};
use crate::text::{decimal_text, push_decimal, push_signed_decimal, signed_decimal_text};
use crate::socket::{OutgoingMessage, OutgoingMessageView};

verus! {

/// The lower-case hexadecimal digit for a value below sixteen.
pub open spec fn hex_digit(value: int) -> char {
    if value < 10 {
        (48 + value) as char
    } else {
        (87 + value) as char
    }
}

/// One character as it stands inside a JSON string: the quote, the reverse
/// solidus and the control characters below U+0020 as escapes, every other
/// character as itself.
pub open spec fn escaped_char(c: char) -> Seq<char> {
    if c == '"' {
        seq!['\\', '"']
    } else if c == '\\' {
        seq!['\\', '\\']
    } else if c == '\u{8}' {
        seq!['\\', 'b']
    } else if c == '\t' {
        seq!['\\', 't']
    } else if c == '\n' {
        seq!['\\', 'n']
    } else if c == '\u{c}' {
        seq!['\\', 'f']
    } else if c == '\r' {
        seq!['\\', 'r']
    } else if (c as u32) < 0x20 {
        seq!['\\', 'u', '0', '0', hex_digit((c as u32) as int / 16), hex_digit((c as u32) as int % 16)]
    } else {
        seq![c]
    }
}

/// A text as it stands inside a JSON string.
pub open spec fn escaped_text(text: Seq<char>) -> Seq<char>
    decreases text.len(),
{
    if text.len() == 0 {
        Seq::empty()
    } else {
        escaped_text(text.drop_last()) + escaped_char(text.last())
    }
}

/// The JSON string literal that stands for `text`: the escaped text between
/// double quotes.
pub open spec fn json_string_literal(text: Seq<char>) -> Seq<char> {
    seq!['"'] + escaped_text(text) + seq!['"']
}

/// `serde_json::to_string` on a string slice: the JSON string literal for
/// `text`. The crate writes a quote, then each character as itself or, for
/// the quote, the reverse solidus and the control characters below U+0020,
/// as its escape, then a quote. Writing a string into memory cannot fail, so
/// the error arm is never taken.
#[verifier::external_body]
pub(crate) fn quote(text: &str) -> (literal: String)
    ensures
        literal@ == json_string_literal(text@),
{
    match serde_json::to_string(text) {
        Ok(literal) => literal,
        Err(_) => String::new(),
    }
}

/// Appends the JSON string literal for `text` to `out`.
pub fn push_quoted(out: &mut String, text: &str)
    ensures
        final(out)@ == old(out)@ + json_string_literal(text@),
{
    let literal = quote(text);
    out.append(literal.as_str());
}


pub open spec fn bool_text(b: bool) -> Seq<char> {
    if b {
        "true"@
    } else {
        "false"@
    }
}

pub open spec fn connection_state_name(state: ConnectionState) -> Seq<char> {
    match state {
        ConnectionState::Disconnected => "disconnected"@,
        ConnectionState::Connecting => "connecting"@,
        ConnectionState::Connected => "connected"@,
        ConnectionState::Reconnecting => "reconnecting"@,
    }
}

pub open spec fn frame_format_name(format: FrameFormat) -> Seq<char> {
    match format {
        FrameFormat::Jpeg => "jpeg"@,
        FrameFormat::Rgba => "rgba"@,
        FrameFormat::Nv12 => "nv12"@,
    }
}

pub open spec fn role_name(role: ParticipantRole) -> Seq<char> {
    match role {
        ParticipantRole::Host => "host"@,
        ParticipantRole::Participant => "participant"@,
    }
}

pub open spec fn permission_status_name(status: PermissionStatus) -> Seq<char> {
    match status {
        PermissionStatus::Granted => "granted"@,
        PermissionStatus::Denied => "denied"@,
        PermissionStatus::NotDetermined => "not_determined"@,
        PermissionStatus::Restricted => "restricted"@,
        PermissionStatus::NotApplicable => "not_applicable"@,
    }
}

/// The thumbnail field of a screen: left out where there is no thumbnail.
pub open spec fn thumbnail_json(thumbnail: Option<Seq<char>>) -> Seq<char> {
    match thumbnail {
        Some(text) => ",\"thumbnail\":"@ + json_string_literal(text),
        None => Seq::empty(),
    }
}

/// One screen as a JSON object.
pub open spec fn screen_json(screen: ScreenInfoView) -> Seq<char> {
    "{\"id\":"@ + json_string_literal(screen.id) + ",\"name\":"@ + json_string_literal(screen.name)
        + ",\"x\":"@ + signed_decimal_text(screen.x as int) + ",\"y\":"@ + signed_decimal_text(
        screen.y as int,
    ) + ",\"width\":"@ + decimal_text(screen.width as nat) + ",\"height\":"@ + decimal_text(
        screen.height as nat,
    ) + ",\"is_primary\":"@ + bool_text(screen.is_primary) + thumbnail_json(screen.thumbnail)
        + "}"@
}

/// Screens as the elements of a JSON array, separated by commas.
pub open spec fn screens_json(screens: Seq<ScreenInfoView>) -> Seq<char>
    decreases screens.len(),
{
    if screens.len() == 0 {
        Seq::empty()
    } else if screens.len() == 1 {
        screen_json(screens[0])
    } else {
        screens_json(screens.drop_last()) + ","@ + screen_json(screens.last())
    }
}

/// One participant as a JSON object.
pub open spec fn participant_json(participant: ParticipantDataView) -> Seq<char> {
    "{\"id\":"@ + json_string_literal(participant.id) + ",\"name\":"@ + json_string_literal(
        participant.name,
    ) + ",\"is_local\":"@ + bool_text(participant.is_local) + ",\"role\":\""@ + role_name(
        participant.role,
    ) + "\"}"@
}

/// The permissions as a JSON object.
pub open spec fn permission_state_json(state: PermissionState) -> Seq<char> {
    "{\"screen_recording\":\""@ + permission_status_name(state.screen_recording)
        + "\",\"microphone\":\""@ + permission_status_name(state.microphone)
        + "\",\"camera\":\""@ + permission_status_name(state.camera)
        + "\",\"accessibility\":\""@ + permission_status_name(state.accessibility) + "\"}"@
}

/// The fields of a message that follow its `"type"` field.
pub open spec fn body_json(message: OutgoingMessageView) -> Seq<char> {
    match message {
        OutgoingMessageView::AvailableContent { screens } => ",\"screens\":["@ + screens_json(
            screens,
        ) + "]"@,
        OutgoingMessageView::ParticipantJoined { participant } => ",\"participant\":"@
            + participant_json(participant),
        OutgoingMessageView::ParticipantLeft { participant_id } => ",\"participant_id\":"@
            + json_string_literal(participant_id),
        OutgoingMessageView::ConnectionStateChanged { state } => ",\"state\":\""@
            + connection_state_name(state) + "\""@,
        OutgoingMessageView::ScreenShareStarted { sharer_id } => ",\"sharer_id\":"@
            + json_string_literal(sharer_id),
        OutgoingMessageView::ScreenShareStopped => Seq::empty(),
        OutgoingMessageView::VideoFrame {
            participant_id,
            track_id,
            width,
            height,
            timestamp,
            format,
            frame_data,
        } => ",\"participant_id\":"@ + json_string_literal(participant_id) + ",\"track_id\":"@
            + json_string_literal(track_id) + ",\"width\":"@ + decimal_text(width as nat)
            + ",\"height\":"@ + decimal_text(height as nat) + ",\"timestamp\":"@ + decimal_text(
            timestamp as nat,
        ) + ",\"format\":\""@ + frame_format_name(format) + "\",\"frame_data\":"@
            + json_string_literal(base64_text(frame_data)),
        OutgoingMessageView::PermissionState { state } => ",\"state\":"@ + permission_state_json(
            state,
        ),
        OutgoingMessageView::Pong => Seq::empty(),
        OutgoingMessageView::Error { code, message } => ",\"code\":"@ + json_string_literal(code)
            + ",\"message\":"@ + json_string_literal(message),
    }
}

/// The `"type"` field with which every message begins.
pub open spec fn type_field(tag: Seq<char>) -> Seq<char> {
    "{\"type\":\""@ + tag + "\""@
}

/// A message as a JSON object.
pub open spec fn message_json(message: OutgoingMessageView) -> Seq<char> {
    type_field(message.type_tag()) + body_json(message) + "}"@
}

/// A message as it travels: its JSON object and a line feed.
pub open spec fn message_line(message: OutgoingMessageView) -> Seq<char> {
    message_json(message) + "\n"@
}

fn bool_name(b: bool) -> (name: &'static str)
    ensures
        name@ == bool_text(b),
{
    if b {
        "true"
    } else {
        "false"
    }
}

fn connection_state_str(state: ConnectionState) -> (name: &'static str)
    ensures
        name@ == connection_state_name(state),
{
    match state {
        ConnectionState::Disconnected => "disconnected",
        ConnectionState::Connecting => "connecting",
        ConnectionState::Connected => "connected",
        ConnectionState::Reconnecting => "reconnecting",
    }
}

fn frame_format_str(format: FrameFormat) -> (name: &'static str)
    ensures
        name@ == frame_format_name(format),
{
    match format {
        FrameFormat::Jpeg => "jpeg",
        FrameFormat::Rgba => "rgba",
        FrameFormat::Nv12 => "nv12",
    }
}

fn role_str(role: ParticipantRole) -> (name: &'static str)
    ensures
        name@ == role_name(role),
{
    match role {
        ParticipantRole::Host => "host",
        ParticipantRole::Participant => "participant",
    }
}

fn permission_status_str(status: PermissionStatus) -> (name: &'static str)
    ensures
        name@ == permission_status_name(status),
{
    match status {
        PermissionStatus::Granted => "granted",
        PermissionStatus::Denied => "denied",
        PermissionStatus::NotDetermined => "not_determined",
        PermissionStatus::Restricted => "restricted",
        PermissionStatus::NotApplicable => "not_applicable",
    }
}

impl ScreenInfo {
    /// The screen as a JSON object.
    pub fn to_json(&self) -> (json: String)
        ensures
            json@ == screen_json(self@),
    {
        let mut out = String::new();
        out.append("{\"id\":");
        push_quoted(&mut out, self.id.as_str());
        out.append(",\"name\":");
        push_quoted(&mut out, self.name.as_str());
        out.append(",\"x\":");
        push_signed_decimal(&mut out, self.x as i64);
        out.append(",\"y\":");
        push_signed_decimal(&mut out, self.y as i64);
        out.append(",\"width\":");
        push_decimal(&mut out, self.width as u64);
        out.append(",\"height\":");
        push_decimal(&mut out, self.height as u64);
        out.append(",\"is_primary\":");
        out.append(bool_name(self.is_primary));
        match &self.thumbnail {
            Some(text) => {
                let ghost before = out@;
                out.append(",\"thumbnail\":");
                push_quoted(&mut out, text.as_str());
                assert(out@ =~= before + thumbnail_json(self@.thumbnail));
            },
            None => {
                assert(out@ =~= out@ + thumbnail_json(self@.thumbnail));
            },
        }
        out.append("}");
        assert(out@ =~= screen_json(self@));
        out
    }
}

/// The screens as the elements of a JSON array.
fn screens_to_json(screens: &Vec<ScreenInfo>) -> (json: String)
    ensures
        json@ == screens_json(screens.deep_view()),
{
    let mut out = String::new();
    let mut i: usize = 0;
    let ghost views = screens.deep_view();
    assert(views.take(0) =~= Seq::<ScreenInfoView>::empty());
    while i < screens.len()
        invariant
            i <= screens.len(),
            views == screens.deep_view(),
            out@ == screens_json(views.take(i as int)),
        decreases screens.len() - i,
    {
        let ghost before = out@;
        let ghost seen = views.take(i as int);
        let ghost next = views.take(i + 1);
        proof {
            assert(next.drop_last() =~= seen);
            assert(next.last() == screens[i as int]@);
        }
        if i > 0 {
            out.append(",");
        }
        let piece = screens[i].to_json();
        out.append(piece.as_str());
        proof {
            if i > 0 {
                assert(out@ =~= screens_json(seen) + ","@ + screen_json(next.last()));
            } else {
                assert(next[0] == next.last());
                assert(out@ =~= screen_json(next[0]));
            }
        }
        i = i + 1;
    }
    assert(views.take(i as int) =~= views);
    out
}

impl ParticipantData {
    /// The participant as a JSON object.
    pub fn to_json(&self) -> (json: String)
        ensures
            json@ == participant_json(self@),
    {
        let mut out = String::new();
        out.append("{\"id\":");
        push_quoted(&mut out, self.id.as_str());
        out.append(",\"name\":");
        push_quoted(&mut out, self.name.as_str());
        out.append(",\"is_local\":");
        out.append(bool_name(self.is_local));
        out.append(",\"role\":\"");
        out.append(role_str(self.role));
        out.append("\"}");
        assert(out@ =~= participant_json(self@));
        out
    }
}

impl PermissionState {
    /// The permissions as a JSON object.
    pub fn to_json(&self) -> (json: String)
        ensures
            json@ == permission_state_json(*self),
    {
        let mut out = String::new();
        out.append("{\"screen_recording\":\"");
        out.append(permission_status_str(self.screen_recording));
        out.append("\",\"microphone\":\"");
        out.append(permission_status_str(self.microphone));
        out.append("\",\"camera\":\"");
        out.append(permission_status_str(self.camera));
        out.append("\",\"accessibility\":\"");
        out.append(permission_status_str(self.accessibility));
        out.append("\"}");
        assert(out@ =~= permission_state_json(*self));
        out
    }
}

impl OutgoingMessage {
    /// The fields of the message that follow its `"type"` field.
    fn body_to_json(&self) -> (json: String)
        ensures
            json@ == body_json(self@),
    {
        let mut out = String::new();
        match self {
            OutgoingMessage::AvailableContent { screens } => {
                out.append(",\"screens\":[");
                let list = screens_to_json(screens);
                out.append(list.as_str());
                out.append("]");
                assert(out@ =~= body_json(self@));
            },
            OutgoingMessage::ParticipantJoined { participant } => {
                out.append(",\"participant\":");
                let object = participant.to_json();
                out.append(object.as_str());
                assert(out@ =~= body_json(self@));
            },
            OutgoingMessage::ParticipantLeft { participant_id } => {
                out.append(",\"participant_id\":");
                push_quoted(&mut out, participant_id.as_str());
                assert(out@ =~= body_json(self@));
            },
            OutgoingMessage::ConnectionStateChanged { state } => {
                out.append(",\"state\":\"");
                out.append(connection_state_str(*state));
                out.append("\"");
                assert(out@ =~= body_json(self@));
            },
            OutgoingMessage::ScreenShareStarted { sharer_id } => {
                out.append(",\"sharer_id\":");
                push_quoted(&mut out, sharer_id.as_str());
                assert(out@ =~= body_json(self@));
            },
            OutgoingMessage::ScreenShareStopped => {
                assert(out@ =~= body_json(self@));
            },
            OutgoingMessage::VideoFrame {
                participant_id,
                track_id,
                width,
                height,
                timestamp,
                format,
                frame_data,
            } => {
                let encoded = encode(frame_data.as_slice());
                out.append(",\"participant_id\":");
                push_quoted(&mut out, participant_id.as_str());
                out.append(",\"track_id\":");
                push_quoted(&mut out, track_id.as_str());
                out.append(",\"width\":");
                push_decimal(&mut out, *width as u64);
                out.append(",\"height\":");
                push_decimal(&mut out, *height as u64);
                out.append(",\"timestamp\":");
                push_decimal(&mut out, *timestamp);
                out.append(",\"format\":\"");
                out.append(frame_format_str(*format));
                out.append("\",\"frame_data\":");
                push_quoted(&mut out, encoded.as_str());
                assert(out@ =~= body_json(self@));
            },
            OutgoingMessage::PermissionState { state } => {
                out.append(",\"state\":");
                let object = state.to_json();
                out.append(object.as_str());
                assert(out@ =~= body_json(self@));
            },
            OutgoingMessage::Pong => {
                assert(out@ =~= body_json(self@));
            },
            OutgoingMessage::Error { code, message } => {
                out.append(",\"code\":");
                push_quoted(&mut out, code.as_str());
                out.append(",\"message\":");
                push_quoted(&mut out, message.as_str());
                assert(out@ =~= body_json(self@));
            },
        }
        out
    }

    /// The message as a JSON object.
    pub fn to_json(&self) -> (json: String)
        ensures
            json@ == message_json(self@),
    {
        let body = self.body_to_json();
        let mut out = String::new();
        out.append("{\"type\":\"");
        out.append(self.type_tag());
        out.append("\"");
        out.append(body.as_str());
        out.append("}");
        assert(out@ =~= message_json(self@));
        out
    }

    /// The message as it travels: its JSON object and a line feed.
    pub fn to_line(&self) -> (line: String)
        ensures
            line@ == message_line(self@),
    {
        let mut out = self.to_json();
        out.append("\n");
        out
    }
}

/// Every message is written with its `"type"` field first, and the value of
/// that field is the tag of the message.
pub proof fn lemma_type_field_comes_first(message: OutgoingMessageView)
    ensures
        message_json(message) == type_field(message.type_tag()) + (body_json(message) + "}"@),
        message_line(message) == type_field(message.type_tag()) + (body_json(message) + "}"@
            + "\n"@),
        type_field(message.type_tag()).is_prefix_of(message_json(message)),
        type_field(message.type_tag()).is_prefix_of(message_line(message)),
{
    let field = type_field(message.type_tag());
    let rest = body_json(message) + "}"@;
    assert(message_json(message) =~= field + rest);
    assert(message_line(message) =~= field + (rest + "\n"@));
    assert(field.is_prefix_of(field + rest)) by {
        assert((field + rest).subrange(0, field.len() as int) =~= field);
    }
    assert(field.is_prefix_of(field + (rest + "\n"@))) by {
        assert((field + (rest + "\n"@)).subrange(0, field.len() as int) =~= field);
    }
}

} // verus!
