//! That a message takes one line: written as JSON it holds no line feed, so
//! the line feed that ends its line is the only one.

use vstd::prelude::*;
use vstd::string::*;
use crate::base64::base64_text;
use crate::model::{ParticipantDataView, ScreenInfoView};
use crate::permissions::{PermissionState, PermissionStatus};
use crate::socket::OutgoingMessageView;
use crate::socket::wire::{
    body_json, bool_text, connection_state_name, escaped_char, escaped_text, frame_format_name,
    hex_digit, json_string_literal, message_json, message_line, participant_json,
    permission_state_json, permission_status_name, role_name, screen_json, screens_json,
    thumbnail_json, type_field,
};
use crate::text::{decimal_text, signed_decimal_text};

verus! {

/// No character of `text` is a line feed.
pub open spec fn in_one_line(text: Seq<char>) -> bool {
    forall|i: int| 0 <= i < text.len() ==> text[i] != '\n'
}

/// Texts without a line feed are joined to a text without one.
proof fn lemma_joined()
    ensures
        forall|a: Seq<char>, b: Seq<char>|
            in_one_line(a) && in_one_line(b) ==> #[trigger] in_one_line(a + b),
        in_one_line(Seq::<char>::empty()),
{
    assert forall|a: Seq<char>, b: Seq<char>| in_one_line(a) && in_one_line(b) implies #[trigger] in_one_line(a + b) by {
        assert forall|i: int| 0 <= i < (a + b).len() implies (a + b)[i] != '\n' by {
            if i < a.len() {
                assert((a + b)[i] == a[i]);
            } else {
                assert((a + b)[i] == b[i - a.len()]);
            }
        }
    }
}

/// The field names and the punctuation between the values.
proof fn lemma_punctuation()
    ensures
        in_one_line(",\"thumbnail\":"@),
        in_one_line("{\"id\":"@),
        in_one_line(",\"name\":"@),
        in_one_line(",\"x\":"@),
        in_one_line(",\"y\":"@),
        in_one_line(",\"width\":"@),
        in_one_line(",\"height\":"@),
        in_one_line(",\"is_primary\":"@),
        in_one_line("}"@),
        in_one_line(","@),
        in_one_line(",\"is_local\":"@),
        in_one_line(",\"role\":\""@),
        in_one_line("\"}"@),
        in_one_line("{\"screen_recording\":\""@),
        in_one_line("\",\"microphone\":\""@),
        in_one_line("\",\"camera\":\""@),
        in_one_line("\",\"accessibility\":\""@),
        in_one_line(",\"screens\":["@),
        in_one_line("]"@),
        in_one_line(",\"participant\":"@),
        in_one_line(",\"participant_id\":"@),
        in_one_line(",\"state\":\""@),
        in_one_line("\""@),
        in_one_line(",\"sharer_id\":"@),
        in_one_line(",\"track_id\":"@),
        in_one_line(",\"timestamp\":"@),
        in_one_line(",\"format\":\""@),
        in_one_line("\",\"frame_data\":"@),
        in_one_line(",\"state\":"@),
        in_one_line(",\"code\":"@),
        in_one_line(",\"message\":"@),
        in_one_line("{\"type\":\""@),
{
    reveal_strlit(",\"thumbnail\":");
    reveal_strlit("{\"id\":");
    reveal_strlit(",\"name\":");
    reveal_strlit(",\"x\":");
    reveal_strlit(",\"y\":");
    reveal_strlit(",\"width\":");
    reveal_strlit(",\"height\":");
    reveal_strlit(",\"is_primary\":");
    reveal_strlit("}");
    reveal_strlit(",");
    reveal_strlit(",\"is_local\":");
    reveal_strlit(",\"role\":\"");
    reveal_strlit("\"}");
    reveal_strlit("{\"screen_recording\":\"");
    reveal_strlit("\",\"microphone\":\"");
    reveal_strlit("\",\"camera\":\"");
    reveal_strlit("\",\"accessibility\":\"");
    reveal_strlit(",\"screens\":[");
    reveal_strlit("]");
    reveal_strlit(",\"participant\":");
    reveal_strlit(",\"participant_id\":");
    reveal_strlit(",\"state\":\"");
    reveal_strlit("\"");
    reveal_strlit(",\"sharer_id\":");
    reveal_strlit(",\"track_id\":");
    reveal_strlit(",\"timestamp\":");
    reveal_strlit(",\"format\":\"");
    reveal_strlit("\",\"frame_data\":");
    reveal_strlit(",\"state\":");
    reveal_strlit(",\"code\":");
    reveal_strlit(",\"message\":");
    reveal_strlit("{\"type\":\"");
}

/// The names that stand for a value of an enumeration.
proof fn lemma_value_names()
    ensures
        in_one_line("true"@),
        in_one_line("false"@),
        in_one_line("disconnected"@),
        in_one_line("connecting"@),
        in_one_line("connected"@),
        in_one_line("reconnecting"@),
        in_one_line("jpeg"@),
        in_one_line("rgba"@),
        in_one_line("nv12"@),
        in_one_line("host"@),
        in_one_line("participant"@),
        in_one_line("granted"@),
        in_one_line("denied"@),
        in_one_line("not_determined"@),
        in_one_line("restricted"@),
        in_one_line("not_applicable"@),
{
    reveal_strlit("true");
    reveal_strlit("false");
    reveal_strlit("disconnected");
    reveal_strlit("connecting");
    reveal_strlit("connected");
    reveal_strlit("reconnecting");
    reveal_strlit("jpeg");
    reveal_strlit("rgba");
    reveal_strlit("nv12");
    reveal_strlit("host");
    reveal_strlit("participant");
    reveal_strlit("granted");
    reveal_strlit("denied");
    reveal_strlit("not_determined");
    reveal_strlit("restricted");
    reveal_strlit("not_applicable");
}

/// The values of the `"type"` field.
proof fn lemma_tags()
    ensures
        in_one_line("available_content"@),
        in_one_line("participant_joined"@),
        in_one_line("participant_left"@),
        in_one_line("connection_state_changed"@),
        in_one_line("screen_share_started"@),
        in_one_line("screen_share_stopped"@),
        in_one_line("video_frame"@),
        in_one_line("permission_state"@),
        in_one_line("pong"@),
        in_one_line("error"@),
{
    reveal_strlit("available_content");
    reveal_strlit("participant_joined");
    reveal_strlit("participant_left");
    reveal_strlit("connection_state_changed");
    reveal_strlit("screen_share_started");
    reveal_strlit("screen_share_stopped");
    reveal_strlit("video_frame");
    reveal_strlit("permission_state");
    reveal_strlit("pong");
    reveal_strlit("error");
}

/// A character is escaped without a line feed: the line feed itself becomes
/// a reverse solidus and the letter n.
proof fn lemma_escaped_char(c: char)
    ensures
        in_one_line(escaped_char(c)),
{
    let high = (c as u32) as int / 16;
    let low = (c as u32) as int % 16;
    assert(hex_digit(low) != '\n');
    if (c as u32) < 0x20 {
        assert(hex_digit(high) != '\n');
    }
}

proof fn lemma_escaped_text(text: Seq<char>)
    ensures
        in_one_line(escaped_text(text)),
    decreases text.len(),
{
    lemma_joined();
    if text.len() > 0 {
        lemma_escaped_text(text.drop_last());
        lemma_escaped_char(text.last());
    }
}

/// A JSON string literal holds no line feed, whatever the text.
pub proof fn lemma_literal_is_one_line(text: Seq<char>)
    ensures
        in_one_line(json_string_literal(text)),
{
    lemma_joined();
    lemma_escaped_text(text);
    assert(in_one_line(seq!['"']));
}

proof fn lemma_decimal(n: nat)
    ensures
        in_one_line(decimal_text(n)),
    decreases n,
{
    if n >= 10 {
        lemma_decimal(n / 10);
    }
}

proof fn lemma_signed_decimal(n: int)
    ensures
        in_one_line(signed_decimal_text(n)),
{
    lemma_joined();
    if n < 0 {
        lemma_decimal((-n) as nat);
        assert(in_one_line(seq!['-']));
    } else {
        lemma_decimal(n as nat);
    }
}

proof fn lemma_screen(screen: ScreenInfoView)
    ensures
        in_one_line(screen_json(screen)),
{
    lemma_joined();
    lemma_punctuation();
    lemma_value_names();
    lemma_literal_is_one_line(screen.id);
    lemma_literal_is_one_line(screen.name);
    lemma_signed_decimal(screen.x as int);
    lemma_signed_decimal(screen.y as int);
    lemma_decimal(screen.width as nat);
    lemma_decimal(screen.height as nat);
    if let Some(text) = screen.thumbnail {
        lemma_literal_is_one_line(text);
    }
    assert(in_one_line(thumbnail_json(screen.thumbnail)));
    assert(in_one_line(bool_text(screen.is_primary)));
}

proof fn lemma_screens(screens: Seq<ScreenInfoView>)
    ensures
        in_one_line(screens_json(screens)),
    decreases screens.len(),
{
    lemma_joined();
    lemma_punctuation();
    if screens.len() == 1 {
        lemma_screen(screens[0]);
    } else if screens.len() > 1 {
        lemma_screens(screens.drop_last());
        lemma_screen(screens.last());
    }
}

proof fn lemma_participant(participant: ParticipantDataView)
    ensures
        in_one_line(participant_json(participant)),
{
    lemma_joined();
    lemma_punctuation();
    lemma_value_names();
    lemma_literal_is_one_line(participant.id);
    lemma_literal_is_one_line(participant.name);
    assert(in_one_line(bool_text(participant.is_local)));
    assert(in_one_line(role_name(participant.role)));
}

proof fn lemma_permission_status(status: PermissionStatus)
    ensures
        in_one_line(permission_status_name(status)),
{
    lemma_value_names();
}

proof fn lemma_permission_state(state: PermissionState)
    ensures
        in_one_line(permission_state_json(state)),
{
    lemma_joined();
    lemma_punctuation();
    lemma_permission_status(state.screen_recording);
    lemma_permission_status(state.microphone);
    lemma_permission_status(state.camera);
    lemma_permission_status(state.accessibility);
}

proof fn lemma_body(message: OutgoingMessageView)
    ensures
        in_one_line(body_json(message)),
{
    lemma_joined();
    lemma_punctuation();
    lemma_value_names();
    match message {
        OutgoingMessageView::AvailableContent { screens } => {
            lemma_screens(screens);
        },
        OutgoingMessageView::ParticipantJoined { participant } => {
            lemma_participant(participant);
        },
        OutgoingMessageView::ParticipantLeft { participant_id } => {
            lemma_literal_is_one_line(participant_id);
        },
        OutgoingMessageView::ConnectionStateChanged { state } => {
            assert(in_one_line(connection_state_name(state)));
        },
        OutgoingMessageView::ScreenShareStarted { sharer_id } => {
            lemma_literal_is_one_line(sharer_id);
        },
        OutgoingMessageView::ScreenShareStopped => {},
        OutgoingMessageView::VideoFrame {
            participant_id,
            track_id,
            width,
            height,
            timestamp,
            format,
            frame_data,
        } => {
            lemma_literal_is_one_line(participant_id);
            lemma_literal_is_one_line(track_id);
            lemma_decimal(width as nat);
            lemma_decimal(height as nat);
            lemma_decimal(timestamp as nat);
            assert(in_one_line(frame_format_name(format)));
            lemma_literal_is_one_line(base64_text(frame_data));
        },
        OutgoingMessageView::PermissionState { state } => {
            lemma_permission_state(state);
        },
        OutgoingMessageView::Pong => {},
        OutgoingMessageView::Error { code, message } => {
            lemma_literal_is_one_line(code);
            lemma_literal_is_one_line(message);
        },
    }
}

/// Every message is written as one line: its JSON object holds no line
/// feed, and the line is that object and one line feed, which is therefore
/// the last character of the line and its only line feed.
pub proof fn lemma_message_is_one_line(message: OutgoingMessageView)
    ensures
        in_one_line(message_json(message)),
        message_line(message) == message_json(message).push('\n'),
        forall|i: int|
            0 <= i < message_line(message).len() ==> (message_line(message)[i] == '\n' <==> i
                == message_line(message).len() - 1),
{
    lemma_joined();
    lemma_punctuation();
    lemma_tags();
    lemma_body(message);
    assert(in_one_line(message.type_tag()));
    assert(in_one_line(type_field(message.type_tag())));
    assert(in_one_line(message_json(message)));
    reveal_strlit("\n");
    assert(message_line(message) =~= message_json(message).push('\n'));
}

} // verus!
