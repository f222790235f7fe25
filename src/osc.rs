//! The outbound notification: a short text for the chat box, framed as an
//! OSC message. Sending the bytes is left to the caller.

use vstd::prelude::*;
use vstd::string::StringSliceAdditionalSpecFns;

verus! {

/// Longest text, in characters, that the chat box accepts.
pub const MESSAGE_MAX_LENGTH: usize = 144;

/// The OSC address that the text is sent to.
pub const MESSAGE_PATH: &'static str = "/chatbox/input";

#[verifier::external_type_specification]
#[verifier::external_body]
pub struct ExOscError(rosc::OscError);

/// An OSC string: its bytes, then one to four NUL bytes so that the length
/// is a multiple of four.
pub open spec fn osc_padded(b: Seq<u8>) -> Seq<u8> {
    b + Seq::new((4 - b.len() % 4) as nat, |i: int| 0u8)
}

/// The type tags of a message with a string and two booleans.
pub open spec fn chatbox_type_tags(immediate: bool, sound: bool) -> Seq<u8> {
    seq![
        ',' as u8,
        's' as u8,
        if immediate { 'T' as u8 } else { 'F' as u8 },
        if sound { 'T' as u8 } else { 'F' as u8 },
    ]
}

/// The encoding of an OSC message at `addr` with arguments: the string
/// `text`, then the booleans `immediate` and `sound` (which carry no data
/// beyond their type tags).
pub open spec fn chatbox_packet(addr: Seq<u8>, text: Seq<u8>, immediate: bool, sound: bool) -> Seq<
    u8,
> {
    osc_padded(addr) + osc_padded(chatbox_type_tags(immediate, sound)) + osc_padded(text)
}

/// Relies on `rosc::encoder::encode` for a message packet: it writes the
/// padded address, the padded type-tag string and the padded string
/// argument, and never fails when writing into a `Vec<u8>`.
#[verifier::external_body]
fn encode_message(addr: &str, text: &str, immediate: bool, sound: bool) -> (r: Result<
    Vec<u8>,
    rosc::OscError,
>)
    ensures
        r is Ok,
        r matches Ok(b) ==> b@ == chatbox_packet(addr.spec_bytes(), text.spec_bytes(), immediate, sound),
{
    let packet = rosc::OscPacket::Message(rosc::OscMessage {
        addr: addr.to_string(),
        args: vec![
            rosc::OscType::String(text.to_string()),
            rosc::OscType::Bool(immediate),
            rosc::OscType::Bool(sound),
        ],
    });
    rosc::encoder::encode(&packet)
}

/// Why a notification could not be prepared.
pub enum NotifyError {
    /// The text has more characters than the chat box accepts.
    TooLong { length: usize },
    /// The OSC encoder refused the message.
    Encode,
}

/// Frames `text` for the chat box: sent at once, without the notification
/// sound. Rejects a text longer than the chat box accepts.
pub fn encode_chatbox_message(text: &str) -> (r: Result<Vec<u8>, NotifyError>)
    ensures
        text@.len() > MESSAGE_MAX_LENGTH ==> (r matches Err(NotifyError::TooLong { length })
            && length == text@.len()),
        text@.len() <= MESSAGE_MAX_LENGTH ==> (r matches Ok(b) && b@ == chatbox_packet(
            MESSAGE_PATH.spec_bytes(),
            text.spec_bytes(),
            true,
            false,
        )),
{
    let length = text.unicode_len();
    if length > MESSAGE_MAX_LENGTH {
        return Err(NotifyError::TooLong { length });
    }
    match encode_message(MESSAGE_PATH, text, true, false) {
        Ok(bytes) => Ok(bytes),
        Err(_) => Err(NotifyError::Encode),
    }
}

} // verus!
