//! Events that a serial session reports to the host.

use vstd::prelude::*;
use crate::text::{decimal, decode_lossy, hex_dump, hex_encode, lossy_utf8, push_decimal};

verus! {

/// Topic under which serial events are published.
pub const SERIAL_EVENT_TOPIC: &'static str = "serial_assistant_event";

/// One event of a serial session: its kind (`status`, `error` or `data`), a
/// text, and for received data the hexadecimal dump of the bytes.
#[derive(Clone, Debug, PartialEq, Eq)]
pub struct SerialAssistantEvent {
    pub kind: String,
    pub text: String,
    pub hex: String,
}

/// The status text of a session that has just been opened.
pub open spec fn connected_text(port: Seq<char>, baud_rate: u32) -> Seq<char> {
    "serial connected: "@ + port + " @ "@ + decimal(baud_rate as nat)
}

/// The error text of a read that failed for good.
pub open spec fn read_failed_text(port: Seq<char>, detail: Seq<char>) -> Seq<char> {
    "serial read failed ("@ + port + "): "@ + detail
}

impl SerialAssistantEvent {
    /// Whether the event holds exactly these three texts.
    pub open spec fn holds(self, kind: Seq<char>, text: Seq<char>, hex: Seq<char>) -> bool {
        self.kind@ == kind && self.text@ == text && self.hex@ == hex
    }

    /// Whether the event reports `text` as a status.
    pub open spec fn is_status(self, text: Seq<char>) -> bool {
        self.holds("status"@, text, Seq::empty())
    }

    /// Whether the event reports `text` as an error.
    pub open spec fn is_error(self, text: Seq<char>) -> bool {
        self.holds("error"@, text, Seq::empty())
    }

    /// Whether the event reports the received `bytes`, rendered as `text`.
    pub open spec fn is_data(self, text: Seq<char>, bytes: Seq<u8>) -> bool {
        self.holds("data"@, text, hex_dump(bytes))
    }

    pub fn status(text: &str) -> (r: Self)
        ensures
            r.is_status(text@),
    {
        SerialAssistantEvent { kind: "status".to_owned(), text: text.to_owned(), hex: String::new() }
    }

    pub fn error(text: &str) -> (r: Self)
        ensures
            r.is_error(text@),
    {
        SerialAssistantEvent { kind: "error".to_owned(), text: text.to_owned(), hex: String::new() }
    }

    /// The data event for `bytes` whose text rendering is already at hand.
    pub fn rendered(text: String, bytes: &[u8]) -> (r: Self)
        ensures
            r.is_data(text@, bytes@),
    {
        SerialAssistantEvent { kind: "data".to_owned(), text, hex: hex_encode(bytes) }
    }

    /// The data event for received `bytes`: their lossy UTF-8 rendering and
    /// their hexadecimal dump.
    pub fn data(bytes: &[u8]) -> (r: Self)
        ensures
            r.is_data(lossy_utf8(bytes@), bytes@),
            vstd::utf8::valid_utf8(bytes@) ==> r.text@ == vstd::utf8::decode_utf8(bytes@),
    {
        let text = decode_lossy(bytes);
        Self::rendered(text, bytes)
    }

    /// The status event of a session that has just been opened.
    pub fn connected(port: &str, baud_rate: u32) -> (r: Self)
        ensures
            r.is_status(connected_text(port@, baud_rate)),
    {
        let mut text = "serial connected: ".to_owned();
        text.append(port);
        text.append(" @ ");
        push_decimal(&mut text, baud_rate);
        SerialAssistantEvent { kind: "status".to_owned(), text, hex: String::new() }
    }

    /// The status event of a session that has been closed.
    pub fn disconnected() -> (r: Self)
        ensures
            r.is_status("serial disconnected"@),
    {
        Self::status("serial disconnected")
    }

    /// The error event of a read that failed for good on `port`.
    pub fn read_failed(port: &str, detail: &str) -> (r: Self)
        ensures
            r.is_error(read_failed_text(port@, detail@)),
    {
        let mut text = "serial read failed (".to_owned();
        text.append(port);
        text.append("): ");
        text.append(detail);
        SerialAssistantEvent { kind: "error".to_owned(), text, hex: String::new() }
    }
}

} // verus!
