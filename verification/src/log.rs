//! The kinds of messages VapourSynth logs, and the handlers that receive them.
use vstd::prelude::*;
use crate::map::string_from_utf8;
use vstd::utf8::{valid_utf8, decode_utf8};

verus! {

/// The kind of a logged message.
#[derive(Debug, Clone, Copy, PartialEq, Eq, Structural)]
pub enum MessageType {
    Debug,
    Information,
    Warning,
    Critical,
    Fatal,
}

impl MessageType {
    /// The number VapourSynth uses for the kind.
    pub open spec fn spec_code(self) -> i32 {
        match self {
            MessageType::Debug => 0,
            MessageType::Information => 1,
            MessageType::Warning => 2,
            MessageType::Critical => 3,
            MessageType::Fatal => 4,
        }
    }

    /// The kind a number stands for; numbers that name no kind read as `Debug`.
    pub open spec fn spec_from_code(value: i32) -> MessageType {
        if value == 1 {
            MessageType::Information
        } else if value == 2 {
            MessageType::Warning
        } else if value == 3 {
            MessageType::Critical
        } else if value == 4 {
            MessageType::Fatal
        } else {
            MessageType::Debug
        }
    }

    /// The number VapourSynth uses for the kind.
    pub fn code(self) -> (r: i32)
        ensures
            r == self.spec_code(),
    {
        match self {
            MessageType::Debug => 0,
            MessageType::Information => 1,
            MessageType::Warning => 2,
            MessageType::Critical => 3,
            MessageType::Fatal => 4,
        }
    }

    /// The kind a number stands for; numbers that name no kind read as `Debug`.
    pub fn from_code(value: i32) -> (r: MessageType)
        ensures
            r == Self::spec_from_code(value),
    {
        if value == 1 {
            MessageType::Information
        } else if value == 2 {
            MessageType::Warning
        } else if value == 3 {
            MessageType::Critical
        } else if value == 4 {
            MessageType::Fatal
        } else {
            MessageType::Debug
        }
    }
}

impl From<i32> for MessageType {
    fn from(value: i32) -> (r: MessageType) {
        MessageType::from_code(value)
    }
}

impl vstd::std_specs::convert::FromSpecImpl<i32> for MessageType {
    open spec fn obeys_from_spec() -> bool {
        true
    }

    open spec fn from_spec(v: i32) -> MessageType {
        MessageType::spec_from_code(v)
    }
}

impl From<MessageType> for i32 {
    fn from(value: MessageType) -> (r: i32) {
        value.code()
    }
}

impl vstd::std_specs::convert::FromSpecImpl<MessageType> for i32 {
    open spec fn obeys_from_spec() -> bool {
        true
    }

    open spec fn from_spec(v: MessageType) -> i32 {
        v.spec_code()
    }
}

/// Every kind is read back from its number.
pub proof fn lemma_message_type_roundtrip(m: MessageType)
    ensures
        MessageType::spec_from_code(m.spec_code()) == m,
{
}

/// A receiver of the messages VapourSynth logs.
pub trait LogHandler {
    /// Receives one message.
    fn handle(&self, msg_type: MessageType, msg: &str);
}

/// What the logging callback hands to the handler for a raw message: its
/// kind and its text, when the message is there and is valid UTF-8;
/// nothing otherwise.
pub fn log_message(msg_type: i32, msg: Option<Vec<u8>>) -> (r: Option<(MessageType, String)>)
    ensures
        match msg {
            Some(bytes) => if valid_utf8(bytes@) {
                r matches Some((t, s)) && t == MessageType::spec_from_code(msg_type) && s@
                    == decode_utf8(bytes@)
            } else {
                r is None
            },
            None => r is None,
        },
{
    match msg {
        Some(bytes) => {
            let ghost b = bytes@;
            match string_from_utf8(bytes) {
                Some(s) => {
                    proof {
                        vstd::utf8::encode_utf8_decode_utf8(s@);
                    }
                    Some((MessageType::from_code(msg_type), s))
                },
                None => None,
            }
        },
        None => None,
    }
}

} // verus!

verus! {

/// The message kind numbers are VapourSynth's (Debug 0, Information 1, Warning 2,
/// Critical 3, Fatal 4), and a number reads back as the kind it stands for;
/// other numbers read as `Debug`.
pub proof fn lemma_message_type_numbers(v: i32)
    ensures
        MessageType::Debug.spec_code() == 0,
        MessageType::Information.spec_code() == 1,
        MessageType::Warning.spec_code() == 2,
        MessageType::Critical.spec_code() == 3,
        MessageType::Fatal.spec_code() == 4,
        (v == 0 || v == 1 || v == 2 || v == 3 || v == 4) ==> MessageType::spec_from_code(v).spec_code() == v,
        !(v == 0 || v == 1 || v == 2 || v == 3 || v == 4) ==> MessageType::spec_from_code(v) == MessageType::Debug,
{
}

} // verus!
