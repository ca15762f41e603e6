//! Errors, and how a failed native load becomes one.

use crate::ffi::InError;
use vstd::prelude::*;
use vstd::string::*;
use vstd::utf8::{decode_utf8, valid_utf8};

verus! {

/// Why an operation of this library failed.
#[derive(Debug)]
pub enum Inochi2DError {
    /// A context was to be built without a time source. Found before any
    /// native call is asked for.
    Configuration,
    /// The native loader returned the null handle. The text is what the native
    /// error slot said, or a fixed fallback.
    Load { message: String },
}

/// The text of a configuration error.
pub open spec fn configuration_text() -> Seq<char> {
    "timing mut be called before build!"@
}

/// The fallback text for a failed load that left the error slot empty.
pub open spec fn empty_slot_text() -> Seq<char> {
    "Unknown error (are C bindings valid?)"@
}

/// The fallback text for a failed load whose message is not well-formed UTF-8.
pub open spec fn undecodable_text() -> Seq<char> {
    "Unknown error (UTF-8 decoding failed!)"@
}

/// The text that describes a failed load, given what the error slot held.
///
/// An absent slot and a message of no bytes both mean that the native library
/// recorded no error.
pub open spec fn load_failure_text(slot: Option<Seq<u8>>) -> Seq<char> {
    match slot {
        None => empty_slot_text(),
        Some(bytes) => if bytes.len() == 0 {
            empty_slot_text()
        } else if valid_utf8(bytes) {
            decode_utf8(bytes)
        } else {
            undecodable_text()
        },
    }
}

/// The view of an optional error slot reading.
pub open spec fn slot_view(slot: Option<InError>) -> Option<Seq<u8>> {
    match slot {
        None => None,
        Some(error) => Some(error@),
    }
}

/// The text of a failed load is never empty.
pub proof fn lemma_load_failure_text_nonempty(slot: Option<Seq<u8>>)
    ensures
        load_failure_text(slot).len() > 0,
{
    reveal_strlit("Unknown error (are C bindings valid?)");
    reveal_strlit("Unknown error (UTF-8 decoding failed!)");
    if let Some(bytes) = slot {
        if bytes.len() != 0 && valid_utf8(bytes) {
            assert(decode_utf8(bytes).len() > 0);
        }
    }
}

/// Describes a failed load from what the error slot held right after it.
pub fn load_failure_message(slot: Option<InError>) -> (message: String)
    ensures
        message@ == load_failure_text(slot_view(slot)),
        message@.len() > 0,
{
    proof {
        lemma_load_failure_text_nonempty(slot_view(slot));
    }
    match slot {
        None => String::from_str("Unknown error (are C bindings valid?)"),
        Some(error) => {
            if error.len() == 0 {
                String::from_str("Unknown error (are C bindings valid?)")
            } else {
                match error.into_text() {
                    Some(text) => text,
                    None => String::from_str("Unknown error (UTF-8 decoding failed!)"),
                }
            }
        },
    }
}

impl Inochi2DError {
    /// The text of this error.
    pub open spec fn text(self) -> Seq<char> {
        match self {
            Inochi2DError::Configuration => configuration_text(),
            Inochi2DError::Load { message } => message@,
        }
    }

    /// The error as a message for the user.
    pub fn message(&self) -> (message: String)
        ensures
            message@ == self.text(),
    {
        match self {
            Inochi2DError::Configuration => String::from_str("timing mut be called before build!"),
            Inochi2DError::Load { message } => message.clone(),
        }
    }
}

} // verus!
