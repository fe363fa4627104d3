use vstd::prelude::*;
use vstd::string::*;
use crate::text::{concat2, concat3, join_strings, join_with, strings_view};

verus! {

/// The error record used both in process and as the decoding target of the
/// remote API's error body: a machine-readable key, the rejected field and a
/// human-readable message. Each part may be empty.
#[derive(Debug, Clone)]
pub struct Error {
    pub error_key: String,
    pub field: String,
    pub message: String,
}

/// The parts of an error's text: the key, the field and the message, each
/// where it is not empty.
pub open spec fn error_text_parts(e: Error) -> Seq<Seq<char>> {
    (if e.error_key@.len() > 0 {
        seq!["Key: "@ + e.error_key@ + ", "@]
    } else {
        Seq::empty()
    }) + (if e.field@.len() > 0 {
        seq!["Field: "@ + e.field@]
    } else {
        Seq::empty()
    }) + (if e.message@.len() > 0 {
        seq!["Message: "@ + e.message@]
    } else {
        Seq::empty()
    })
}

/// The text of an error: its parts joined by `, `, or `Unknown` where all
/// three are empty.
pub open spec fn error_text(e: Error) -> Seq<char> {
    if error_text_parts(e).len() == 0 {
        "Unknown"@
    } else {
        join_with(error_text_parts(e), ", "@)
    }
}

impl Error {
    /// The text shown for this error, as `error_text` states.
    pub fn display_text(&self) -> (r: String)
        ensures
            r@ == error_text(*self),
    {
        let mut parts: Vec<String> = Vec::new();
        if !self.error_key.as_str().is_empty() {
            parts.push(concat3("Key: ", self.error_key.as_str(), ", "));
        }
        if !self.field.as_str().is_empty() {
            parts.push(concat2("Field: ", self.field.as_str()));
        }
        if !self.message.as_str().is_empty() {
            parts.push(concat2("Message: ", self.message.as_str()));
        }
        assert(strings_view(parts@) =~= error_text_parts(*self));
        if parts.len() == 0 {
            return String::from_str("Unknown");
        }
        join_strings(&parts, ", ")
    }

    /// An error that carries only a message.
    pub fn new_from_message(message: &str) -> (r: Error)
        ensures
            r.error_key@ == Seq::<char>::empty(),
            r.field@ == Seq::<char>::empty(),
            r.message@ == message@,
    {
        Error { error_key: String::new(), field: String::new(), message: message.to_owned() }
    }
}

} // verus!
