//! The per-connection error type: a message for the log and the status
//! code that the client is shown.

use vstd::prelude::*;
use vstd::string::StringExecFns;

use crate::response::Code;

verus! {

/// An error carried out of the request pipeline: a human-readable
/// message and the status code to answer with.  A `Code::Unknown` code
/// marks an error that is only logged, never turned into a header.
#[derive(Debug)]
pub struct Supernova {
    message: String,
    code: Code,
}

impl Supernova {
    /// The status code this error answers with.
    pub closed spec fn spec_code(&self) -> Code {
        self.code
    }

    /// The characters of the log message.
    pub closed spec fn spec_message(&self) -> Seq<char> {
        self.message@
    }

    /// A fresh error with the given message and no status code yet.
    pub fn boom(message: &str) -> (r: Supernova)
        ensures
            r.spec_message() == message@,
            r.spec_code() == Code::Unknown,
    {
        Supernova { message: String::from_str(message), code: Code::Unknown }
    }

    /// The status code this error answers with.
    pub fn code(&self) -> (c: Code)
        ensures
            c == self.spec_code(),
    {
        self.code
    }

    /// Sets the status code, and hands back a copy of the updated error.
    pub fn with_code(&mut self, code: Code) -> (r: Supernova)
        ensures
            final(self).spec_code() == code,
            final(self).spec_message() == old(self).spec_message(),
            r.spec_code() == code,
            r.spec_message() == old(self).spec_message(),
    {
        self.code = code;
        Supernova { message: self.message.clone(), code }
    }

    /// The log message.
    pub fn message(&self) -> (r: &str)
        ensures
            r@ == self.spec_message(),
    {
        self.message.as_str()
    }
}

} // verus!
