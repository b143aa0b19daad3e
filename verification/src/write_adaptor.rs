//! A sink that accepts byte buffers and keeps the text they decode to:
//! the bridge between a byte-oriented writer and a text-oriented one.

use vstd::prelude::*;

verus! {

use vstd::utf8::{decode_utf8, valid_utf8};

/// Why a write was refused.
#[derive(Clone, Copy, Debug, PartialEq, Eq, Structural)]
pub enum WriteError {
    /// The buffer was not valid UTF-8.
    InvalidUtf8,
}

/// Relies on `str::from_utf8`: it returns the string the bytes decode
/// to exactly when they are valid UTF-8.
#[verifier::external_body]
fn utf8_to_string(bytes: &[u8]) -> (r: Option<String>)
    ensures
        r is Some <==> valid_utf8(bytes@),
        r matches Some(s) ==> s@ == decode_utf8(bytes@),
{
    match std::str::from_utf8(bytes) {
        Ok(s) => Some(s.to_owned()),
        Err(_) => None,
    }
}

/// Adapts byte-buffer writes onto an owned text sink.
#[derive(Debug, PartialEq, Eq)]
pub struct WriteAdaptor {
    pub written: String,
}

impl WriteAdaptor {
    /// A fresh adaptor with nothing written.
    pub fn new() -> (r: WriteAdaptor)
        ensures
            r.written@.len() == 0,
    {
        WriteAdaptor { written: String::new() }
    }

    /// Appends the text `buf` decodes to and reports the whole buffer
    /// written; a buffer that is not UTF-8 is refused and changes
    /// nothing.
    pub fn write(&mut self, buf: &[u8]) -> (r: Result<usize, WriteError>)
        ensures
            r is Ok <==> valid_utf8(buf@),
            r matches Ok(n) ==> n == buf@.len() && final(self).written@ == old(self).written@
                + decode_utf8(buf@),
            r matches Err(e) ==> e == WriteError::InvalidUtf8 && *final(self) == *old(self),
    {
        match utf8_to_string(buf) {
            Some(s) => {
                self.written.append(s.as_str());
                Ok(buf.len())
            },
            None => Err(WriteError::InvalidUtf8),
        }
    }

    /// Flushing never fails and changes nothing.
    pub fn flush(&mut self) -> (r: Result<(), WriteError>)
        ensures
            r is Ok,
            *final(self) == *old(self),
    {
        Ok(())
    }

    /// The text written so far.
    pub fn contents(&self) -> (r: &String)
        ensures
            r@ == self.written@,
    {
        &self.written
    }
}

} // verus!
