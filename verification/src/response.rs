//! The response lifecycle: a write-once, two-state (open/closed) object
//! that accumulates a status code and body and, on finalization, builds
//! the header block and body into one buffer in a single atomic step.
//! Misuse (finalizing twice, setting the status after finalization, a
//! missing file) is a recoverable per-request error, never a panic.

use vstd::prelude::*;
use vstd::string::StrSliceExecFns;
use vstd::slice::slice_to_vec;
use vstd::utf8::encode_utf8;
use crate::status::{reason_phrase, spec_reason_phrase};
use crate::text::{dec_digits, u64_to_dec};

verus! {

/// The recoverable ways a response operation can fail.
#[derive(Clone, Copy, Debug, PartialEq, Eq, Structural)]
pub enum ReplyError {
    /// `status` was called after the headers were locked by `end`.
    InvalidState,
    /// `end` was called on a reply that was already finalized.
    FinalizedTwice,
    /// `send_file_bytes` was handed no contents: the file did not exist.
    FileNotFound,
}

/// The header block for one response: status line, Content-Length,
/// Content-Type and the configured Access-Control-Allow-Origin, each line
/// ended by CRLF, then the empty line that closes the block.
pub open spec fn spec_header_block(
    code: u16,
    content_type: Seq<char>,
    origin: Seq<char>,
    body_len: nat,
) -> Seq<char> {
    "HTTP/1.1 "@ + dec_digits(code as nat) + " "@ + spec_reason_phrase(code) + "\r\n"@
        + "Content-Length: "@ + dec_digits(body_len) + "\r\n"@ + "Content-Type: "@ + content_type
        + "\r\n"@ + "Access-Control-Allow-Origin: "@ + origin + "\r\n"@ + "\r\n"@
}

/// Builds the header block exactly as `spec_header_block` describes, for
/// the given status code, content type, body length and configured origin.
pub fn build_template_headers(
    status_code: u16,
    content_type: &str,
    content_length: usize,
    origin: &str,
) -> (r: String)
    ensures
        r@ == spec_header_block(status_code, content_type@, origin@, content_length as nat),
{
    let mut s = String::new();
    s.append("HTTP/1.1 ");
    s.append(u64_to_dec(status_code as u64).as_str());
    s.append(" ");
    s.append(reason_phrase(status_code));
    s.append("\r\n");
    s.append("Content-Length: ");
    s.append(u64_to_dec(content_length as u64).as_str());
    s.append("\r\n");
    s.append("Content-Type: ");
    s.append(content_type);
    s.append("\r\n");
    s.append("Access-Control-Allow-Origin: ");
    s.append(origin);
    s.append("\r\n");
    s.append("\r\n");
    proof {
        assert(s@ =~= spec_header_block(status_code, content_type@, origin@, content_length as nat));
    }
    s
}

/// The write-once response object bound to one connection. It starts open
/// (`writeable`), with unlocked headers (`writeable_headers`); `end` locks
/// both and fills `response_content` with the bytes to put on the wire.
/// The output stream itself is owned by the caller, which writes
/// `response_content` out once the reply is finalized.
pub struct Reply {
    pub response_content: Vec<u8>,
    pub status_code: u16,
    pub content_type: &'static str,
    pub origin: &'static str,
    pub content_length: u32,
    pub writeable: bool,
    pub writeable_headers: bool,
}

impl Reply {
    /// A fresh reply for one connection: open, empty buffer, status 200,
    /// content type "text/html", and the given configured origin.
    pub fn new(origin: &'static str) -> (r: Reply)
        ensures
            r.response_content@ =~= Seq::<u8>::empty(),
            r.status_code == 200,
            r.content_type@ == "text/html"@,
            r.origin == origin,
            r.content_length == 0,
            r.writeable,
            r.writeable_headers,
    {
        Reply {
            response_content: Vec::new(),
            status_code: 200,
            content_type: "text/html",
            origin,
            content_length: 0,
            writeable: true,
            writeable_headers: true,
        }
    }

    /// The sole finalization operation. On an open reply it appends the
    /// UTF-8 bytes of the header block, then the body bytes, to the
    /// accumulated buffer, locks the headers and closes the reply. On a
    /// reply that was already finalized it fails and changes nothing.
    pub fn end(&mut self, data: &[u8]) -> (r: Result<(), ReplyError>)
        ensures
            !old(self).writeable ==> r == Err::<(), ReplyError>(ReplyError::FinalizedTwice)
                && *final(self) == *old(self),
            old(self).writeable ==> {
                &&& r == Ok::<(), ReplyError>(())
                &&& final(self).response_content@ == old(self).response_content@ + encode_utf8(
                    spec_header_block(
                        old(self).status_code,
                        old(self).content_type@,
                        old(self).origin@,
                        data@.len(),
                    ),
                ) + data@
                &&& !final(self).writeable
                &&& !final(self).writeable_headers
                &&& final(self).status_code == old(self).status_code
                &&& final(self).content_type == old(self).content_type
                &&& final(self).origin == old(self).origin
                &&& final(self).content_length == old(self).content_length
            },
    {
        if !self.writeable {
            return Err(ReplyError::FinalizedTwice);
        }
        let headers = build_template_headers(
            self.status_code,
            self.content_type,
            data.len(),
            self.origin,
        );
        let mut header_bytes = headers.as_str().as_bytes_vec();
        self.response_content.append(&mut header_bytes);
        self.writeable_headers = false;
        let mut body_bytes = slice_to_vec(data);
        self.response_content.append(&mut body_bytes);
        self.writeable = false;
        Ok(())
    }

    /// Convenience wrapper: finalizes with the UTF-8 bytes of `content`.
    pub fn send(&mut self, content: &str) -> (r: Result<(), ReplyError>)
        ensures
            !old(self).writeable ==> r == Err::<(), ReplyError>(ReplyError::FinalizedTwice)
                && *final(self) == *old(self),
            old(self).writeable ==> {
                &&& r == Ok::<(), ReplyError>(())
                &&& final(self).response_content@ == old(self).response_content@ + encode_utf8(
                    spec_header_block(
                        old(self).status_code,
                        old(self).content_type@,
                        old(self).origin@,
                        encode_utf8(content@).len(),
                    ),
                ) + encode_utf8(content@)
                &&& !final(self).writeable
                &&& !final(self).writeable_headers
                &&& final(self).status_code == old(self).status_code
                &&& final(self).content_type == old(self).content_type
                &&& final(self).origin == old(self).origin
                &&& final(self).content_length == old(self).content_length
            },
    {
        self.end(content.as_bytes())
    }

    /// The decision part of sending a file: the caller reads the file and
    /// hands over its full contents, or `None` when the path does not
    /// exist. A missing file fails with `FileNotFound` and writes nothing;
    /// otherwise this finalizes exactly as `end` does on the contents.
    pub fn send_file_bytes(&mut self, contents: Option<Vec<u8>>) -> (r: Result<(), ReplyError>)
        ensures
            contents is None ==> r == Err::<(), ReplyError>(ReplyError::FileNotFound)
                && *final(self) == *old(self),
            contents is Some && !old(self).writeable ==> r == Err::<(), ReplyError>(
                ReplyError::FinalizedTwice,
            ) && *final(self) == *old(self),
            contents is Some && old(self).writeable ==> {
                &&& r == Ok::<(), ReplyError>(())
                &&& final(self).response_content@ == old(self).response_content@ + encode_utf8(
                    spec_header_block(
                        old(self).status_code,
                        old(self).content_type@,
                        old(self).origin@,
                        contents->0@.len(),
                    ),
                ) + contents->0@
                &&& !final(self).writeable
                &&& !final(self).writeable_headers
                &&& final(self).status_code == old(self).status_code
                &&& final(self).content_type == old(self).content_type
                &&& final(self).origin == old(self).origin
                &&& final(self).content_length == old(self).content_length
            },
    {
        match contents {
            None => Err(ReplyError::FileNotFound),
            Some(bytes) => self.end(bytes.as_slice()),
        }
    }

    /// Overwrites the stored status code. Permitted only while the headers
    /// are unlocked, that is, before `end` has run; afterwards it fails
    /// and changes nothing. The code is not validated against the status
    /// registry here: the registry is consulted when the header block is
    /// built.
    pub fn status(&mut self, new_status_code: u16) -> (r: Result<(), ReplyError>)
        ensures
            !old(self).writeable_headers ==> r == Err::<(), ReplyError>(ReplyError::InvalidState)
                && *final(self) == *old(self),
            old(self).writeable_headers ==> {
                &&& r == Ok::<(), ReplyError>(())
                &&& final(self).status_code == new_status_code
                &&& final(self).response_content@ == old(self).response_content@
                &&& final(self).content_type == old(self).content_type
                &&& final(self).origin == old(self).origin
                &&& final(self).content_length == old(self).content_length
                &&& final(self).writeable == old(self).writeable
                &&& final(self).writeable_headers == old(self).writeable_headers
            },
    {
        if !self.writeable_headers {
            return Err(ReplyError::InvalidState);
        }
        self.status_code = new_status_code;
        Ok(())
    }
}

} // verus!
