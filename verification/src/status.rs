//! The fixed registry of HTTP status codes and their canonical reason
//! phrases, covering the standard codes 100 through 511. A code outside
//! the registry maps to the generic phrase "Unknown Status" instead of
//! being an error.

use vstd::prelude::*;

verus! {

/// The canonical reason phrase for `code`, or "Unknown Status" for a code
/// outside the registry.
pub open spec fn spec_reason_phrase(code: u16) -> Seq<char> {
    if code == 100 {
        "Continue"@
    } else if code == 101 {
        "Switching Protocols"@
    } else if code == 102 {
        "Processing"@
    } else if code == 103 {
        "Early Hints"@
    } else if code == 200 {
        "OK"@
    } else if code == 201 {
        "Created"@
    } else if code == 202 {
        "Accepted"@
    } else if code == 203 {
        "Non-Authoritative Information"@
    } else if code == 204 {
        "No Content"@
    } else if code == 205 {
        "Reset Content"@
    } else if code == 206 {
        "Partial Content"@
    } else if code == 207 {
        "Multi-Status"@
    } else if code == 208 {
        "Already Reported"@
    } else if code == 226 {
        "IM Used"@
    } else if code == 300 {
        "Multiple Choices"@
    } else if code == 301 {
        "Moved Permanently"@
    } else if code == 302 {
        "Found"@
    } else if code == 303 {
        "See Other"@
    } else if code == 304 {
        "Not Modified"@
    } else if code == 305 {
        "Use Proxy"@
    } else if code == 307 {
        "Temporary Redirect"@
    } else if code == 308 {
        "Permanent Redirect"@
    } else if code == 400 {
        "Bad Request"@
    } else if code == 401 {
        "Unauthorized"@
    } else if code == 402 {
        "Payment Required"@
    } else if code == 403 {
        "Forbidden"@
    } else if code == 404 {
        "Not Found"@
    } else if code == 405 {
        "Method Not Allowed"@
    } else if code == 406 {
        "Not Acceptable"@
    } else if code == 407 {
        "Proxy Authentication Required"@
    } else if code == 408 {
        "Request Timeout"@
    } else if code == 409 {
        "Conflict"@
    } else if code == 410 {
        "Gone"@
    } else if code == 411 {
        "Length Required"@
    } else if code == 412 {
        "Precondition Failed"@
    } else if code == 413 {
        "Payload Too Large"@
    } else if code == 414 {
        "URI Too Long"@
    } else if code == 415 {
        "Unsupported Media Type"@
    } else if code == 416 {
        "Range Not Satisfiable"@
    } else if code == 417 {
        "Expectation Failed"@
    } else if code == 418 {
        "I'm a Teapot"@
    } else if code == 421 {
        "Misdirected Request"@
    } else if code == 422 {
        "Unprocessable Entity"@
    } else if code == 423 {
        "Locked"@
    } else if code == 424 {
        "Failed Dependency"@
    } else if code == 425 {
        "Too Early"@
    } else if code == 426 {
        "Upgrade Required"@
    } else if code == 428 {
        "Precondition Required"@
    } else if code == 429 {
        "Too Many Requests"@
    } else if code == 431 {
        "Request Header Fields Too Large"@
    } else if code == 451 {
        "Unavailable For Legal Reasons"@
    } else if code == 500 {
        "Internal Server Error"@
    } else if code == 501 {
        "Not Implemented"@
    } else if code == 502 {
        "Bad Gateway"@
    } else if code == 503 {
        "Service Unavailable"@
    } else if code == 504 {
        "Gateway Timeout"@
    } else if code == 505 {
        "HTTP Version Not Supported"@
    } else if code == 506 {
        "Variant Also Negotiates"@
    } else if code == 507 {
        "Insufficient Storage"@
    } else if code == 508 {
        "Loop Detected"@
    } else if code == 509 {
        "Bandwidth Limit Exceeded"@
    } else if code == 510 {
        "Not Extended"@
    } else if code == 511 {
        "Network Authentication Required"@
    } else {
        "Unknown Status"@
    }
}

/// Looks `code` up in the registry; a code outside it yields the generic
/// phrase rather than a failure.
pub fn reason_phrase(code: u16) -> (r: &'static str)
    ensures
        r@ == spec_reason_phrase(code),
{
    if code == 100 {
        "Continue"
    } else if code == 101 {
        "Switching Protocols"
    } else if code == 102 {
        "Processing"
    } else if code == 103 {
        "Early Hints"
    } else if code == 200 {
        "OK"
    } else if code == 201 {
        "Created"
    } else if code == 202 {
        "Accepted"
    } else if code == 203 {
        "Non-Authoritative Information"
    } else if code == 204 {
        "No Content"
    } else if code == 205 {
        "Reset Content"
    } else if code == 206 {
        "Partial Content"
    } else if code == 207 {
        "Multi-Status"
    } else if code == 208 {
        "Already Reported"
    } else if code == 226 {
        "IM Used"
    } else if code == 300 {
        "Multiple Choices"
    } else if code == 301 {
        "Moved Permanently"
    } else if code == 302 {
        "Found"
    } else if code == 303 {
        "See Other"
    } else if code == 304 {
        "Not Modified"
    } else if code == 305 {
        "Use Proxy"
    } else if code == 307 {
        "Temporary Redirect"
    } else if code == 308 {
        "Permanent Redirect"
    } else if code == 400 {
        "Bad Request"
    } else if code == 401 {
        "Unauthorized"
    } else if code == 402 {
        "Payment Required"
    } else if code == 403 {
        "Forbidden"
    } else if code == 404 {
        "Not Found"
    } else if code == 405 {
        "Method Not Allowed"
    } else if code == 406 {
        "Not Acceptable"
    } else if code == 407 {
        "Proxy Authentication Required"
    } else if code == 408 {
        "Request Timeout"
    } else if code == 409 {
        "Conflict"
    } else if code == 410 {
        "Gone"
    } else if code == 411 {
        "Length Required"
    } else if code == 412 {
        "Precondition Failed"
    } else if code == 413 {
        "Payload Too Large"
    } else if code == 414 {
        "URI Too Long"
    } else if code == 415 {
        "Unsupported Media Type"
    } else if code == 416 {
        "Range Not Satisfiable"
    } else if code == 417 {
        "Expectation Failed"
    } else if code == 418 {
        "I'm a Teapot"
    } else if code == 421 {
        "Misdirected Request"
    } else if code == 422 {
        "Unprocessable Entity"
    } else if code == 423 {
        "Locked"
    } else if code == 424 {
        "Failed Dependency"
    } else if code == 425 {
        "Too Early"
    } else if code == 426 {
        "Upgrade Required"
    } else if code == 428 {
        "Precondition Required"
    } else if code == 429 {
        "Too Many Requests"
    } else if code == 431 {
        "Request Header Fields Too Large"
    } else if code == 451 {
        "Unavailable For Legal Reasons"
    } else if code == 500 {
        "Internal Server Error"
    } else if code == 501 {
        "Not Implemented"
    } else if code == 502 {
        "Bad Gateway"
    } else if code == 503 {
        "Service Unavailable"
    } else if code == 504 {
        "Gateway Timeout"
    } else if code == 505 {
        "HTTP Version Not Supported"
    } else if code == 506 {
        "Variant Also Negotiates"
    } else if code == 507 {
        "Insufficient Storage"
    } else if code == 508 {
        "Loop Detected"
    } else if code == 509 {
        "Bandwidth Limit Exceeded"
    } else if code == 510 {
        "Not Extended"
    } else if code == 511 {
        "Network Authentication Required"
    } else {
        "Unknown Status"
    }
}

} // verus!
