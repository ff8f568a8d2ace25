//! The outcome of fetching a source, and the decoding of a fetched body as
//! text.
use vstd::prelude::*;
use vstd::utf8::{valid_utf8, decode_utf8};
use crate::text::{decimal, push_decimal};

verus! {

/// Why a fetch failed. Each kind keeps the URL that was fetched.
pub enum FetchError {
    /// The request could not be made or its body not be read.
    Transport { url: String, detail: String },
    /// The server answered with a status other than success; `reason` is
    /// the status's reason phrase.
    Status { url: String, code: u16, reason: String },
    /// The body is not UTF-8 text.
    Decode { url: String },
}

impl FetchError {
    pub open spec fn message_spec(&self) -> Seq<char> {
        match self {
            FetchError::Transport { url, detail } => "fetch failed for "@ + url@ + ": "@ + detail@,
            FetchError::Status { url, code, reason } => "HTTP "@ + decimal(*code as nat) + seq![' '] + reason@ + " for "@
                + url@,
            FetchError::Decode { url } => "response from "@ + url@ + " is not valid UTF-8"@,
        }
    }

    /// A one-line description of the failure.
    pub fn message(&self) -> (r: String)
        ensures
            r@ == self.message_spec(),
    {
        let mut out = String::new();
        match self {
            FetchError::Transport { url, detail } => {
                out.push_str("fetch failed for ");
                out.push_str(url.as_str());
                out.push_str(": ");
                out.push_str(detail.as_str());
            },
            FetchError::Status { url, code, reason } => {
                out.push_str("HTTP ");
                push_decimal(&mut out, *code as u128);
                out.push(' ');
                out.push_str(reason.as_str());
                out.push_str(" for ");
                out.push_str(url.as_str());
            },
            FetchError::Decode { url } => {
                out.push_str("response from ");
                out.push_str(url.as_str());
                out.push_str(" is not valid UTF-8");
            },
        }
        out
    }
}

/// Relies on `String::from_utf8`: it succeeds exactly on valid UTF-8, and
/// then holds the characters that the bytes encode.
#[verifier::external_body]
fn utf8_string(bytes: Vec<u8>) -> (r: Option<String>)
    ensures
        r is Some <==> valid_utf8(bytes@),
        r matches Some(s) ==> s@ == decode_utf8(bytes@),
{
    String::from_utf8(bytes).ok()
}

/// The body fetched from `url` as text; a decode failure when it is not
/// valid UTF-8.
pub fn decode_text(url: &str, body: Vec<u8>) -> (r: Result<String, FetchError>)
    ensures
        r is Ok <==> valid_utf8(body@),
        r matches Ok(s) ==> s@ == decode_utf8(body@),
        r matches Err(e) ==> e matches FetchError::Decode { url: u } && u@ == url@,
{
    match utf8_string(body) {
        Some(s) => Ok(s),
        None => Err(FetchError::Decode { url: String::from_str(url) }),
    }
}

} // verus!
