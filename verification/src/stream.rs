//! The streaming decoder: unwraps a chunked body that is, taken together, a
//! JSON array of response objects into the text of one object per chunk.

use vstd::prelude::*;
use vstd::string::{StrSliceExecFns, StringExecFns};
use vstd::utf8::{decode_utf8, valid_utf8};
use crate::error::{GeminiError, GeminiErrorKind};

verus! {

/// What one chunk of the body is.
pub enum ChunkReading {
    /// The bytes are not UTF-8.
    NotText,
    /// The chunk holds no character at all.
    Empty,
    /// Nothing follows the leading delimiter: the closing bracket, which
    /// ends the sequence.
    Closing,
    /// The text of one JSON value: what follows the leading delimiter.
    Payload(Seq<char>),
}

/// Reads one chunk: drops exactly its first character, the opening bracket
/// or the comma, and takes the rest as the text of one JSON value.
pub open spec fn reading_of(chunk: Seq<u8>) -> ChunkReading {
    if !valid_utf8(chunk) {
        ChunkReading::NotText
    } else if decode_utf8(chunk).len() == 0 {
        ChunkReading::Empty
    } else if decode_utf8(chunk).len() == 1 {
        ChunkReading::Closing
    } else {
        ChunkReading::Payload(decode_utf8(chunk).skip(1))
    }
}

/// The message of the failure that a chunk which is not UTF-8 gives.
pub open spec fn not_text_message() -> Seq<char> {
    "stream chunk is not valid UTF-8"@
}

/// The message of the failure that a chunk without any character gives.
pub open spec fn empty_chunk_message() -> Seq<char> {
    "stream chunk is empty"@
}

/// `core::str::from_utf8`: the text that the bytes encode, exactly when they
/// are valid UTF-8.
#[verifier::external_body]
fn utf8_text(bytes: &[u8]) -> (r: Option<&str>)
    ensures
        match r {
            Some(text) => valid_utf8(bytes@) && text@ == decode_utf8(bytes@),
            None => !valid_utf8(bytes@),
        },
{
    core::str::from_utf8(bytes).ok()
}

/// The state of one streamed response: whether its end has been seen.
#[derive(Debug)]
pub struct StreamDecoder {
    finished: bool,
}

impl StreamDecoder {
    /// Whether the end of the sequence has been seen.
    pub closed spec fn finished(&self) -> bool {
        self.finished
    }

    /// A decoder at the start of a body.
    pub fn new() -> (decoder: StreamDecoder)
        ensures
            !decoder.finished(),
    {
        StreamDecoder { finished: false }
    }

    /// Whether the end of the sequence has been seen. After it nothing more
    /// is emitted.
    pub fn is_finished(&self) -> (finished: bool)
        ensures
            finished == self.finished(),
    {
        self.finished
    }

    /// Takes the next chunk of the body and gives the item that it stands
    /// for: the text of one JSON value, a failure of kind `Other` for a chunk
    /// that cannot be read, or nothing. The closing chunk gives nothing and
    /// ends the sequence; once ended, every chunk gives nothing. A chunk that
    /// cannot be read does not end the sequence.
    pub fn accept(&mut self, chunk: &[u8]) -> (item: Option<Result<String, GeminiError>>)
        ensures
            old(self).finished() ==> item is None && final(self).finished(),
            !old(self).finished() ==> match reading_of(chunk@) {
                ChunkReading::NotText => !final(self).finished() && item is Some
                    && item.unwrap() is Err && item.unwrap().unwrap_err().kind
                    == GeminiErrorKind::Other && item.unwrap().unwrap_err().message@
                    == not_text_message(),
                ChunkReading::Empty => !final(self).finished() && item is Some
                    && item.unwrap() is Err && item.unwrap().unwrap_err().kind
                    == GeminiErrorKind::Other && item.unwrap().unwrap_err().message@
                    == empty_chunk_message(),
                ChunkReading::Closing => final(self).finished() && item is None,
                ChunkReading::Payload(payload) => !final(self).finished() && item is Some
                    && item.unwrap() is Ok && item.unwrap().unwrap()@ == payload,
            },
    {
        if self.finished {
            return None;
        }
        match utf8_text(chunk) {
            None => Some(Err(GeminiError::message("stream chunk is not valid UTF-8"))),
            Some(text) => {
                let length = text.unicode_len();
                if length == 0 {
                    Some(Err(GeminiError::message("stream chunk is empty")))
                } else if length == 1 {
                    self.finished = true;
                    None
                } else {
                    let rest = text.substring_char(1, length);
                    Some(Ok(String::from_str(rest)))
                }
            },
        }
    }

    /// Takes a failure of the transport while reading the body: a failure of
    /// kind `Other` that carries `detail`, unless the sequence has ended. The
    /// sequence does not end by it.
    pub fn read_failure(&self, detail: &str) -> (item: Option<GeminiError>)
        ensures
            self.finished() ==> item is None,
            !self.finished() ==> item is Some && item.unwrap().kind == GeminiErrorKind::Other
                && item.unwrap().message@ == detail@,
    {
        if self.finished {
            None
        } else {
            Some(GeminiError::message(detail))
        }
    }
}

} // verus!
