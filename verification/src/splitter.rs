//! Splitting a byte stream into lines as it arrives.
//!
//! Bytes reach a reader in chunks whose boundaries mean nothing. A
//! [`LineSplitter`] collects them and hands out one line for every line
//! feed seen, in order, whatever the chunking was. A line is handed out as
//! text; bytes that are not UTF-8 are a read fault of that line.

use vstd::prelude::*;
use vstd::slice::*;
use vstd::utf8::*;
use crate::line::{
    after_first_line, first_line, is_line_body, lemma_line_end_is, LINE_FEED,
};

verus! {

/// The `std` error that `String::from_utf8` returns; carried, never inspected.
#[verifier::external_type_specification]
#[verifier::external_body]
pub struct ExFromUtf8Error(std::string::FromUtf8Error);

/// `String::from_utf8` of `std`: it succeeds exactly on well-formed UTF-8,
/// and the text it then returns is the one those bytes encode.
pub assume_specification[ String::from_utf8 ](vec: Vec<u8>) -> (r: Result<
    String,
    std::string::FromUtf8Error,
>)
    ensures
        r is Ok <==> valid_utf8(vec@),
        r matches Ok(text) ==> text@ == decode_utf8(vec@),
;

/// Why a line could not be handed out.
#[derive(Clone, Copy, Debug, PartialEq, Eq, Structural)]
pub enum LineError {
    /// The bytes of the line are not well-formed UTF-8.
    InvalidUtf8,
}

/// What reading one line gives: its text, or the fault found in its bytes.
pub open spec fn line_text(body: Seq<u8>) -> Result<Seq<char>, LineError> {
    if valid_utf8(body) {
        Ok(decode_utf8(body))
    } else {
        Err(LineError::InvalidUtf8)
    }
}

/// The view of a line as read: text by its characters.
pub open spec fn read_view(read: Result<String, LineError>) -> Result<Seq<char>, LineError> {
    match read {
        Ok(text) => Ok(text@),
        Err(e) => Err(e),
    }
}

/// Turns the bytes of one line into text.
pub fn decode_line(body: Vec<u8>) -> (read: Result<String, LineError>)
    ensures
        read_view(read) == line_text(body@),
{
    match String::from_utf8(body) {
        Ok(text) => Ok(text),
        Err(_) => Err(LineError::InvalidUtf8),
    }
}

/// Collects the bytes of a stream and hands out its lines.
///
/// Its view is the bytes received and not yet handed out.
pub struct LineSplitter {
    /// Bytes received; those before `start` were handed out already.
    buffer: Vec<u8>,
    /// Where the bytes not yet handed out begin.
    start: usize,
    /// How many bytes from `start` on are known to hold no line feed.
    scanned: usize,
}

impl View for LineSplitter {
    type V = Seq<u8>;

    closed spec fn view(&self) -> Seq<u8> {
        self.buffer@.subrange(self.start as int, self.buffer@.len() as int)
    }
}

impl LineSplitter {
    #[verifier::type_invariant]
    spec fn well_formed(&self) -> bool {
        &&& self.start + self.scanned <= self.buffer@.len()
        &&& forall|i: int|
            self.start <= i < self.start + self.scanned ==> self.buffer@[i] != LINE_FEED
    }

    /// A splitter that has received nothing.
    pub fn new() -> (splitter: LineSplitter)
        ensures
            splitter@ == Seq::<u8>::empty(),
    {
        LineSplitter { buffer: Vec::new(), start: 0, scanned: 0 }
    }

    /// Moves the parts out, leaving an empty splitter behind.
    fn take_parts(&mut self) -> (parts: LineSplitter)
        ensures
            parts == *old(self),
            final(self)@ == Seq::<u8>::empty(),
    {
        let mut parts = LineSplitter::new();
        core::mem::swap(self, &mut parts);
        parts
    }

    /// Takes in the next bytes of the stream.
    pub fn push(&mut self, chunk: &[u8])
        ensures
            final(self)@ == old(self)@ + chunk@,
    {
        let parts = self.take_parts();
        proof {
            use_type_invariant(&parts);
        }
        let LineSplitter { mut buffer, start, scanned } = parts;
        if start > 0 {
            buffer = buffer.split_off(start);
        }
        let ghost before = buffer@;
        buffer.extend_from_slice(chunk);
        assert(buffer@ == before + chunk@);
        *self = LineSplitter { buffer, start: 0, scanned };
    }

    /// Hands out the next line that a line feed has ended, if there is one.
    ///
    /// The line and its line feed leave the splitter whether or not the line
    /// is text. Without a line feed among the bytes held, nothing changes.
    pub fn next_line(&mut self) -> (next: Option<Result<String, LineError>>)
        ensures
            next is None <==> is_line_body(old(self)@),
            next is None ==> final(self)@ == old(self)@,
            next matches Some(read) ==> {
                &&& read_view(read) == line_text(first_line(old(self)@))
                &&& final(self)@ == after_first_line(old(self)@)
            },
    {
        let parts = self.take_parts();
        proof {
            use_type_invariant(&parts);
        }
        let LineSplitter { mut buffer, start, scanned } = parts;
        let len = buffer.len();
        let mut at = start + scanned;
        while at < len && buffer[at] != LINE_FEED
            invariant
                start + scanned <= at <= len,
                len == buffer@.len(),
                forall|i: int| start <= i < at ==> buffer@[i] != LINE_FEED,
            decreases len - at,
        {
            at += 1;
        }
        if at == len {
            *self = LineSplitter { buffer, start, scanned: len - start };
            assert(is_line_body(self@));
            return None;
        }
        let body = slice_to_vec(slice_subrange(buffer.as_slice(), start, at));
        proof {
            assert(old(self)@.subrange(0, at - start) == body@);
            assert(old(self)@[at - start] == LINE_FEED);
            lemma_line_end_is(old(self)@, at - start);
            assert(after_first_line(old(self)@) == buffer@.subrange(at + 1, len as int));
        }
        if at + 1 == len {
            buffer.clear();
            *self = LineSplitter { buffer, start: 0, scanned: 0 };
        } else {
            *self = LineSplitter { buffer, start: at + 1, scanned: 0 };
        }
        Some(decode_line(body))
    }

    /// Hands out the next line when the stream has ended: one that a line
    /// feed ended, or else whatever bytes are left, as the last line.
    pub fn last_line(&mut self) -> (next: Option<Result<String, LineError>>)
        ensures
            next is None <==> old(self)@.len() == 0,
            next is None ==> final(self)@ == old(self)@,
            next matches Some(read) ==> if is_line_body(old(self)@) {
                &&& read_view(read) == line_text(old(self)@)
                &&& final(self)@ == Seq::<u8>::empty()
            } else {
                &&& read_view(read) == line_text(first_line(old(self)@))
                &&& final(self)@ == after_first_line(old(self)@)
            },
    {
        let next = self.next_line();
        if next.is_some() {
            return next;
        }
        let parts = self.take_parts();
        proof {
            use_type_invariant(&parts);
        }
        let LineSplitter { buffer, start, scanned: _ } = parts;
        if start == buffer.len() {
            return None;
        }
        let body = slice_to_vec(slice_subrange(buffer.as_slice(), start, buffer.len()));
        Some(decode_line(body))
    }

    /// How many bytes are held, waiting for the end of their line.
    pub fn pending_len(&self) -> (n: usize)
        ensures
            n == self@.len(),
    {
        proof {
            use_type_invariant(self);
        }
        self.buffer.len() - self.start
    }
}

} // verus!
