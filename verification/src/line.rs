//! Log lines and their form on the wire.
//!
//! A log line is text without a line feed. On the wire each line is its
//! UTF-8 bytes followed by one line feed; nothing else separates lines.
//! This module defines that form, how a byte stream falls apart into
//! lines again, and proves that the two agree.

use vstd::prelude::*;
use vstd::string::*;
use vstd::utf8::*;

verus! {

/// The byte that ends a line on the wire and in a sink.
pub const LINE_FEED: u8 = 10;

/// A byte sequence that can travel as one line: it holds no line feed.
pub open spec fn is_line_body(bytes: Seq<u8>) -> bool {
    forall|i: int| 0 <= i < bytes.len() ==> bytes[i] != LINE_FEED
}

/// Every member of `bodies` can travel as one line.
pub open spec fn are_line_bodies(bodies: Seq<Seq<u8>>) -> bool {
    forall|i: int| 0 <= i < bodies.len() ==> is_line_body(#[trigger] bodies[i])
}

/// One line as it travels: its bytes, then one line feed.
pub open spec fn framed(body: Seq<u8>) -> Seq<u8> {
    body.push(LINE_FEED)
}

/// A run of lines as it travels: each line framed, in order.
pub open spec fn wire_encoding(bodies: Seq<Seq<u8>>) -> Seq<u8>
    decreases bodies.len(),
{
    if bodies.len() == 0 {
        Seq::empty()
    } else {
        framed(bodies.first()) + wire_encoding(bodies.drop_first())
    }
}

/// Where the first line of `bytes` ends: the index of the first line feed,
/// or the length of `bytes` where it holds none.
pub open spec fn line_end(bytes: Seq<u8>) -> int
    decreases bytes.len(),
{
    if bytes.len() == 0 || bytes[0] == LINE_FEED {
        0
    } else {
        1 + line_end(bytes.drop_first())
    }
}

/// The bytes before the first line feed.
pub open spec fn first_line(bytes: Seq<u8>) -> Seq<u8> {
    bytes.subrange(0, line_end(bytes))
}

/// The bytes behind the first line feed; meant for `bytes` that hold one.
pub open spec fn after_first_line(bytes: Seq<u8>) -> Seq<u8> {
    bytes.subrange(line_end(bytes) + 1, bytes.len() as int)
}

/// The lines that `stream` has completed: one for each line feed, in order.
pub open spec fn lines_of(stream: Seq<u8>) -> Seq<Seq<u8>>
    decreases stream.len(),
    via lines_of_decreases
{
    if line_end(stream) == stream.len() {
        Seq::empty()
    } else {
        seq![first_line(stream)] + lines_of(after_first_line(stream))
    }
}

#[via_fn]
proof fn lines_of_decreases(stream: Seq<u8>) {
    lemma_line_end(stream);
}

/// The bytes of `stream` behind its last line feed: a line not yet ended.
pub open spec fn unfinished(stream: Seq<u8>) -> Seq<u8>
    decreases stream.len(),
    via unfinished_decreases
{
    if line_end(stream) == stream.len() {
        stream
    } else {
        unfinished(after_first_line(stream))
    }
}

#[via_fn]
proof fn unfinished_decreases(stream: Seq<u8>) {
    lemma_line_end(stream);
}

/// `line_end` is the least index that holds a line feed, and the length
/// where there is none.
pub proof fn lemma_line_end(bytes: Seq<u8>)
    ensures
        0 <= line_end(bytes) <= bytes.len(),
        is_line_body(first_line(bytes)),
        line_end(bytes) < bytes.len() ==> bytes[line_end(bytes)] == LINE_FEED,
        line_end(bytes) == bytes.len() <==> is_line_body(bytes),
    decreases bytes.len(),
{
    if bytes.len() == 0 || bytes[0] == LINE_FEED {
    } else {
        let rest = bytes.drop_first();
        lemma_line_end(rest);
        assert forall|i: int| 0 <= i < first_line(bytes).len() implies first_line(bytes)[i]
            != LINE_FEED by {
            if i > 0 {
                assert(first_line(bytes)[i] == first_line(rest)[i - 1]);
            }
        }
        if line_end(rest) == rest.len() {
            assert forall|i: int| 0 <= i < bytes.len() implies bytes[i] != LINE_FEED by {
                if i > 0 {
                    assert(bytes[i] == rest[i - 1]);
                }
            }
        } else {
            assert(bytes[line_end(bytes)] == rest[line_end(rest)]);
        }
    }
}

/// A line feed found behind bytes that hold none is the first one.
pub proof fn lemma_line_end_is(bytes: Seq<u8>, end: int)
    requires
        0 <= end <= bytes.len(),
        is_line_body(bytes.subrange(0, end)),
        end < bytes.len() ==> bytes[end] == LINE_FEED,
    ensures
        line_end(bytes) == end,
{
    lemma_line_end(bytes);
    let found = line_end(bytes);
    if found < end {
        assert(bytes.subrange(0, end)[found] == LINE_FEED);
    } else if end < found {
        assert(first_line(bytes)[end] == LINE_FEED);
    }
}

/// A stream that begins with a framed line: that line is its first, and the
/// rest follows it.
pub proof fn lemma_first_line_of_framed(body: Seq<u8>, rest: Seq<u8>)
    requires
        is_line_body(body),
    ensures
        line_end(framed(body) + rest) == body.len(),
        first_line(framed(body) + rest) == body,
        after_first_line(framed(body) + rest) == rest,
{
    let stream = framed(body) + rest;
    assert(stream.subrange(0, body.len() as int) == body);
    assert(stream[body.len() as int] == LINE_FEED);
    lemma_line_end_is(stream, body.len() as int);
    assert(stream.subrange(body.len() as int + 1, stream.len() as int) == rest);
}

/// A stream that holds a line feed is its first line, framed, and what follows.
pub proof fn lemma_first_line_splits(stream: Seq<u8>)
    requires
        !is_line_body(stream),
    ensures
        framed(first_line(stream)) + after_first_line(stream) == stream,
        is_line_body(first_line(stream)),
        after_first_line(stream).len() < stream.len(),
{
    lemma_line_end(stream);
    assert(framed(first_line(stream)) + after_first_line(stream) =~= stream);
}

/// Framing lines and putting them one behind the other is the same as
/// encoding the whole run.
pub proof fn lemma_wire_encoding_concat(first: Seq<Seq<u8>>, second: Seq<Seq<u8>>)
    ensures
        wire_encoding(first + second) == wire_encoding(first) + wire_encoding(second),
    decreases first.len(),
{
    if first.len() == 0 {
        assert(first + second == second);
    } else {
        lemma_wire_encoding_concat(first.drop_first(), second);
        assert((first + second).drop_first() == first.drop_first() + second);
        assert((first + second).first() == first.first());
    }
}

/// Encoding a run of one line is framing that line.
pub proof fn lemma_wire_encoding_single(body: Seq<u8>)
    ensures
        wire_encoding(seq![body]) == framed(body),
{
    assert(seq![body].drop_first() == Seq::<Seq<u8>>::empty());
    assert(wire_encoding(Seq::<Seq<u8>>::empty()) == Seq::<u8>::empty());
}

/// What a stream has completed, encoded again, and what it has not ended
/// yet, are the stream itself; and each part holds no line feed of its own.
pub proof fn law_stream_decomposition(stream: Seq<u8>)
    ensures
        wire_encoding(lines_of(stream)) + unfinished(stream) == stream,
        are_line_bodies(lines_of(stream)),
        is_line_body(unfinished(stream)),
    decreases stream.len(),
{
    lemma_line_end(stream);
    if line_end(stream) == stream.len() {
    } else {
        let rest = after_first_line(stream);
        lemma_first_line_splits(stream);
        law_stream_decomposition(rest);
        let lines = seq![first_line(stream)] + lines_of(rest);
        assert(lines.drop_first() == lines_of(rest));
        assert(wire_encoding(lines) + unfinished(rest) =~= framed(first_line(stream)) + (
        wire_encoding(lines_of(rest)) + unfinished(rest)));
    }
}

/// What is read back from the encoding of a run of lines, followed by bytes
/// without a line feed, is that run, with those bytes left unfinished.
pub proof fn lemma_lines_of_wire_encoding(bodies: Seq<Seq<u8>>, tail: Seq<u8>)
    requires
        are_line_bodies(bodies),
        is_line_body(tail),
    ensures
        lines_of(wire_encoding(bodies) + tail) == bodies,
        unfinished(wire_encoding(bodies) + tail) == tail,
    decreases bodies.len(),
{
    let stream = wire_encoding(bodies) + tail;
    if bodies.len() == 0 {
        assert(stream == tail);
        lemma_line_end(tail);
    } else {
        let rest = wire_encoding(bodies.drop_first()) + tail;
        assert(stream =~= framed(bodies.first()) + rest);
        lemma_first_line_of_framed(bodies.first(), rest);
        lemma_line_end(stream);
        lemma_lines_of_wire_encoding(bodies.drop_first(), tail);
        assert(seq![bodies.first()] + bodies.drop_first() == bodies);
    }
}

/// How a stream is cut into chunks does not change its lines: the lines of
/// two chunks are those of the first, then those of what the first left
/// unfinished joined with the second.
pub proof fn law_chunking(first: Seq<u8>, second: Seq<u8>)
    ensures
        lines_of(first + second) == lines_of(first) + lines_of(unfinished(first) + second),
        unfinished(first + second) == unfinished(unfinished(first) + second),
    decreases first.len(),
{
    lemma_line_end(first);
    if line_end(first) == first.len() {
        assert(lines_of(first) + lines_of(first + second) == lines_of(first + second));
    } else {
        let body = first_line(first);
        let rest = after_first_line(first);
        lemma_first_line_splits(first);
        assert(first + second =~= framed(body) + (rest + second));
        lemma_first_line_of_framed(body, rest + second);
        lemma_line_end(first + second);
        law_chunking(rest, second);
        assert(seq![body] + (lines_of(rest) + lines_of(unfinished(rest) + second)) =~= (seq![body]
            + lines_of(rest)) + lines_of(unfinished(rest) + second));
    }
}

/// A text that can travel as one line: it holds no line feed.
pub open spec fn is_line_text(text: Seq<char>) -> bool {
    forall|i: int| 0 <= i < text.len() ==> text[i] != '\n'
}

/// Every member of `texts` can travel as one line.
pub open spec fn are_line_texts(texts: Seq<Seq<char>>) -> bool {
    forall|i: int| 0 <= i < texts.len() ==> is_line_text(#[trigger] texts[i])
}

/// The UTF-8 bytes of each text.
pub open spec fn encoded(texts: Seq<Seq<char>>) -> Seq<Seq<u8>> {
    Seq::new(texts.len(), |i: int| encode_utf8(texts[i]))
}

/// In UTF-8 only the line feed itself is encoded with the byte of a line
/// feed: every byte of a longer encoding has its high bit set.
proof fn lemma_encoded_scalar(scalar: u32)
    requires
        is_scalar(scalar),
    ensures
        is_line_body(encode_scalar(scalar)) <==> scalar != 10,
        encode_scalar(scalar).len() > 0,
{
    let bytes = encode_scalar(scalar);
    if has_width_1_encoding(scalar) {
        assert(scalar <= 0x7F ==> ((scalar & 0x7F) as u8 == 10 <==> scalar == 10)) by (bit_vector);
        assert(bytes[0] == leading_byte_width_1(scalar));
    } else {
        assert((0xC0u8 | ((scalar >> 6) & 0x1F) as u8) >= 0x80) by (bit_vector);
        assert((0xE0u8 | ((scalar >> 12) & 0x0F) as u8) >= 0x80) by (bit_vector);
        assert((0xF0u8 | ((scalar >> 18) & 0x7) as u8) >= 0x80) by (bit_vector);
        assert((0x80u8 | (scalar & 0x3F) as u8) >= 0x80) by (bit_vector);
        assert((0x80u8 | ((scalar >> 6) & 0x3F) as u8) >= 0x80) by (bit_vector);
        assert((0x80u8 | ((scalar >> 12) & 0x3F) as u8) >= 0x80) by (bit_vector);
    }
}

/// A text holds a line feed exactly where its UTF-8 bytes hold one.
pub proof fn lemma_line_text_bytes(text: Seq<char>)
    ensures
        is_line_body(encode_utf8(text)) <==> is_line_text(text),
    decreases text.len(),
{
    if text.len() == 0 {
    } else {
        let head = encode_scalar(text[0] as u32);
        let rest = text.drop_first();
        let tail = encode_utf8(rest);
        char_is_scalar(text[0]);
        lemma_encoded_scalar(text[0] as u32);
        assert('\n' as u32 == 10);
        if text[0] as u32 == 10 {
            char_u32_cast(text[0], 10);
            char_u32_cast('\n', 10);
        }
        lemma_line_text_bytes(rest);
        if is_line_text(text) {
            assert forall|i: int| 0 <= i < rest.len() implies rest[i] != '\n' by {
                assert(rest[i] == text[i + 1]);
            }
            assert(text[0] != '\n');
            assert(is_line_body(head));
            assert forall|i: int| 0 <= i < (head + tail).len() implies (head + tail)[i]
                != LINE_FEED by {
                if i >= head.len() {
                    assert((head + tail)[i] == tail[i - head.len()]);
                } else {
                    assert((head + tail)[i] == head[i]);
                }
            }
        }
        if is_line_body(head + tail) {
            assert forall|i: int| 0 <= i < head.len() implies head[i] != LINE_FEED by {
                assert((head + tail)[i] == head[i]);
            }
            assert forall|i: int| 0 <= i < tail.len() implies tail[i] != LINE_FEED by {
                assert((head + tail)[i + head.len()] == tail[i]);
            }
            assert forall|i: int| 0 <= i < text.len() implies text[i] != '\n' by {
                if i > 0 {
                    assert(text[i] == rest[i - 1]);
                }
            }
        }
    }
}

/// Frames one line for the wire.
pub fn frame_line(line: &str) -> (frame: Vec<u8>)
    ensures
        frame@ == framed(line.spec_bytes()),
{
    let mut frame = line.as_bytes_vec();
    frame.push(LINE_FEED);
    frame
}

} // verus!
