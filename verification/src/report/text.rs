//! Text by its characters: finding, trimming and copying parts of it.

use vstd::prelude::*;
use vstd::string::*;

verus! {

/// `String::push` of `std`: it appends the character to the end of the text.
pub assume_specification[ String::push ](text: &mut String, ch: char)
    ensures
        final(text)@ == old(text)@.push(ch),
;

/// The characters of `text`, in order.
pub fn chars_of(text: &str) -> (chars: Vec<char>)
    ensures
        chars@ == text@,
{
    let mut chars: Vec<char> = Vec::new();
    for ch in it: text.chars()
        invariant
            it.seq() == text@,
            chars@ == it.seq().take(it.index()),
    {
        chars.push(ch);
    }
    chars
}

/// Appends the characters `chars[from..to]` to `out`.
pub fn push_chars(out: &mut String, chars: &Vec<char>, from: usize, to: usize)
    requires
        from <= to <= chars@.len(),
    ensures
        final(out)@ == old(out)@ + chars@.subrange(from as int, to as int),
{
    let mut at = from;
    while at < to
        invariant
            from <= at <= to <= chars@.len(),
            out@ == old(out)@ + chars@.subrange(from as int, at as int),
        decreases to - at,
    {
        out.push(chars[at]);
        at += 1;
        assert(chars@.subrange(from as int, at as int) == chars@.subrange(
            from as int,
            at as int - 1,
        ).push(chars@[at as int - 1]));
    }
}

/// The text made of the characters `chars[from..to]`.
pub fn text_of(chars: &Vec<char>, from: usize, to: usize) -> (text: String)
    requires
        from <= to <= chars@.len(),
    ensures
        text@ == chars@.subrange(from as int, to as int),
{
    let mut text = String::new();
    push_chars(&mut text, chars, from, to);
    text
}

/// Where `ch` first stands in `text`, or the length of `text` where it
/// does not stand at all.
pub open spec fn position(text: Seq<char>, ch: char) -> int
    decreases text.len(),
{
    if text.len() == 0 || text[0] == ch {
        0
    } else {
        1 + position(text.drop_first(), ch)
    }
}

/// `position` is the least index that holds `ch`, and the length where no
/// index does.
pub proof fn lemma_position(text: Seq<char>, ch: char)
    ensures
        0 <= position(text, ch) <= text.len(),
        forall|i: int| 0 <= i < position(text, ch) ==> text[i] != ch,
        position(text, ch) < text.len() ==> text[position(text, ch)] == ch,
    decreases text.len(),
{
    if text.len() == 0 || text[0] == ch {
    } else {
        let rest = text.drop_first();
        lemma_position(rest, ch);
        assert forall|i: int| 0 <= i < position(text, ch) implies text[i] != ch by {
            if i > 0 {
                assert(text[i] == rest[i - 1]);
            }
        }
        if position(rest, ch) < rest.len() {
            assert(text[position(text, ch)] == rest[position(rest, ch)]);
        }
    }
}

/// An index behind characters that are not `ch`, which holds `ch` or is the
/// length, is the position of `ch`.
pub proof fn lemma_position_is(text: Seq<char>, ch: char, at: int)
    requires
        0 <= at <= text.len(),
        forall|i: int| 0 <= i < at ==> text[i] != ch,
        at < text.len() ==> text[at] == ch,
    ensures
        position(text, ch) == at,
{
    lemma_position(text, ch);
}

/// Finds `ch` in `chars[from..to]`: the index of its first occurrence
/// there, or `to`.
pub fn find_char(chars: &Vec<char>, from: usize, to: usize, ch: char) -> (at: usize)
    requires
        from <= to <= chars@.len(),
    ensures
        at == from + position(chars@.subrange(from as int, to as int), ch),
        from <= at <= to,
{
    let mut at = from;
    while at < to && chars[at] != ch
        invariant
            from <= at <= to <= chars@.len(),
            forall|i: int| from <= i < at ==> chars@[i] != ch,
        decreases to - at,
    {
        at += 1;
    }
    proof {
        let part = chars@.subrange(from as int, to as int);
        assert forall|i: int| 0 <= i < at - from implies part[i] != ch by {
            assert(part[i] == chars@[from + i]);
        }
        lemma_position_is(part, ch, at - from);
    }
    at
}

/// White space, as Unicode defines it by the property `White_Space`.
pub open spec fn is_white_space(ch: char) -> bool {
    let code = ch as u32;
    ||| 0x09 <= code <= 0x0D
    ||| code == 0x20
    ||| code == 0x85
    ||| code == 0xA0
    ||| code == 0x1680
    ||| 0x2000 <= code <= 0x200A
    ||| code == 0x2028
    ||| code == 0x2029
    ||| code == 0x202F
    ||| code == 0x205F
    ||| code == 0x3000
}

/// Whether `ch` is white space.
pub fn is_whitespace(ch: char) -> (white: bool)
    ensures
        white == is_white_space(ch),
{
    let code = ch as u32;
    (0x09 <= code && code <= 0x0D) || code == 0x20 || code == 0x85 || code == 0xA0 || code
        == 0x1680 || (0x2000 <= code && code <= 0x200A) || code == 0x2028 || code == 0x2029
        || code == 0x202F || code == 0x205F || code == 0x3000
}

/// `text` without the white space it begins with.
pub open spec fn trim_start(text: Seq<char>) -> Seq<char>
    decreases text.len(),
{
    if text.len() > 0 && is_white_space(text.first()) {
        trim_start(text.drop_first())
    } else {
        text
    }
}

/// `text` without the white space it ends with.
pub open spec fn trim_end(text: Seq<char>) -> Seq<char>
    decreases text.len(),
{
    if text.len() > 0 && is_white_space(text.last()) {
        trim_end(text.drop_last())
    } else {
        text
    }
}

/// `text` without the white space at either end.
pub open spec fn trimmed(text: Seq<char>) -> Seq<char> {
    trim_end(trim_start(text))
}

/// Trims `chars[from..to]`: the bounds of what is left without the white
/// space at either end.
pub fn trim_bounds(chars: &Vec<char>, from: usize, to: usize) -> (bounds: (usize, usize))
    requires
        from <= to <= chars@.len(),
    ensures
        from <= bounds.0 <= bounds.1 <= to,
        chars@.subrange(bounds.0 as int, bounds.1 as int) == trimmed(
            chars@.subrange(from as int, to as int),
        ),
{
    let mut begin = from;
    while begin < to && is_whitespace(chars[begin])
        invariant
            from <= begin <= to <= chars@.len(),
            trim_start(chars@.subrange(from as int, to as int)) == trim_start(
                chars@.subrange(begin as int, to as int),
            ),
        decreases to - begin,
    {
        assert(chars@.subrange(begin as int, to as int).drop_first() == chars@.subrange(
            begin as int + 1,
            to as int,
        ));
        begin += 1;
    }
    let mut end = to;
    while begin < end && is_whitespace(chars[end - 1])
        invariant
            begin <= end <= to <= chars@.len(),
            trim_end(chars@.subrange(begin as int, to as int)) == trim_end(
                chars@.subrange(begin as int, end as int),
            ),
        decreases end - begin,
    {
        assert(chars@.subrange(begin as int, end as int).drop_last() == chars@.subrange(
            begin as int,
            end as int - 1,
        ));
        end -= 1;
    }
    (begin, end)
}

/// `line` without the carriage return that it may end with.
pub open spec fn without_carriage_return(line: Seq<char>) -> Seq<char> {
    if line.len() > 0 && line.last() == '\r' {
        line.drop_last()
    } else {
        line
    }
}

/// The lines of `text`. A line ends with a line feed, or with a carriage
/// return and a line feed; neither belongs to the line. What follows the
/// last line feed is a line too, unless it is empty.
pub open spec fn text_lines(text: Seq<char>) -> Seq<Seq<char>>
    decreases text.len(),
    via text_lines_decreases
{
    if text.len() == 0 {
        Seq::empty()
    } else if position(text, '\n') == text.len() {
        seq![text]
    } else {
        seq![without_carriage_return(text.take(position(text, '\n')))] + text_lines(
            text.skip(position(text, '\n') + 1),
        )
    }
}

#[via_fn]
proof fn text_lines_decreases(text: Seq<char>) {
    lemma_position(text, '\n');
}

/// Where the line that begins at `from` ends, and where the next begins.
pub struct LineBounds {
    /// The index behind the last character of the line.
    pub end: usize,
    /// The index at which the next line begins; the length of the text
    /// where this line is the last.
    pub next: usize,
}

/// Finds the line of `chars` that begins at `from`.
pub fn line_at(chars: &Vec<char>, from: usize) -> (bounds: LineBounds)
    requires
        from < chars@.len(),
    ensures
        from <= bounds.end <= bounds.next <= chars@.len(),
        from < bounds.next,
        text_lines(chars@.skip(from as int)) == seq![
            chars@.subrange(from as int, bounds.end as int),
        ] + text_lines(chars@.skip(bounds.next as int)),
{
    let len = chars.len();
    let feed = find_char(chars, from, len, '\n');
    let ghost rest = chars@.skip(from as int);
    assert(rest == chars@.subrange(from as int, len as int));
    if feed == len {
        assert(chars@.skip(len as int) == Seq::<char>::empty());
        assert(text_lines(Seq::<char>::empty()) == Seq::<Seq<char>>::empty());
        LineBounds { end: len, next: len }
    } else {
        assert(rest.take(feed - from) == chars@.subrange(from as int, feed as int));
        assert(rest.skip(feed - from + 1) == chars@.skip(feed as int + 1));
        if feed > from && chars[feed - 1] == '\r' {
            assert(chars@.subrange(from as int, feed as int).drop_last() == chars@.subrange(
                from as int,
                feed as int - 1,
            ));
            LineBounds { end: feed - 1, next: feed + 1 }
        } else {
            LineBounds { end: feed, next: feed + 1 }
        }
    }
}

/// The texts by their characters.
pub open spec fn views_of(texts: Seq<String>) -> Seq<Seq<char>> {
    Seq::new(texts.len(), |i: int| texts[i]@)
}

/// The lines of `text`, each as a text of its own.
pub fn split_lines(text: &str) -> (lines: Vec<String>)
    ensures
        views_of(lines@) == text_lines(text@),
{
    let chars = chars_of(text);
    let mut lines: Vec<String> = Vec::new();
    let mut at: usize = 0;
    assert(chars@.skip(0) == chars@);
    assert(views_of(lines@) + text_lines(chars@) == text_lines(chars@));
    while at < chars.len()
        invariant
            at <= chars@.len(),
            views_of(lines@) + text_lines(chars@.skip(at as int)) == text_lines(chars@),
        decreases chars@.len() - at,
    {
        let ghost before = views_of(lines@);
        let line = line_at(&chars, at);
        let found = text_of(&chars, at, line.end);
        lines.push(found);
        proof {
            let this = chars@.subrange(at as int, line.end as int);
            let rest = text_lines(chars@.skip(line.next as int));
            assert(views_of(lines@) == before.push(this));
            assert(before.push(this) + rest == before + (seq![this] + rest));
        }
        at = line.next;
    }
    proof {
        assert(chars@.skip(at as int) == Seq::<char>::empty());
        assert(text_lines(Seq::<char>::empty()) == Seq::<Seq<char>>::empty());
        assert(views_of(lines@) + Seq::<Seq<char>>::empty() == views_of(lines@));
    }
    lines
}

/// `text`, set to the right in a field of `width` characters, with `pad`
/// in every place that is left empty, and in every place where `text`
/// itself holds a space.
pub open spec fn padded_left(text: Seq<char>, width: nat, pad: char) -> Seq<char> {
    let fill = if text.len() < width {
        (width - text.len()) as nat
    } else {
        0
    };
    Seq::new(
        fill + text.len(),
        |i: int|
            if i < fill || text[i - fill] == ' ' {
                pad
            } else {
                text[i - fill]
            },
    )
}

/// Sets `text` to the right in a field of `width` characters filled with
/// `pad`; a space in `text` becomes `pad` too.
pub fn pad_left(text: &str, width: usize, pad: char) -> (padded: String)
    ensures
        padded@ == padded_left(text@, width as nat, pad),
{
    let chars = chars_of(text);
    let fill: usize = if chars.len() < width {
        width - chars.len()
    } else {
        0
    };
    let ghost target = padded_left(text@, width as nat, pad);
    let mut padded = String::new();
    let mut done: usize = 0;
    while done < fill
        invariant
            done <= fill,
            fill + chars@.len() == target.len(),
            target == padded_left(chars@, width as nat, pad),
            fill == if chars@.len() < width {
                (width - chars@.len()) as nat
            } else {
                0
            },
            padded@ == target.take(done as int),
        decreases fill - done,
    {
        padded.push(pad);
        done += 1;
        assert(target.take(done as int) == target.take(done as int - 1).push(pad));
    }
    let mut at: usize = 0;
    while at < chars.len()
        invariant
            at <= chars@.len(),
            fill + chars@.len() == target.len(),
            target == padded_left(chars@, width as nat, pad),
            fill == if chars@.len() < width {
                (width - chars@.len()) as nat
            } else {
                0
            },
            padded@ == target.take(fill + at),
        decreases chars@.len() - at,
    {
        let ch = chars[at];
        let shown = if ch == ' ' {
            pad
        } else {
            ch
        };
        padded.push(shown);
        at += 1;
        assert(target.take(fill + at) == target.take(fill + at - 1).push(shown));
    }
    assert(target.take(fill + at) == target);
    padded
}

/// `text` with `to` in place of every `from`.
pub open spec fn replaced(text: Seq<char>, from: char, to: char) -> Seq<char> {
    Seq::new(
        text.len(),
        |i: int|
            if text[i] == from {
                to
            } else {
                text[i]
            },
    )
}

/// Puts `to` in place of every `from` in `text`.
pub fn replace_char(text: &str, from: char, to: char) -> (changed: String)
    ensures
        changed@ == replaced(text@, from, to),
{
    let chars = chars_of(text);
    let ghost target = replaced(text@, from, to);
    let mut changed = String::new();
    let mut at: usize = 0;
    while at < chars.len()
        invariant
            at <= chars@.len(),
            chars@ == text@,
            target == replaced(text@, from, to),
            changed@ == target.take(at as int),
        decreases chars@.len() - at,
    {
        let ch = chars[at];
        let shown = if ch == from {
            to
        } else {
            ch
        };
        changed.push(shown);
        at += 1;
        assert(target.take(at as int) == target.take(at as int - 1).push(shown));
    }
    assert(target.take(at as int) == target);
    changed
}

} // verus!
