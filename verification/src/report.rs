//! The text of the reports that system tools print, taken as bytes: lines,
//! fields, trimming and searching. Only the ASCII white space counts as
//! space.

use vstd::prelude::*;

verus! {

/// The byte that ends a line.
pub const NEWLINE: u8 = 10;

/// The byte is ASCII white space: a blank, or one of the controls from the
/// tabulator to the carriage return.
pub open spec fn is_space(byte: u8) -> bool {
    byte == 32 || 9 <= byte <= 13
}

/// Whether the byte is ASCII white space.
pub fn is_space_byte(byte: u8) -> (space: bool)
    ensures
        space == is_space(byte),
{
    byte == 32 || (9 <= byte && byte <= 13)
}

/// The pieces that are complete, and the piece that is being read.
pub struct Pieces {
    pub done: Seq<Seq<u8>>,
    pub open: Seq<u8>,
}

impl Pieces {
    /// All pieces, the one being read too where it is not empty.
    pub open spec fn all(self) -> Seq<Seq<u8>> {
        if self.open.len() > 0 {
            self.done.push(self.open)
        } else {
            self.done
        }
    }
}

/// The lines of a text read byte by byte: a newline completes the line that
/// is being read, every other byte is added to it.
pub open spec fn scan_lines(text: Seq<u8>) -> Pieces
    decreases text.len(),
{
    if text.len() == 0 {
        Pieces { done: Seq::empty(), open: Seq::empty() }
    } else {
        let before = scan_lines(text.drop_last());
        if text.last() == NEWLINE {
            Pieces { done: before.done.push(before.open), open: Seq::empty() }
        } else {
            Pieces { done: before.done, open: before.open.push(text.last()) }
        }
    }
}

/// The lines of a text, without the newlines that end them. A text that
/// ends with a newline has no empty line after it.
pub open spec fn lines_of(text: Seq<u8>) -> Seq<Seq<u8>> {
    scan_lines(text).all()
}

/// The fields of a text read byte by byte: a space completes the field that
/// is being read, where one is; every other byte is added to it.
pub open spec fn scan_fields(text: Seq<u8>) -> Pieces
    decreases text.len(),
{
    if text.len() == 0 {
        Pieces { done: Seq::empty(), open: Seq::empty() }
    } else {
        let before = scan_fields(text.drop_last());
        if is_space(text.last()) {
            Pieces { done: before.all(), open: Seq::empty() }
        } else {
            Pieces { done: before.done, open: before.open.push(text.last()) }
        }
    }
}

/// The fields of a text: its longest runs of bytes that are not space, in
/// their order.
pub open spec fn fields_of(text: Seq<u8>) -> Seq<Seq<u8>> {
    scan_fields(text).all()
}

/// The list holds these pieces, in this order.
pub open spec fn holds_pieces(list: Seq<Vec<u8>>, pieces: Seq<Seq<u8>>) -> bool {
    &&& list.len() == pieces.len()
    &&& forall|i: int| 0 <= i < list.len() ==> (#[trigger] list[i])@ == pieces[i]
}

/// The lines of a text.
pub fn split_lines(text: &Vec<u8>) -> (lines: Vec<Vec<u8>>)
    ensures
        holds_pieces(lines@, lines_of(text@)),
{
    let mut lines: Vec<Vec<u8>> = Vec::new();
    let mut line: Vec<u8> = Vec::new();
    let mut i: usize = 0;
    while i < text.len()
        invariant
            i <= text.len(),
            holds_pieces(lines@, scan_lines(text@.take(i as int)).done),
            line@ == scan_lines(text@.take(i as int)).open,
        decreases text.len() - i,
    {
        proof {
            assert(text@.take(i + 1).drop_last() =~= text@.take(i as int));
            assert(text@.take(i + 1).last() == text@[i as int]);
        }
        if text[i] == NEWLINE {
            lines.push(line);
            line = Vec::new();
        } else {
            line.push(text[i]);
        }
        i += 1;
    }
    assert(text@.take(text.len() as int) =~= text@);
    if line.len() > 0 {
        lines.push(line);
    }
    lines
}

/// The fields of a text.
pub fn split_fields(text: &Vec<u8>) -> (fields: Vec<Vec<u8>>)
    ensures
        holds_pieces(fields@, fields_of(text@)),
{
    let mut fields: Vec<Vec<u8>> = Vec::new();
    let mut field: Vec<u8> = Vec::new();
    let mut i: usize = 0;
    while i < text.len()
        invariant
            i <= text.len(),
            holds_pieces(fields@, scan_fields(text@.take(i as int)).done),
            field@ == scan_fields(text@.take(i as int)).open,
        decreases text.len() - i,
    {
        proof {
            assert(text@.take(i + 1).drop_last() =~= text@.take(i as int));
            assert(text@.take(i + 1).last() == text@[i as int]);
        }
        if is_space_byte(text[i]) {
            if field.len() > 0 {
                fields.push(field);
                field = Vec::new();
            }
        } else {
            field.push(text[i]);
        }
        i += 1;
    }
    assert(text@.take(text.len() as int) =~= text@);
    if field.len() > 0 {
        fields.push(field);
    }
    fields
}

/// A piece has a byte and no space in it.
pub open spec fn is_word(piece: Seq<u8>) -> bool {
    piece.len() > 0 && forall|k: int| 0 <= k < piece.len() ==> !is_space(#[trigger] piece[k])
}

/// Every field has a byte and no space in it.
pub proof fn law_fields_are_words(text: Seq<u8>)
    ensures
        forall|i: int| 0 <= i < fields_of(text).len() ==> is_word(#[trigger] fields_of(text)[i]),
        forall|i: int|
            0 <= i < scan_fields(text).done.len() ==> is_word(#[trigger] scan_fields(text).done[i]),
        forall|k: int|
            0 <= k < scan_fields(text).open.len() ==> !is_space(
                #[trigger] scan_fields(text).open[k],
            ),
    decreases text.len(),
{
    if text.len() > 0 {
        law_fields_are_words(text.drop_last());
        let before = scan_fields(text.drop_last());
        let after = scan_fields(text);
        assert forall|i: int| 0 <= i < after.done.len() implies is_word(
            #[trigger] after.done[i],
        ) by {
            if i < before.done.len() {
                assert(after.done[i] == before.done[i]);
            } else {
                assert(after.done[i] == before.open);
            }
        }
        assert forall|k: int| 0 <= k < after.open.len() implies !is_space(
            #[trigger] after.open[k],
        ) by {
            if k < before.open.len() {
                assert(after.open[k] == before.open[k]);
            }
        }
    }
    let pieces = scan_fields(text);
    assert forall|i: int| 0 <= i < fields_of(text).len() implies is_word(
        #[trigger] fields_of(text)[i],
    ) by {
        if i < pieces.done.len() {
            assert(fields_of(text)[i] == pieces.done[i]);
        } else {
            assert(fields_of(text)[i] == pieces.open);
        }
    }
}

/// No line has a newline in it.
pub proof fn law_lines_hold_no_newline(text: Seq<u8>)
    ensures
        forall|i: int, k: int|
            0 <= i < lines_of(text).len() && 0 <= k < lines_of(text)[i].len() ==> (
            #[trigger] lines_of(text)[i][k]) != NEWLINE,
        forall|i: int, k: int|
            0 <= i < scan_lines(text).done.len() && 0 <= k < scan_lines(text).done[i].len() ==> (
            #[trigger] scan_lines(text).done[i][k]) != NEWLINE,
        forall|k: int|
            0 <= k < scan_lines(text).open.len() ==> (#[trigger] scan_lines(text).open[k])
                != NEWLINE,
    decreases text.len(),
{
    if text.len() > 0 {
        law_lines_hold_no_newline(text.drop_last());
        let before = scan_lines(text.drop_last());
        let after = scan_lines(text);
        assert forall|i: int, k: int|
            0 <= i < after.done.len() && 0 <= k < after.done[i].len() implies (
        #[trigger] after.done[i][k]) != NEWLINE by {
            if i < before.done.len() {
                assert(after.done[i] == before.done[i]);
                assert(before.done[i][k] != NEWLINE);
            } else {
                assert(after.done[i] == before.open);
                assert(before.open[k] != NEWLINE);
            }
        }
        assert forall|k: int| 0 <= k < after.open.len() implies (#[trigger] after.open[k])
            != NEWLINE by {
            if k < before.open.len() {
                assert(after.open[k] == before.open[k]);
            }
        }
    }
    let pieces = scan_lines(text);
    assert forall|i: int, k: int|
        0 <= i < lines_of(text).len() && 0 <= k < lines_of(text)[i].len() implies (
    #[trigger] lines_of(text)[i][k]) != NEWLINE by {
        if i < pieces.done.len() {
            assert(lines_of(text)[i] == pieces.done[i]);
            assert(pieces.done[i][k] != NEWLINE);
        } else {
            assert(lines_of(text)[i] == pieces.open);
            assert(pieces.open[k] != NEWLINE);
        }
    }
}

/// How many bytes of space a text begins with.
pub open spec fn leading_spaces(text: Seq<u8>) -> nat
    decreases text.len(),
{
    if text.len() == 0 || !is_space(text[0]) {
        0
    } else {
        1 + leading_spaces(text.drop_first())
    }
}

/// How many bytes of space a text ends with.
pub open spec fn trailing_spaces(text: Seq<u8>) -> nat
    decreases text.len(),
{
    if text.len() == 0 || !is_space(text.last()) {
        0
    } else {
        1 + trailing_spaces(text.drop_last())
    }
}

/// The text without the space that it begins and ends with.
pub open spec fn trim_of(text: Seq<u8>) -> Seq<u8> {
    if leading_spaces(text) >= text.len() {
        Seq::empty()
    } else {
        text.subrange(leading_spaces(text) as int, text.len() - trailing_spaces(text))
    }
}

/// A text begins with exactly `count` bytes of space when these are space
/// and the next byte, if there is one, is not.
pub proof fn lemma_leading_spaces(text: Seq<u8>, count: int)
    requires
        0 <= count <= text.len(),
        forall|k: int| 0 <= k < count ==> is_space(#[trigger] text[k]),
        count < text.len() ==> !is_space(text[count]),
    ensures
        leading_spaces(text) == count,
    decreases text.len(),
{
    if count > 0 {
        assert(is_space(text[0]));
        let rest = text.drop_first();
        assert forall|k: int| 0 <= k < count - 1 implies is_space(#[trigger] rest[k]) by {
            assert(rest[k] == text[k + 1]);
        }
        if count < text.len() {
            assert(rest[count - 1] == text[count]);
        }
        lemma_leading_spaces(rest, count - 1);
    }
}

/// A text ends with exactly `count` bytes of space when these are space and
/// the byte before them, if there is one, is not.
pub proof fn lemma_trailing_spaces(text: Seq<u8>, count: int)
    requires
        0 <= count <= text.len(),
        forall|k: int| text.len() - count <= k < text.len() ==> is_space(#[trigger] text[k]),
        count < text.len() ==> !is_space(text[text.len() - count - 1]),
    ensures
        trailing_spaces(text) == count,
    decreases text.len(),
{
    if count > 0 {
        assert(is_space(text[text.len() - 1]));
        let rest = text.drop_last();
        assert forall|k: int| rest.len() - (count - 1) <= k < rest.len() implies is_space(
            #[trigger] rest[k],
        ) by {
            assert(rest[k] == text[k]);
        }
        if count < text.len() {
            assert(rest[rest.len() - (count - 1) - 1] == text[text.len() - count - 1]);
        }
        lemma_trailing_spaces(rest, count - 1);
    }
}

/// The bytes of a text from `from` up to `to`.
pub(crate) fn copy_range(text: &Vec<u8>, from: usize, to: usize) -> (part: Vec<u8>)
    requires
        from <= to <= text.len(),
    ensures
        part@ == text@.subrange(from as int, to as int),
{
    let mut part: Vec<u8> = Vec::new();
    let mut i: usize = from;
    while i < to
        invariant
            from <= i <= to <= text.len(),
            part@ == text@.subrange(from as int, i as int),
        decreases to - i,
    {
        part.push(text[i]);
        assert(part@ =~= text@.subrange(from as int, i + 1));
        i += 1;
    }
    part
}

/// The text without the space that it begins and ends with.
pub fn trim(text: &Vec<u8>) -> (trimmed: Vec<u8>)
    ensures
        trimmed@ == trim_of(text@),
{
    let mut from: usize = 0;
    while from < text.len() && is_space_byte(text[from])
        invariant
            from <= text.len(),
            forall|k: int| 0 <= k < from ==> is_space(#[trigger] text[k]),
        decreases text.len() - from,
    {
        from += 1;
    }
    proof {
        lemma_leading_spaces(text@, from as int);
    }
    if from == text.len() {
        return Vec::new();
    }
    let mut to: usize = text.len();
    while to > from && is_space_byte(text[to - 1])
        invariant
            from <= to <= text.len(),
            !is_space(text[from as int]),
            forall|k: int| to <= k < text.len() ==> is_space(#[trigger] text[k]),
        decreases to,
    {
        to -= 1;
    }
    proof {
        lemma_trailing_spaces(text@, text.len() - to);
    }
    copy_range(text, from, to)
}

/// `part` occurs in `text` at `at`.
pub open spec fn occurs_at(text: Seq<u8>, part: Seq<u8>, at: int) -> bool {
    0 <= at && at + part.len() <= text.len() && text.subrange(at, at + part.len()) == part
}

/// `part` occurs somewhere in `text`.
pub open spec fn has_part(text: Seq<u8>, part: Seq<u8>) -> bool {
    exists|at: int| occurs_at(text, part, at)
}

/// Whether `part` occurs at `at` in `text`.
fn matches_at(text: &Vec<u8>, part: &[u8], at: usize) -> (found: bool)
    requires
        at + part@.len() <= text.len(),
    ensures
        found == occurs_at(text@, part@, at as int),
{
    let mut k: usize = 0;
    while k < part.len()
        invariant
            k <= part@.len(),
            at + part@.len() <= text.len(),
            forall|j: int| 0 <= j < k ==> text[at + j] == part[j],
        decreases part@.len() - k,
    {
        if text[at + k] != part[k] {
            assert(text@.subrange(at as int, at + part@.len())[k as int] != part@[k as int]);
            return false;
        }
        k += 1;
    }
    assert(text@.subrange(at as int, at + part@.len()) =~= part@);
    true
}

/// Whether `part` occurs somewhere in `text`.
pub fn contains_part(text: &Vec<u8>, part: &[u8]) -> (found: bool)
    ensures
        found == has_part(text@, part@),
{
    if part.len() > text.len() {
        return false;
    }
    let last: usize = text.len() - part.len();
    let mut at: usize = 0;
    while at < last
        invariant
            at <= last,
            last == text.len() - part@.len(),
            forall|k: int| 0 <= k < at ==> !occurs_at(text@, part@, k),
        decreases last - at,
    {
        if matches_at(text, part, at) {
            return true;
        }
        at += 1;
    }
    matches_at(text, part, last)
}

/// The position of the first `byte` in `text`, where there is one.
pub fn find_first(text: &Vec<u8>, byte: u8) -> (at: Option<usize>)
    ensures
        match at {
            Some(index) => text@.index_of_first(byte) == Some(index as int),
            None => text@.index_of_first(byte) is None,
        },
{
    let mut i: usize = 0;
    while i < text.len()
        invariant
            i <= text.len(),
            forall|k: int| 0 <= k < i ==> text[k] != byte,
        decreases text.len() - i,
    {
        if text[i] == byte {
            proof {
                text@.index_of_first_ensures(byte);
                assert(text@.contains(byte));
            }
            return Some(i);
        }
        i += 1;
    }
    proof {
        text@.index_of_first_ensures(byte);
    }
    None
}

/// The position of the last `byte` among the first `upto` bytes of `text`,
/// where there is one.
pub(crate) fn find_last_before(text: &Vec<u8>, byte: u8, upto: usize) -> (at: Option<usize>)
    requires
        upto <= text.len(),
    ensures
        match at {
            Some(index) => text@.take(upto as int).index_of_last(byte) == Some(index as int),
            None => text@.take(upto as int).index_of_last(byte) is None,
        },
{
    let ghost head = text@.take(upto as int);
    let mut i: usize = upto;
    while i > 0
        invariant
            i <= upto <= text.len(),
            head == text@.take(upto as int),
            forall|k: int| i <= k < upto ==> head[k] != byte,
        decreases i,
    {
        if text[i - 1] == byte {
            proof {
                head.index_of_last_ensures(byte);
                assert(head[i - 1] == byte);
                assert(head.contains(byte));
            }
            return Some(i - 1);
        }
        i -= 1;
    }
    proof {
        head.index_of_last_ensures(byte);
    }
    None
}

} // verus!
