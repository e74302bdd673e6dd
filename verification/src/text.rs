//! Texts as sequences of characters: joining, splitting, stripping.

use vstd::prelude::*;

verus! {

/// `String::push` of the standard library: the character is appended at the
/// end, and nothing else changes.
pub assume_specification[ String::push ](s: &mut String, c: char)
    ensures
        final(s)@ == old(s)@.push(c),
;

/// Whether a character is white space as Unicode defines it, by the
/// property White_Space: the tab, the line feed, the vertical tab, the form
/// feed, the carriage return and the space; the next-line control and the
/// no-break space; and the spaces and the two separators of the other
/// blocks.
pub open spec fn is_whitespace(c: char) -> bool {
    let code = c as u32;
    ||| 0x0009 <= code <= 0x000D
    ||| code == 0x0020
    ||| code == 0x0085
    ||| code == 0x00A0
    ||| code == 0x1680
    ||| 0x2000 <= code <= 0x200A
    ||| code == 0x2028
    ||| code == 0x2029
    ||| code == 0x202F
    ||| code == 0x205F
    ||| code == 0x3000
}

/// `char::is_whitespace` of the standard library: whether the character has
/// the property White_Space.
pub assume_specification[ char::is_whitespace ](c: char) -> (white: bool)
    ensures
        white == is_whitespace(c),
;

/// The text that an optional string holds.
pub open spec fn opt_text(text: Option<String>) -> Option<Seq<char>> {
    match text {
        Some(text) => Some(text@),
        None => None,
    }
}

/// The class of characters that a strip removes.
#[derive(Clone, Copy, Debug)]
pub enum CharClass {
    /// White space, as Unicode defines it.
    Whitespace,
    /// The square brackets `[` and `]`.
    Bracket,
}

impl CharClass {
    pub open spec fn holds(self, c: char) -> bool {
        match self {
            CharClass::Whitespace => is_whitespace(c),
            CharClass::Bracket => c == '[' || c == ']',
        }
    }

    /// Whether `c` is of this class.
    pub fn has(self, c: char) -> (found: bool)
        ensures
            found == self.holds(c),
    {
        match self {
            CharClass::Whitespace => c.is_whitespace(),
            CharClass::Bracket => c == '[' || c == ']',
        }
    }
}

/// `text` without its longest prefix of characters of `class`.
pub open spec fn strip_front(text: Seq<char>, class: CharClass) -> Seq<char>
    decreases text.len(),
{
    if text.len() > 0 && class.holds(text.first()) {
        strip_front(text.drop_first(), class)
    } else {
        text
    }
}

/// `text` without its longest suffix of characters of `class`.
pub open spec fn strip_back(text: Seq<char>, class: CharClass) -> Seq<char>
    decreases text.len(),
{
    if text.len() > 0 && class.holds(text.last()) {
        strip_back(text.drop_last(), class)
    } else {
        text
    }
}

/// `text` without the characters of `class` at its two ends.
pub open spec fn stripped(text: Seq<char>, class: CharClass) -> Seq<char> {
    strip_back(strip_front(text, class), class)
}

/// `text` without the white space at its two ends.
pub open spec fn trimmed(text: Seq<char>) -> Seq<char> {
    stripped(text, CharClass::Whitespace)
}

/// The pieces of `text` between the occurrences of `sep`, in order. There is
/// one piece more than there are separators, so at least one; a piece is
/// empty where two separators are neighbours or one stands at an end.
pub open spec fn split_on(text: Seq<char>, sep: char) -> Seq<Seq<char>>
    decreases text.len(),
{
    if text.len() == 0 {
        seq![Seq::empty()]
    } else {
        let before = split_on(text.drop_last(), sep);
        if text.last() == sep {
            before.push(Seq::empty())
        } else {
            before.drop_last().push(before.last().push(text.last()))
        }
    }
}

/// A line without the carriage return that may end it.
pub open spec fn chomped(line: Seq<char>) -> Seq<char> {
    if line.len() > 0 && line.last() == '\r' {
        line.drop_last()
    } else {
        line
    }
}

/// The lines that `text` fills when it is written out and a line break is
/// put after it: the pieces between its line feeds, each without the
/// carriage return that may end it.
pub open spec fn lines_of(text: Seq<char>) -> Seq<Seq<char>> {
    let pieces = split_on(text, '\n');
    Seq::new(pieces.len(), |i: int| chomped(pieces[i]))
}

/// The parts in order, with `sep` between each two neighbours.
pub open spec fn joined(parts: Seq<Seq<char>>, sep: Seq<char>) -> Seq<char>
    decreases parts.len(),
{
    if parts.len() == 0 {
        Seq::empty()
    } else if parts.len() == 1 {
        parts[0]
    } else {
        joined(parts.drop_last(), sep) + sep + parts.last()
    }
}

/// The texts of a list of character vectors.
pub open spec fn pieces_view(pieces: Seq<Vec<char>>) -> Seq<Seq<char>> {
    Seq::new(pieces.len(), |i: int| pieces[i]@)
}

/// A split has at least one piece.
pub proof fn lemma_split_on_nonempty(text: Seq<char>, sep: char)
    ensures
        split_on(text, sep).len() >= 1,
    decreases text.len(),
{
    if text.len() > 0 {
        lemma_split_on_nonempty(text.drop_last(), sep);
    }
}

/// No piece of a split holds the separator.
pub proof fn lemma_split_on_pieces(text: Seq<char>, sep: char)
    ensures
        forall|i: int, j: int|
            0 <= i < split_on(text, sep).len() && 0 <= j < split_on(text, sep)[i].len()
                ==> #[trigger] split_on(text, sep)[i][j] != sep,
    decreases text.len(),
{
    if text.len() > 0 {
        lemma_split_on_pieces(text.drop_last(), sep);
        lemma_split_on_nonempty(text.drop_last(), sep);
        let before = split_on(text.drop_last(), sep);
        let pieces = split_on(text, sep);
        assert forall|i: int, j: int|
            0 <= i < pieces.len() && 0 <= j < pieces[i].len() implies #[trigger] pieces[i][j]
            != sep by {
            if i < before.len() - 1 {
                assert(pieces[i] == before[i]);
                assert(before[i][j] != sep);
            } else if text.last() != sep && j < before.last().len() {
                assert(before[before.len() - 1][j] != sep);
            }
        }
    }
}

/// No line of a text holds a line feed.
pub proof fn lemma_lines_hold_no_line_feed(text: Seq<char>)
    ensures
        lines_of(text).len() >= 1,
        forall|i: int, j: int|
            0 <= i < lines_of(text).len() && 0 <= j < lines_of(text)[i].len()
                ==> #[trigger] lines_of(text)[i][j] != '\n',
{
    lemma_split_on_nonempty(text, '\n');
    lemma_split_on_pieces(text, '\n');
    let pieces = split_on(text, '\n');
    assert forall|i: int, j: int|
        0 <= i < lines_of(text).len() && 0 <= j < lines_of(text)[i].len() implies
        #[trigger] lines_of(text)[i][j] != '\n' by {
        assert(lines_of(text)[i][j] == pieces[i][j]);
    }
}

/// The characters of `text`, in order.
pub fn chars_of(text: &str) -> (out: Vec<char>)
    ensures
        out@ == text@,
{
    let mut out: Vec<char> = Vec::new();
    for c in it: text.chars()
        invariant
            it.seq() == text@,
            out@ == text@.take(it.index() as int),
    {
        out.push(c);
    }
    out
}

/// The characters of `chars` from index `from` up to index `to`, as a string.
pub(crate) fn text_of(chars: &Vec<char>, from: usize, to: usize) -> (out: String)
    requires
        from <= to <= chars.len(),
    ensures
        out@ == chars@.subrange(from as int, to as int),
{
    let mut out = String::new();
    let mut i: usize = from;
    while i < to
        invariant
            from <= i <= to <= chars.len(),
            out@ == chars@.subrange(from as int, i as int),
        decreases to - i,
    {
        out.push(chars[i]);
        i = i + 1;
    }
    out
}

/// Narrows the range `from..to` of `chars` from both ends, past the
/// characters of `class`.
pub(crate) fn strip_range(chars: &Vec<char>, from: usize, to: usize, class: CharClass) -> (kept: (
    usize,
    usize,
))
    requires
        from <= to <= chars.len(),
    ensures
        from <= kept.0 <= kept.1 <= to,
        chars@.subrange(kept.0 as int, kept.1 as int) == stripped(
            chars@.subrange(from as int, to as int),
            class,
        ),
{
    let mut i: usize = from;
    while i < to && class.has(chars[i])
        invariant
            from <= i <= to <= chars.len(),
            strip_front(chars@.subrange(from as int, to as int), class) == strip_front(
                chars@.subrange(i as int, to as int),
                class,
            ),
        decreases to - i,
    {
        proof {
            let rest = chars@.subrange(i as int, to as int);
            assert(rest.first() == chars@[i as int]);
            assert(rest.drop_first() == chars@.subrange(i + 1, to as int));
        }
        i = i + 1;
    }
    proof {
        let rest = chars@.subrange(i as int, to as int);
        if i < to {
            assert(rest.first() == chars@[i as int]);
        }
        assert(strip_front(rest, class) == rest);
    }
    let mut j: usize = to;
    while i < j && class.has(chars[j - 1])
        invariant
            from <= i <= j <= to <= chars.len(),
            strip_back(chars@.subrange(i as int, to as int), class) == strip_back(
                chars@.subrange(i as int, j as int),
                class,
            ),
        decreases j - i,
    {
        proof {
            let rest = chars@.subrange(i as int, j as int);
            assert(rest.last() == chars@[j - 1]);
            assert(rest.drop_last() == chars@.subrange(i as int, j - 1));
        }
        j = j - 1;
    }
    proof {
        let rest = chars@.subrange(i as int, j as int);
        if i < j {
            assert(rest.last() == chars@[j - 1]);
        }
        assert(strip_back(rest, class) == rest);
    }
    (i, j)
}

/// Splits the range `from..to` of `chars` at each `sep`.
pub(crate) fn split_range(chars: &Vec<char>, from: usize, to: usize, sep: char) -> (pieces: Vec<
    Vec<char>,
>)
    requires
        from <= to <= chars.len(),
    ensures
        pieces_view(pieces@) == split_on(chars@.subrange(from as int, to as int), sep),
{
    let mut pieces: Vec<Vec<char>> = Vec::new();
    let mut current: Vec<char> = Vec::new();
    let mut i: usize = from;
    proof {
        assert(chars@.subrange(from as int, from as int) == Seq::<char>::empty());
        assert(pieces_view(pieces@).push(current@) == seq![Seq::<char>::empty()]);
    }
    while i < to
        invariant
            from <= i <= to <= chars.len(),
            pieces_view(pieces@).push(current@) == split_on(
                chars@.subrange(from as int, i as int),
                sep,
            ),
        decreases to - i,
    {
        let c = chars[i];
        let ghost before = pieces_view(pieces@).push(current@);
        proof {
            let next = chars@.subrange(from as int, i + 1);
            assert(next.drop_last() == chars@.subrange(from as int, i as int));
            assert(next.last() == c);
            assert(before.drop_last() == pieces_view(pieces@));
        }
        if c == sep {
            pieces.push(current);
            current = Vec::new();
            proof {
                assert(pieces_view(pieces@) == before);
                assert(current@ == Seq::<char>::empty());
            }
        } else {
            current.push(c);
        }
        i = i + 1;
    }
    let ghost before = pieces_view(pieces@);
    pieces.push(current);
    assert(pieces_view(pieces@) == before.push(current@));
    pieces
}

/// `text` without the white space at its two ends.
pub fn trim(text: &str) -> (out: String)
    ensures
        out@ == trimmed(text@),
{
    let chars = chars_of(text);
    proof {
        assert(chars@.subrange(0, chars@.len() as int) == chars@);
    }
    let (from, to) = strip_range(&chars, 0, chars.len(), CharClass::Whitespace);
    text_of(&chars, from, to)
}

/// The lines that `text` fills when a line break is put after it. There is
/// at least one, and none of them holds a line feed.
pub fn split_lines(text: &str) -> (lines: Vec<String>)
    ensures
        lines.deep_view() == lines_of(text@),
        lines@.len() >= 1,
        forall|i: int, j: int|
            0 <= i < lines@.len() && 0 <= j < lines@[i]@.len() ==> #[trigger] lines@[i]@[j]
                != '\n',
{
    let chars = chars_of(text);
    proof {
        assert(chars@.subrange(0, chars@.len() as int) == chars@);
        lemma_lines_hold_no_line_feed(text@);
    }
    let pieces = split_range(&chars, 0, chars.len(), '\n');
    let mut lines: Vec<String> = Vec::new();
    let mut i: usize = 0;
    while i < pieces.len()
        invariant
            i <= pieces.len(),
            pieces_view(pieces@) == split_on(text@, '\n'),
            lines.deep_view() == lines_of(text@).take(i as int),
        decreases pieces.len() - i,
    {
        let piece = &pieces[i];
        let n = piece.len();
        let end = if n > 0 && piece[n - 1] == '\r' {
            n - 1
        } else {
            n
        };
        let line = text_of(piece, 0, end);
        proof {
            assert(pieces_view(pieces@)[i as int] == piece@);
            assert(piece@.subrange(0, end as int) == chomped(piece@));
            assert(lines.deep_view().push(line@) == lines_of(text@).take(i + 1));
        }
        lines.push(line);
        i = i + 1;
    }
    proof {
        assert(lines_of(text@).take(i as int) == lines_of(text@));
        assert forall|i: int, j: int|
            0 <= i < lines@.len() && 0 <= j < lines@[i]@.len() implies #[trigger] lines@[i]@[j]
            != '\n' by {
            assert(lines.deep_view()[i] == lines@[i]@);
            assert(lines_of(text@)[i][j] != '\n');
        }
    }
    lines
}

/// Joins the parts into one text, with `sep` between each two neighbours.
pub fn join(parts: &Vec<String>, sep: &str) -> (out: String)
    ensures
        out@ == joined(parts.deep_view(), sep@),
{
    let mut out = String::new();
    let mut i: usize = 0;
    while i < parts.len()
        invariant
            i <= parts.len(),
            out@ == joined(parts.deep_view().take(i as int), sep@),
        decreases parts.len() - i,
    {
        if i > 0 {
            out.append(sep);
        }
        out.append(parts[i].as_str());
        proof {
            let view = parts.deep_view();
            assert(view.take(i + 1).drop_last() == view.take(i as int));
            assert(view.take(i + 1).last() == parts[i as int]@);
        }
        i = i + 1;
    }
    proof {
        assert(parts.deep_view().take(i as int) == parts.deep_view());
    }
    out
}

} // verus!
