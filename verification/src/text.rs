//! Text as sequences of characters: splitting at a separator, joining, and
//! cutting a blob into lines.

use vstd::prelude::*;

verus! {

/// `String::push` of the standard library: appends the character to the end
/// of the string. The contract claims that the characters before it stay as
/// they were and that the new one comes last.
pub assume_specification[ String::push ](s: &mut String, ch: char)
    ensures
        final(s)@ == old(s)@.push(ch),
;

/// The characters of `text`, in order.
pub fn chars_of(text: &str) -> (chars: Vec<char>)
    ensures
        chars@ == text@,
{
    let mut chars: Vec<char> = Vec::new();
    for c in it: text.chars()
        invariant
            chars@ == it.seq().take(it.index()),
            it.seq() == text@,
    {
        chars.push(c);
    }
    chars
}

/// The text made of the characters of `chars` from `from` up to `to`.
pub fn string_of(chars: &Vec<char>, from: usize, to: usize) -> (text: String)
    requires
        from <= to <= chars.len(),
    ensures
        text@ == chars@.subrange(from as int, to as int),
{
    let mut text = String::new();
    let mut i: usize = from;
    while i < to
        invariant
            from <= i <= to <= chars.len(),
            text@ == chars@.subrange(from as int, i as int),
        decreases to - i,
    {
        text.push(chars[i]);
        i += 1;
    }
    text
}

/// The pieces of `s` between the occurrences of `sep`. There is one piece more
/// than there are separators, and a piece may be empty.
pub open spec fn split(s: Seq<char>, sep: char) -> Seq<Seq<char>>
    decreases s.len(),
{
    if s.len() == 0 {
        seq![Seq::<char>::empty()]
    } else {
        let before = split(s.drop_last(), sep);
        if s.last() == sep {
            before.push(Seq::empty())
        } else {
            before.drop_last().push(before.last().push(s.last()))
        }
    }
}

/// The pieces in order, with `sep` between each two neighbours.
pub open spec fn join(pieces: Seq<Seq<char>>, sep: Seq<char>) -> Seq<char>
    decreases pieces.len(),
{
    if pieces.len() == 0 {
        Seq::empty()
    } else if pieces.len() == 1 {
        pieces[0]
    } else {
        join(pieces.drop_last(), sep) + sep + pieces.last()
    }
}

/// The slice of `items` that starts at `offset` and holds at most `limit`
/// entries. An `offset` at or past the end gives the empty slice.
pub open spec fn window<T>(items: Seq<T>, offset: nat, limit: nat) -> Seq<T> {
    if offset >= items.len() {
        Seq::empty()
    } else if offset + limit >= items.len() {
        items.subrange(offset as int, items.len() as int)
    } else {
        items.subrange(offset as int, (offset + limit) as int)
    }
}

/// `line` without the carriage return at its end, if it has one.
pub open spec fn strip_cr(line: Seq<char>) -> Seq<char> {
    if line.len() > 0 && line.last() == '\r' {
        line.drop_last()
    } else {
        line
    }
}

/// The lines of `s`. A line ends at a line feed, or at a carriage return
/// directly followed by a line feed; the ending is not part of the line. What
/// follows the last line feed is a line of its own unless it is empty, and a
/// carriage return at its end stays.
pub open spec fn lines_of(s: Seq<char>) -> Seq<Seq<char>> {
    let pieces = split(s, '\n');
    let ended = pieces.drop_last().map_values(|line: Seq<char>| strip_cr(line));
    if pieces.last().len() == 0 {
        ended
    } else {
        ended.push(pieces.last())
    }
}

/// The window is as long as the items from `offset` on allow, at most
/// `limit`, and holds them in order; from an `offset` at or past the end it
/// is empty.
pub proof fn lemma_window_shape<T>(items: Seq<T>, offset: nat, limit: nat)
    ensures
        offset >= items.len() ==> window(items, offset, limit).len() == 0,
        offset < items.len() ==> window(items, offset, limit).len() == if limit < items.len()
            - offset {
            limit as int
        } else {
            items.len() - offset
        },
        forall|i: int|
            0 <= i < window(items, offset, limit).len() ==> #[trigger] window(
                items,
                offset,
                limit,
            )[i] == items[offset + i],
{
}

/// No piece of a split holds the separator.
pub proof fn lemma_split_pieces_hold_no_separator(s: Seq<char>, sep: char)
    ensures
        forall|i: int| 0 <= i < split(s, sep).len() ==> !(#[trigger] split(s, sep)[i]).contains(sep),
    decreases s.len(),
{
    if s.len() > 0 {
        lemma_split_pieces_hold_no_separator(s.drop_last(), sep);
        lemma_split_nonempty(s.drop_last(), sep);
        let before = split(s.drop_last(), sep);
        assert forall|i: int| 0 <= i < split(s, sep).len() implies !(#[trigger] split(
            s,
            sep,
        )[i]).contains(sep) by {
            if i == before.len() - 1 && s.last() != sep {
                // The last piece grew by a character that is not the separator.
                let grown = before.last().push(s.last());
                if grown.contains(sep) {
                    let k = choose|k: int| 0 <= k < grown.len() && grown[k] == sep;
                    assert(before.last()[k] == sep);
                }
            } else if i < before.len() {
                assert(split(s, sep)[i] == before[i]);
            }
        }
    }
}

/// Joining the pieces of a split with the separator gives the text back.
pub proof fn lemma_join_undoes_split(s: Seq<char>, sep: char)
    ensures
        join(split(s, sep), seq![sep]) == s,
    decreases s.len(),
{
    if s.len() > 0 {
        lemma_join_undoes_split(s.drop_last(), sep);
        lemma_split_nonempty(s.drop_last(), sep);
        let before = split(s.drop_last(), sep);
        let after = split(s, sep);
        if s.last() == sep {
            assert(after.drop_last() == before);
        } else if before.len() > 1 {
            assert(after.drop_last() == before.drop_last());
            assert(join(before.drop_last(), seq![sep]) + seq![sep] + before.last().push(s.last())
                == (join(before.drop_last(), seq![sep]) + seq![sep] + before.last()).push(
                s.last(),
            ));
        }
    }
}

/// A text without the separator is its own single piece.
pub proof fn lemma_split_of_plain(s: Seq<char>, sep: char)
    requires
        !s.contains(sep),
    ensures
        split(s, sep) == seq![s],
    decreases s.len(),
{
    if s.len() == 0 {
        assert(s == Seq::<char>::empty());
    } else {
        assert(s.last() != sep) by {
            assert(s[s.len() - 1] == s.last());
        }
        assert(!s.drop_last().contains(sep)) by {
            if s.drop_last().contains(sep) {
                let k = choose|k: int| 0 <= k < s.drop_last().len() && s.drop_last()[k] == sep;
                assert(s[k] == sep);
            }
        }
        lemma_split_of_plain(s.drop_last(), sep);
        assert(s.drop_last().push(s.last()) == s);
        assert(split(s, sep) == seq![s]);
    }
}

/// Splitting two texts that are joined by the separator gives the pieces of
/// the first, then those of the second.
pub proof fn lemma_split_of_joined(a: Seq<char>, b: Seq<char>, sep: char)
    ensures
        split(a + seq![sep] + b, sep) == split(a, sep) + split(b, sep),
    decreases b.len(),
{
    let whole = a + seq![sep] + b;
    if b.len() == 0 {
        assert(whole.drop_last() == a);
        assert(split(a, sep).push(Seq::<char>::empty()) == split(a, sep) + split(b, sep));
    } else {
        lemma_split_of_joined(a, b.drop_last(), sep);
        lemma_split_nonempty(b.drop_last(), sep);
        assert(whole.drop_last() == a + seq![sep] + b.drop_last());
        assert(whole.last() == b.last());
        let front = split(a, sep);
        let back = split(b.drop_last(), sep);
        if b.last() == sep {
            assert((front + back).push(Seq::<char>::empty()) == front + back.push(
                Seq::<char>::empty(),
            ));
        } else {
            assert((front + back).drop_last() == front + back.drop_last());
            assert((front + back).last() == back.last());
            assert((front + back.drop_last()).push(back.last().push(b.last())) == front
                + back.drop_last().push(back.last().push(b.last())));
        }
    }
}

/// A text without a line feed is one line, or none where it is empty.
pub proof fn lemma_lines_of_last_line(s: Seq<char>)
    requires
        !s.contains('\n'),
    ensures
        lines_of(s) == if s.len() == 0 {
            Seq::<Seq<char>>::empty()
        } else {
            seq![s]
        },
{
    lemma_split_of_plain(s, '\n');
    let pieces = split(s, '\n');
    assert(pieces.drop_last().map_values(|line: Seq<char>| strip_cr(line)) == Seq::<
        Seq<char>,
    >::empty());
}

/// The first line of a text is what stands before its first line feed,
/// without a carriage return at its end; the other lines are the lines of
/// what follows the line feed.
pub proof fn lemma_lines_of_first_line(first: Seq<char>, rest: Seq<char>)
    requires
        !first.contains('\n'),
    ensures
        lines_of(first + seq!['\n'] + rest) == seq![strip_cr(first)] + lines_of(rest),
{
    lemma_split_of_plain(first, '\n');
    lemma_split_of_joined(first, rest, '\n');
    lemma_split_nonempty(rest, '\n');
    let back = split(rest, '\n');
    let pieces = split(first + seq!['\n'] + rest, '\n');
    assert(pieces == seq![first] + back);
    assert(pieces.drop_last() == seq![first] + back.drop_last());
    assert(pieces.drop_last().map_values(|line: Seq<char>| strip_cr(line)) == seq![
        strip_cr(first),
    ] + back.drop_last().map_values(|line: Seq<char>| strip_cr(line)));
    assert(pieces.last() == back.last());
}

/// No line holds a line feed.
pub proof fn lemma_lines_hold_no_line_feed(s: Seq<char>)
    ensures
        forall|i: int| 0 <= i < lines_of(s).len() ==> !(#[trigger] lines_of(s)[i]).contains('\n'),
{
    lemma_split_pieces_hold_no_separator(s, '\n');
    lemma_split_nonempty(s, '\n');
    let pieces = split(s, '\n');
    assert forall|i: int| 0 <= i < lines_of(s).len() implies !(#[trigger] lines_of(s)[i]).contains(
        '\n',
    ) by {
        let line = lines_of(s)[i];
        if i < pieces.len() - 1 && line.contains('\n') {
            // A line is a piece, or a piece without its last character.
            let k = choose|k: int| 0 <= k < line.len() && line[k] == '\n';
            assert(pieces[i][k] == '\n');
        }
    }
}

/// Splitting always gives at least one piece.
pub proof fn lemma_split_nonempty(s: Seq<char>, sep: char)
    ensures
        split(s, sep).len() >= 1,
    decreases s.len(),
{
    if s.len() > 0 {
        lemma_split_nonempty(s.drop_last(), sep);
    }
}

/// The pieces of `chars` between the occurrences of `sep`.
pub fn split_chars(chars: &Vec<char>, sep: char) -> (pieces: Vec<String>)
    ensures
        pieces.deep_view() == split(chars@, sep),
{
    let mut pieces: Vec<String> = Vec::new();
    let mut start: usize = 0;
    let mut i: usize = 0;
    proof {
        assert(chars@.subrange(0, 0) == Seq::<char>::empty());
    }
    while i < chars.len()
        invariant
            start <= i <= chars.len(),
            split(chars@.take(i as int), sep) == pieces.deep_view().push(
                chars@.subrange(start as int, i as int),
            ),
        decreases chars.len() - i,
    {
        proof {
            assert(chars@.take(i + 1).drop_last() == chars@.take(i as int));
        }
        let ghost before = pieces.deep_view();
        if chars[i] == sep {
            let piece = string_of(chars, start, i);
            pieces.push(piece);
            start = i + 1;
            proof {
                assert(pieces.deep_view() == before.push(piece@));
                assert(chars@.subrange(start as int, i + 1) == Seq::<char>::empty());
            }
        } else {
            proof {
                assert(chars@.subrange(start as int, i as int).push(chars@[i as int])
                    == chars@.subrange(start as int, i + 1));
            }
        }
        i += 1;
    }
    let piece = string_of(chars, start, i);
    proof {
        assert(chars@.take(i as int) == chars@);
    }
    pieces.push(piece);
    pieces
}

/// The pieces of `text` between the occurrences of `sep`.
pub fn split_text(text: &str, sep: char) -> (pieces: Vec<String>)
    ensures
        pieces.deep_view() == split(text@, sep),
{
    let chars = chars_of(text);
    split_chars(&chars, sep)
}

/// The texts of `pieces` in order, with `sep` between each two neighbours.
pub fn join_texts(pieces: &Vec<String>, sep: &str) -> (text: String)
    ensures
        text@ == join(pieces.deep_view(), sep@),
{
    let mut text = String::new();
    let mut i: usize = 0;
    while i < pieces.len()
        invariant
            i <= pieces.len(),
            text@ == join(pieces.deep_view().take(i as int), sep@),
        decreases pieces.len() - i,
    {
        proof {
            assert(pieces.deep_view().take(i + 1).drop_last() == pieces.deep_view().take(i as int));
        }
        if i > 0 {
            text.append(sep);
        }
        text.append(pieces[i].as_str());
        i += 1;
    }
    assert(pieces.deep_view().take(i as int) == pieces.deep_view());
    text
}

/// Copies out the slice of `lines` that starts at `offset` and holds at most
/// `limit` entries.
pub fn copy_window(lines: &Vec<String>, offset: usize, limit: usize) -> (out: Vec<String>)
    ensures
        out@ == window(lines@, offset as nat, limit as nat),
        out.deep_view() == window(lines.deep_view(), offset as nat, limit as nat),
{
    let mut out: Vec<String> = Vec::new();
    if offset >= lines.len() {
        return out;
    }
    let room: usize = lines.len() - offset;
    let take: usize = if limit < room {
        limit
    } else {
        room
    };
    let mut i: usize = 0;
    while i < take
        invariant
            offset < lines.len(),
            take <= lines.len() - offset,
            i <= take,
            out@ == lines@.subrange(offset as int, offset + i),
        decreases take - i,
    {
        out.push(lines[offset + i].clone());
        i += 1;
    }
    out
}

/// Cuts `text` into its lines.
pub fn split_lines(text: &str) -> (lines: Vec<String>)
    ensures
        lines.deep_view() == lines_of(text@),
{
    let chars = chars_of(text);
    let mut lines: Vec<String> = Vec::new();
    let mut start: usize = 0;
    let mut i: usize = 0;
    while i < chars.len()
        invariant
            start <= i <= chars.len(),
            split(chars@.take(i as int), '\n').len() >= 1,
            split(chars@.take(i as int), '\n').drop_last().map_values(
                |line: Seq<char>| strip_cr(line),
            ) == lines.deep_view(),
            split(chars@.take(i as int), '\n').last() == chars@.subrange(start as int, i as int),
        decreases chars.len() - i,
    {
        proof {
            assert(chars@.take(i + 1).drop_last() == chars@.take(i as int));
            lemma_split_nonempty(chars@.take(i + 1), '\n');
        }
        let ghost before = lines.deep_view();
        let ghost pieces = split(chars@.take(i as int), '\n');
        if chars[i] == '\n' {
            let end: usize = if i > start && chars[i - 1] == '\r' {
                i - 1
            } else {
                i
            };
            let line = string_of(&chars, start, end);
            lines.push(line);
            proof {
                assert(line@ == strip_cr(chars@.subrange(start as int, i as int)));
                assert(lines.deep_view() == before.push(line@));
                assert(pieces.push(Seq::<char>::empty()).drop_last() == pieces);
            }
            start = i + 1;
        } else {
            proof {
                assert(pieces.last().push(chars@[i as int]) == chars@.subrange(
                    start as int,
                    i + 1,
                ));
            }
        }
        i += 1;
    }
    proof {
        assert(chars@.take(i as int) == chars@);
    }
    if start < chars.len() {
        let ghost before = lines.deep_view();
        let line = string_of(&chars, start, i);
        lines.push(line);
        proof {
            assert(lines.deep_view() == before.push(line@));
        }
    }
    lines
}

/// The views of `items`, one for one.
pub open spec fn views<T: View>(items: Seq<T>) -> Seq<T::V> {
    items.map_values(|item: T| item@)
}

/// `text` in lower case, as the standard library's `str::to_lowercase` gives
/// it.
pub uninterp spec fn lowercase(text: Seq<char>) -> Seq<char>;

/// `str::to_lowercase` of the standard library: the lower-case equivalent of
/// the text as a new `String`. It is computed from the text alone, so that
/// equal texts give equal results; nothing else is claimed of it.
#[verifier::external_body]
pub(crate) fn to_lowercase(text: &str) -> (lower: String)
    ensures
        lower@ == lowercase(text@),
{
    text.to_lowercase()
}

} // verus!
