//! Display width of text in terminal columns, and truncation to a width.

use crate::text::{chars_of, string_of};
use vstd::prelude::*;

verus! {

/// The width in columns that `unicode_width` gives a single character, or
/// `None` for a control character.
pub uninterp spec fn char_width(c: char) -> Option<usize>;

/// The width in columns that `unicode_width` gives a whole text. It is not
/// always the sum of the widths of the characters.
pub uninterp spec fn str_width(text: Seq<char>) -> usize;

/// `unicode_width::UnicodeWidthChar::width`: a lookup in the crate's tables.
/// It is computed from the character alone, so that equal characters give
/// equal results; nothing else is claimed of it.
#[verifier::external_body]
fn width_of_char(c: char) -> (width: Option<usize>)
    ensures
        width == char_width(c),
{
    unicode_width::UnicodeWidthChar::width(c)
}

/// `unicode_width::UnicodeWidthStr::width`: a fold over the characters of
/// the text with the crate's tables. It is computed from the text alone, so
/// that equal texts give equal results; nothing else is claimed of it.
#[verifier::external_body]
fn width_of_str(text: &str) -> (width: usize)
    ensures
        width == str_width(text@),
{
    unicode_width::UnicodeWidthStr::width(text)
}

/// The columns a character takes when text is cut to a width: its width, and
/// none for a control character.
pub open spec fn columns(width: Option<usize>) -> nat {
    match width {
        Some(w) => w as nat,
        None => 0,
    }
}

/// The columns of all characters of `s`, added up.
pub open spec fn total_columns(s: Seq<char>) -> nat
    decreases s.len(),
{
    if s.len() == 0 {
        0
    } else {
        total_columns(s.drop_last()) + columns(char_width(s.last()))
    }
}

/// The width after one more character of the given width, where that still
/// fits into `max_width`; `None` where it does not.
pub fn advance_width(width: usize, next_char: Option<usize>, max_width: usize) -> (next: Option<
    usize,
>)
    ensures
        match next {
            Some(sum) => sum == width + columns(next_char) && sum <= max_width,
            None => width + columns(next_char) > max_width,
        },
{
    let w: usize = match next_char {
        Some(w) => w,
        None => 0,
    };
    match width.checked_add(w) {
        Some(sum) => if sum <= max_width {
            Some(sum)
        } else {
            None
        },
        None => None,
    }
}

/// The display width of `s` in columns.
pub fn unicode_display_width(s: String) -> (width: usize)
    ensures
        width == str_width(s@),
{
    width_of_str(s.as_str())
}

/// The longest beginning of `s` whose characters together take no more than
/// `max_width` columns.
pub fn unicode_truncate_to_width(s: String, max_width: usize) -> (cut: String)
    ensures
        cut@.len() <= s@.len(),
        cut@ == s@.take(cut@.len() as int),
        total_columns(cut@) <= max_width,
        forall|longer: int|
            cut@.len() < longer <= s@.len() ==> total_columns(#[trigger] s@.take(longer))
                > max_width,
        total_columns(s@) <= max_width ==> cut@ == s@,
{
    let chars = chars_of(s.as_str());
    let mut width: usize = 0;
    let mut n: usize = 0;
    let mut full: bool = false;
    while n < chars.len() && !full
        invariant
            n <= chars.len(),
            width == total_columns(chars@.take(n as int)),
            width <= max_width,
            full ==> n < chars.len() && total_columns(chars@.take(n + 1)) > max_width,
        decreases chars.len() - n + (if full { 0int } else { 1int }),
    {
        proof {
            assert(chars@.take(n + 1).drop_last() == chars@.take(n as int));
        }
        let w = width_of_char(chars[n]);
        match advance_width(width, w, max_width) {
            Some(sum) => {
                width = sum;
                n += 1;
            },
            None => {
                full = true;
            },
        }
    }
    proof {
        assert forall|longer: int| n < longer <= chars@.len() implies total_columns(
            #[trigger] chars@.take(longer),
        ) > max_width by {
            lemma_total_columns_monotone(chars@, n + 1, longer);
        }
        assert(chars@.take(chars@.len() as int) == chars@);
    }
    string_of(&chars, 0, n)
}

/// A longer beginning of a text takes at least the columns of a shorter one.
pub proof fn lemma_total_columns_monotone(s: Seq<char>, shorter: int, longer: int)
    requires
        0 <= shorter <= longer <= s.len(),
    ensures
        total_columns(s.take(shorter)) <= total_columns(s.take(longer)),
    decreases longer - shorter,
{
    if shorter < longer {
        lemma_total_columns_monotone(s, shorter, longer - 1);
        assert(s.take(longer).drop_last() == s.take(longer - 1));
    }
}

} // verus!
