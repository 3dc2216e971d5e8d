//! The text that a reader sees: what rendering leaves of a line once the
//! escape sequences are left out.

use vstd::prelude::*;
use crate::render::{is_brace, line_style, rendered_line, span_piece, styled_text};
use crate::style::{style_end, Style};

verus! {

/// Whether position `j` of a text holds a brace that stands next to an equal
/// brace, before it or behind it.
pub open spec fn doubled(text: Seq<char>, j: int) -> bool {
    &&& 0 <= j < text.len()
    &&& is_brace(text[j])
    &&& ((j + 1 < text.len() && text[j + 1] == text[j]) || (j >= 1 && text[j - 1] == text[j]))
}

/// The positions below `n` that hold no doubled brace, in rising order.
pub open spec fn kept_positions(text: Seq<char>, n: int) -> Seq<int>
    decreases n,
{
    if n <= 0 {
        Seq::empty()
    } else if doubled(text, n - 1) {
        kept_positions(text, n - 1)
    } else {
        kept_positions(text, n - 1).push(n - 1)
    }
}

/// The characters of a text at the given positions.
pub open spec fn chars_at(text: Seq<char>, positions: Seq<int>) -> Seq<char> {
    Seq::new(positions.len(), |k: int| text[positions[k]])
}

/// A text without its doubled braces.
pub open spec fn without_doubled(text: Seq<char>) -> Seq<char> {
    chars_at(text, kept_positions(text, text.len() as int))
}

/// The visible text of a line: the line itself where no marker opens it,
/// else what stands behind the marker, without the doubled braces.
pub open spec fn visible_text(line: Seq<char>) -> Seq<char> {
    if line_style(line) == Style::Unstyled {
        line
    } else {
        without_doubled(line.drop_first())
    }
}

/// The kept positions are positions of the text, none of them holds a
/// doubled brace, none is left out, and they rise strictly: taking the
/// characters at them keeps the order of the text.
pub proof fn lemma_kept_positions_rise(text: Seq<char>, n: int)
    requires
        n <= text.len(),
    ensures
        forall|k: int|
            0 <= k < kept_positions(text, n).len() ==> 0 <= #[trigger] kept_positions(text, n)[k]
                < n && !doubled(text, kept_positions(text, n)[k]),
        forall|a: int, b: int|
            0 <= a < b < kept_positions(text, n).len() ==> #[trigger] kept_positions(text, n)[a]
                < #[trigger] kept_positions(text, n)[b],
        forall|j: int|
            0 <= j < n && !doubled(text, j) ==> #[trigger] kept_positions(text, n).contains(j),
    decreases n,
{
    if n > 0 {
        lemma_kept_positions_rise(text, n - 1);
        let before = kept_positions(text, n - 1);
        let now = kept_positions(text, n);
        if !doubled(text, n - 1) {
            assert(now[before.len() as int] == n - 1);
            assert forall|j: int| 0 <= j < n && !doubled(text, j) implies now.contains(j) by {
                if j < n - 1 {
                    assert(before.contains(j));
                    let k = choose|k: int| 0 <= k < before.len() && before[k] == j;
                    assert(now[k] == j);
                } else {
                    assert(now[before.len() as int] == j);
                }
            }
        }
    }
}

/// Without colour, the first `n` positions behind a marker emit the
/// characters at the kept positions below `n`.
pub proof fn lemma_plain_styled_text(text: Seq<char>, n: int)
    requires
        n <= text.len(),
    ensures
        styled_text(text, n, false) == chars_at(text, kept_positions(text, n)),
    decreases n,
{
    if n > 0 {
        lemma_plain_styled_text(text, n - 1);
        if doubled(text, n - 1) {
            assert(span_piece(text, n - 1, false) =~= Seq::<char>::empty());
        } else {
            assert(span_piece(text, n - 1, false) =~= seq![text[n - 1]]);
        }
    }
    assert(styled_text(text, n, false) =~= chars_at(text, kept_positions(text, n)));
}

/// Rendering without colour is a projection of the line: the output is the
/// visible text of the line, then a newline.
pub proof fn lemma_plain_line_is_visible_text(line: Seq<char>)
    ensures
        rendered_line(line, false) == visible_text(line).push('\n'),
{
    if line_style(line) != Style::Unstyled {
        lemma_plain_styled_text(line.drop_first(), line.len() - 1);
    }
    assert(rendered_line(line, false) =~= visible_text(line).push('\n'));
}

/// A line that no marker opens comes out as it went in: without colour
/// with one newline behind it, with colour with the end of the styling and
/// a newline behind it. Braces and later markers in it are not looked at.
pub proof fn lemma_unstyled_line_is_verbatim(line: Seq<char>)
    requires
        line_style(line) == Style::Unstyled,
    ensures
        rendered_line(line, false) == line.push('\n'),
        rendered_line(line, true) == line + style_end().push('\n'),
{
    assert(rendered_line(line, false) =~= line.push('\n'));
}

/// A text in which no brace stands next to an equal brace has nothing taken
/// out of it.
pub proof fn lemma_without_doubled_keeps_plain_text(text: Seq<char>)
    requires
        forall|j: int| !doubled(text, j),
    ensures
        without_doubled(text) == text,
{
    lemma_all_positions_kept(text, text.len() as int);
    assert(without_doubled(text) =~= text);
}

proof fn lemma_all_positions_kept(text: Seq<char>, n: int)
    requires
        forall|j: int| !doubled(text, j),
        0 <= n,
    ensures
        kept_positions(text, n) == Seq::new(n as nat, |k: int| k),
    decreases n,
{
    if n > 0 {
        lemma_all_positions_kept(text, n - 1);
    }
    assert(kept_positions(text, n) =~= Seq::new(n as nat, |k: int| k));
}

/// Without colour, a line that no marker opens and that holds no doubled
/// brace comes out as the line with its doubled braces taken out, with one
/// newline behind it.
pub proof fn lemma_unstyled_line_collapsed(line: Seq<char>)
    requires
        line_style(line) == Style::Unstyled,
        forall|j: int| !doubled(line, j),
    ensures
        rendered_line(line, false) == without_doubled(line).push('\n'),
{
    lemma_unstyled_line_is_verbatim(line);
    lemma_without_doubled_keeps_plain_text(line);
}

} // verus!
