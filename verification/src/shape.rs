//! What holds of every rendered line and page: where the escape sequences
//! stand, that the marker is consumed, and that lines do not affect each
//! other.

use vstd::prelude::*;
use crate::render::{line_end, line_style, rendered_line, rendered_page, span_piece, style_switch, styled_text};
use crate::style::{is_marker, style_end, style_start, Style, BOLD_OFF, BOLD_ON, CATEGORY_FG, DESCRIPTION_FG, EXPLANATION_FG, RESET_FG, SHORTCUT_FG, TITLE_FG};

verus! {

/// Every rendered line ends with what `line_end` says: with colour, the one
/// sequence that ends the styling and a newline; without, the newline alone.
pub proof fn lemma_line_ends(line: Seq<char>, colour: bool)
    ensures
        line_end(colour).is_suffix_of(rendered_line(line, colour)),
        line_end(true) == style_end().push('\n'),
        line_end(false) == seq!['\n'],
{
    let out = rendered_line(line, colour);
    let end = line_end(colour);
    assert(out.subrange(out.len() - end.len(), out.len() as int) =~= end);
}

/// With colour, a line that a marker opens comes out as the escape sequence
/// of the marker's style, then what the text behind the marker emits, then
/// the end of the styling and a newline.
pub proof fn lemma_styled_line_shape(line: Seq<char>)
    requires
        line.len() > 0,
        is_marker(line[0]),
    ensures
        line_style(line) != Style::Unstyled,
        line_style(line) != Style::Description,
        rendered_line(line, true) == style_start(line_style(line)) + styled_text(
            line.drop_first(),
            line.len() - 1,
            true,
        ) + style_end().push('\n'),
        style_start(line_style(line)).is_prefix_of(rendered_line(line, true)),
        style_end().push('\n').is_suffix_of(rendered_line(line, true)),
{
    lemma_line_ends(line, true);
    let out = rendered_line(line, true);
    let start = style_start(line_style(line));
    assert(out.subrange(0, start.len() as int) =~= start);
}

/// No escape sequence holds a marker character, nor does a newline.
pub proof fn lemma_escapes_hold_no_marker(style: Style)
    ensures
        forall|k: int| 0 <= k < style_start(style).len() ==> !is_marker(#[trigger] style_start(style)[k]),
        forall|k: int| 0 <= k < style_end().len() ==> !is_marker(#[trigger] style_end()[k]),
        !is_marker('\n'),
{
    reveal_strlit("\x1b[1m");
    reveal_strlit("\x1b[22m");
    reveal_strlit("\x1b[39m");
    reveal_strlit("\x1b[37m");
    reveal_strlit("\x1b[32m");
    assert(BOLD_ON@ =~= seq!['\u{1b}', '[', '1', 'm']);
    assert(BOLD_OFF@ =~= seq!['\u{1b}', '[', '2', '2', 'm']);
    assert(RESET_FG@ =~= seq!['\u{1b}', '[', '3', '9', 'm']);
    assert(TITLE_FG@ =~= seq!['\u{1b}', '[', '3', '9', 'm']);
    assert(CATEGORY_FG@ =~= seq!['\u{1b}', '[', '3', '7', 'm']);
    assert(EXPLANATION_FG@ =~= seq!['\u{1b}', '[', '3', '7', 'm']);
    assert(DESCRIPTION_FG@ =~= seq!['\u{1b}', '[', '3', '7', 'm']);
    assert(SHORTCUT_FG@ =~= seq!['\u{1b}', '[', '3', '2', 'm']);
}

/// Every character that the text behind a marker emits is a character of
/// that text or no marker.
pub proof fn lemma_styled_text_chars(text: Seq<char>, n: int, colour: bool)
    requires
        n <= text.len(),
    ensures
        forall|k: int|
            0 <= k < styled_text(text, n, colour).len() ==> text.contains(
                #[trigger] styled_text(text, n, colour)[k],
            ) || !is_marker(styled_text(text, n, colour)[k]),
    decreases n,
{
    if n > 0 {
        lemma_styled_text_chars(text, n - 1, colour);
        lemma_escapes_hold_no_marker(Style::Description);
        let before = styled_text(text, n - 1, colour);
        let piece = span_piece(text, n - 1, colour);
        let now = styled_text(text, n, colour);
        assert forall|k: int| 0 <= k < now.len() implies text.contains(#[trigger] now[k])
            || !is_marker(now[k]) by {
            if k < before.len() {
                assert(now[k] == before[k]);
            } else {
                assert(now[k] == piece[k - before.len()]);
                if piece =~= seq![text[n - 1]] {
                    assert(text[n - 1] == now[k]);
                } else {
                    assert(piece == style_start(Style::Description));
                }
            }
        }
    }
}

/// The marker of a styled line is consumed: where the character does not
/// occur again behind the first position, the output does not hold it.
pub proof fn lemma_marker_is_consumed(line: Seq<char>, colour: bool)
    requires
        line.len() > 0,
        is_marker(line[0]),
        !line.drop_first().contains(line[0]),
    ensures
        !rendered_line(line, colour).contains(line[0]),
{
    let text = line.drop_first();
    let out = rendered_line(line, colour);
    let start = style_switch(line_style(line), colour);
    let body = styled_text(text, line.len() - 1, colour);
    let end = line_end(colour);
    lemma_escapes_hold_no_marker(line_style(line));
    lemma_styled_text_chars(text, line.len() - 1, colour);
    assert(out == start + body + end);
    assert forall|k: int| 0 <= k < out.len() implies out[k] != line[0] by {
        if k < start.len() {
            assert(out[k] == start[k]);
            assert(start == style_start(line_style(line)));
        } else if k < start.len() + body.len() {
            assert(out[k] == body[k - start.len()]);
        } else {
            let e = k - start.len() - body.len();
            assert(out[k] == end[e]);
            if colour && e < style_end().len() {
                assert(end[e] == style_end()[e]);
            }
        }
    }
}

/// Rendering is a function of the page and the colour setting alone: pages
/// that hold the same lines give the same output.
pub proof fn lemma_render_deterministic(first: Seq<Seq<char>>, second: Seq<Seq<char>>, colour: bool)
    requires
        first.len() == second.len(),
        forall|k: int| 0 <= k < first.len() ==> first[k] =~= second[k],
    ensures
        rendered_page(first, colour) == rendered_page(second, colour),
{
    assert(first =~= second);
}

/// The output for a page of one line is the output for that line.
pub proof fn lemma_page_of_one_line(line: Seq<char>, colour: bool)
    ensures
        rendered_page(seq![line], colour) == rendered_line(line, colour),
{
    reveal_with_fuel(rendered_page, 2);
    assert(seq![line].drop_last() =~= Seq::<Seq<char>>::empty());
    assert(seq![line].last() == line);
    assert(rendered_page(seq![line], colour) =~= rendered_line(line, colour));
}

/// No state passes from one line to the next: the output for two pages put
/// together is the output for the first, then the output for the second.
pub proof fn lemma_page_concat(head: Seq<Seq<char>>, tail: Seq<Seq<char>>, colour: bool)
    ensures
        rendered_page(head + tail, colour) == rendered_page(head, colour) + rendered_page(
            tail,
            colour,
        ),
    decreases tail.len(),
{
    if tail.len() == 0 {
        assert(head + tail =~= head);
        assert(rendered_page(head, colour) + rendered_page(tail, colour) =~= rendered_page(
            head,
            colour,
        ));
    } else {
        lemma_page_concat(head, tail.drop_last(), colour);
        assert((head + tail).drop_last() =~= head + tail.drop_last());
        assert((head + tail).last() == tail.last());
        assert(rendered_page(head + tail, colour) =~= rendered_page(head, colour) + rendered_page(
            tail,
            colour,
        ));
    }
}

} // verus!
