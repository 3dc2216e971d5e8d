//! The page renderer: a single forward pass over each line that consumes the
//! line marker and the doubled braces and emits the styled text.

use vstd::prelude::*;
use vstd::string::StringExecFns;
use crate::style::{marker_style, push_style_end, push_style_start, style_end, style_of_marker, style_start, Style};
use crate::text::decode;

verus! {

/// The style of a line. Only the first character of a line can select one;
/// an empty line is unstyled.
pub open spec fn line_style(line: Seq<char>) -> Style {
    if line.len() == 0 {
        Style::Unstyled
    } else {
        marker_style(line[0])
    }
}

/// Whether a character is an opening or a closing brace.
pub open spec fn is_brace(c: char) -> bool {
    c == '{' || c == '}'
}

/// The escape sequence that switches `style` on, or nothing where colour is
/// disabled.
pub open spec fn style_switch(style: Style, colour: bool) -> Seq<char> {
    if colour {
        style_start(style)
    } else {
        Seq::empty()
    }
}

/// What the end of a line emits: the end of the styling where colour is
/// enabled, then a newline in any case.
pub open spec fn line_end(colour: bool) -> Seq<char> {
    if colour {
        style_end().push('\n')
    } else {
        seq!['\n']
    }
}

/// What position `j` of the text behind a marker emits. A brace followed by
/// an equal brace switches to the description colour and prints nothing; a
/// brace that follows an equal brace prints nothing; every other character,
/// a single brace too, prints as it is. A missing neighbour matches nothing.
pub open spec fn span_piece(text: Seq<char>, j: int, colour: bool) -> Seq<char>
    recommends
        0 <= j < text.len(),
{
    let c = text[j];
    if !is_brace(c) {
        seq![c]
    } else if j + 1 < text.len() && text[j + 1] == c {
        style_switch(Style::Description, colour)
    } else if j >= 1 && text[j - 1] == c {
        Seq::empty()
    } else {
        seq![c]
    }
}

/// What the first `n` positions of the text behind a marker emit.
pub open spec fn styled_text(text: Seq<char>, n: int, colour: bool) -> Seq<char>
    recommends
        n <= text.len(),
    decreases n,
{
    if n <= 0 {
        Seq::empty()
    } else {
        styled_text(text, n - 1, colour) + span_piece(text, n - 1, colour)
    }
}

/// The output for one line. An unstyled line is printed as it is. A styled
/// line loses its marker, starts with the style's escape sequence and has
/// its doubled braces consumed. Either ends as `line_end` says.
pub open spec fn rendered_line(line: Seq<char>, colour: bool) -> Seq<char> {
    let style = line_style(line);
    if style == Style::Unstyled {
        line + line_end(colour)
    } else {
        style_switch(style, colour) + styled_text(line.drop_first(), line.len() - 1, colour)
            + line_end(colour)
    }
}

/// The output for a page: the output of its lines, one after the other.
pub open spec fn rendered_page(lines: Seq<Seq<char>>, colour: bool) -> Seq<char>
    decreases lines.len(),
{
    if lines.len() == 0 {
        Seq::empty()
    } else {
        rendered_page(lines.drop_last(), colour) + rendered_line(lines.last(), colour)
    }
}

/// Appends what the end of a line emits.
fn push_line_end(out: &mut String, colour: bool)
    ensures
        final(out)@ == old(out)@ + line_end(colour),
{
    if colour {
        push_style_end(out);
    }
    out.push('\n');
}

/// Renders one line onto the end of `out`.
pub fn render_line_into(out: &mut String, line: &str, colour: bool)
    ensures
        final(out)@ == old(out)@ + rendered_line(line@, colour),
{
    let chars = decode(line);
    let n = chars.len();
    let ghost before = out@;
    let ghost text = line@.drop_first();
    let mut styled = false;
    let mut i: usize = 0;
    while i < n
        invariant
            i <= n,
            n == chars@.len(),
            chars@ == line@,
            before == old(out)@,
            text == line@.drop_first(),
            styled <==> i >= 1 && line_style(line@) != Style::Unstyled,
            !styled ==> out@ == before + line@.take(i as int),
            styled ==> out@ == before + style_switch(line_style(line@), colour) + styled_text(
                text,
                i - 1,
                colour,
            ),
        decreases n - i,
    {
        let c = chars[i];
        if !styled {
            let style = if i == 0 {
                style_of_marker(c)
            } else {
                Style::Unstyled
            };
            if style != Style::Unstyled {
                if colour {
                    push_style_start(out, style);
                }
                styled = true;
                assert(line@.take(0) =~= Seq::<char>::empty());
            } else {
                out.push(c);
                assert(line@.take(i + 1) =~= line@.take(i as int).push(c));
            }
        } else {
            assert(text[i - 1] == c);
            if c == '{' || c == '}' {
                let opens_pair = i + 1 < n && chars[i + 1] == c;
                let closes_pair = chars[i - 1] == c;
                if opens_pair {
                    if colour {
                        push_style_start(out, Style::Description);
                    }
                } else if !closes_pair {
                    out.push(c);
                }
            } else {
                out.push(c);
            }
        }
        i += 1;
    }
    assert(line@.take(n as int) =~= line@);
    push_line_end(out, colour);
}

/// Renders one line.
pub fn render_line(line: &str, colour: bool) -> (out: String)
    ensures
        out@ == rendered_line(line@, colour),
{
    let mut out = String::new();
    render_line_into(&mut out, line, colour);
    out
}

/// Renders a page, line by line. No state passes from one line to the next.
pub fn render(lines: &Vec<String>, colour: bool) -> (out: String)
    ensures
        out@ == rendered_page(lines.deep_view(), colour),
{
    let mut out = String::new();
    let mut k: usize = 0;
    while k < lines.len()
        invariant
            k <= lines.len(),
            out@ == rendered_page(lines.deep_view().take(k as int), colour),
        decreases lines.len() - k,
    {
        render_line_into(&mut out, lines[k].as_str(), colour);
        proof {
            let page = lines.deep_view();
            assert(page.take(k + 1).drop_last() =~= page.take(k as int));
            assert(page.take(k + 1).last() == lines[k as int]@);
        }
        k += 1;
    }
    assert(lines.deep_view().take(lines.len() as int) =~= lines.deep_view());
    out
}

} // verus!
