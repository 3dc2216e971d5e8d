//! Style categories of the page markup and the terminal escape sequences
//! that switch them on and off.

use vstd::prelude::*;
use vstd::string::StringExecFns;

verus! {

/// The styling that is in effect on a line.
#[derive(Clone, Copy, Debug, PartialEq, Eq, Structural)]
pub enum Style {
    /// No marker was seen: the line is printed as it is.
    Unstyled,
    /// A line that starts with `#`.
    Title,
    /// A line that starts with `$`.
    Category,
    /// A line that starts with `>`.
    Explanation,
    /// A line that starts with a backtick.
    Shortcut,
    /// The span between doubled braces.
    Description,
}

/// Switches bold type on.
pub const BOLD_ON: &'static str = "\x1b[1m";

/// Switches bold type off.
pub const BOLD_OFF: &'static str = "\x1b[22m";

/// Sets the foreground back to the terminal's default colour.
pub const RESET_FG: &'static str = "\x1b[39m";

/// Foreground of a title.
pub const TITLE_FG: &'static str = "\x1b[39m";

/// Foreground of a category.
pub const CATEGORY_FG: &'static str = "\x1b[37m";

/// Foreground of an explanation.
pub const EXPLANATION_FG: &'static str = "\x1b[37m";

/// Foreground of a shortcut.
pub const SHORTCUT_FG: &'static str = "\x1b[32m";

/// Foreground of a description span.
pub const DESCRIPTION_FG: &'static str = "\x1b[37m";

/// The style that a character selects when it opens a line. The match is
/// case-sensitive and exact; every character outside the table selects
/// `Unstyled`.
pub open spec fn marker_style(c: char) -> Style {
    if c == '#' {
        Style::Title
    } else if c == '$' {
        Style::Category
    } else if c == '>' {
        Style::Explanation
    } else if c == '`' {
        Style::Shortcut
    } else {
        Style::Unstyled
    }
}

/// Whether a character is one of the four line markers.
pub open spec fn is_marker(c: char) -> bool {
    c == '#' || c == '$' || c == '>' || c == '`'
}

/// The escape sequence that switches a style on. A title is bold and takes
/// the title colour; every other style is a colour alone.
pub open spec fn style_start(style: Style) -> Seq<char> {
    match style {
        Style::Unstyled => Seq::empty(),
        Style::Title => BOLD_ON@ + TITLE_FG@,
        Style::Category => CATEGORY_FG@,
        Style::Explanation => EXPLANATION_FG@,
        Style::Shortcut => SHORTCUT_FG@,
        Style::Description => DESCRIPTION_FG@,
    }
}

/// The escape sequence that ends the styling of a line: bold off, then the
/// default foreground.
pub open spec fn style_end() -> Seq<char> {
    BOLD_OFF@ + RESET_FG@
}

/// Looks a character up in the marker table.
pub fn style_of_marker(c: char) -> (style: Style)
    ensures
        style == marker_style(c),
        style != Style::Unstyled <==> is_marker(c),
        style != Style::Description,
{
    if c == '#' {
        Style::Title
    } else if c == '$' {
        Style::Category
    } else if c == '>' {
        Style::Explanation
    } else if c == '`' {
        Style::Shortcut
    } else {
        Style::Unstyled
    }
}

/// Appends the escape sequence that switches `style` on.
pub fn push_style_start(out: &mut String, style: Style)
    ensures
        final(out)@ == old(out)@ + style_start(style),
{
    match style {
        Style::Unstyled => {},
        Style::Title => {
            out.append(BOLD_ON);
            out.append(TITLE_FG);
        },
        Style::Category => out.append(CATEGORY_FG),
        Style::Explanation => out.append(EXPLANATION_FG),
        Style::Shortcut => out.append(SHORTCUT_FG),
        Style::Description => out.append(DESCRIPTION_FG),
    }
}

/// Appends the escape sequence that ends the styling of a line.
pub fn push_style_end(out: &mut String)
    ensures
        final(out)@ == old(out)@ + style_end(),
{
    out.append(BOLD_OFF);
    out.append(RESET_FG);
}

} // verus!
