use vstd::prelude::*;

verus! {

/// Columns that the percentage takes up, with the blank before it.
pub const PERCENT_WIDTH: u16 = 5;

/// Widths, in characters, of the parts of a titled progress bar.
#[derive(Clone, Copy, Debug, PartialEq, Eq, Structural)]
pub struct BarSizes {
    pub title: u16,
    pub bar: u16,
}

/// The width of the title: its length, at most half the line.
pub open spec fn title_width(title_chars: int, full_width: int) -> int {
    let half = full_width / 2;
    if title_chars < half {
        title_chars
    } else {
        half
    }
}

/// Whether a line of `full_width` columns has room for the bar besides the title.
pub open spec fn fits(title_chars: int, full_width: int) -> bool {
    title_width(title_chars, full_width) + 1 + PERCENT_WIDTH <= full_width
}

/// Splits a line of `full_width` columns between a title of `title_chars`
/// characters, a blank, the bar and the percentage.
pub fn bar_sizes(title_chars: usize, full_width: u16) -> (r: BarSizes)
    requires
        fits(title_chars as int, full_width as int),
    ensures
        r.title == title_width(title_chars as int, full_width as int),
        r.bar == full_width - r.title - 1 - PERCENT_WIDTH,
{
    let half = full_width / 2;
    let title: u16 = if title_chars < half as usize {
        title_chars as u16
    } else {
        half
    };
    BarSizes { title, bar: full_width - title - 1 - PERCENT_WIDTH }
}

} // verus!
