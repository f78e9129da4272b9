//! What one frame of the shell holds: three stacked regions and their text.
use crate::nav::{App, Page};
use ratatui::layout::{Constraint, Direction, Layout, Rect};
use vstd::prelude::*;

verus! {

/// A rectangle of terminal cells: its top-left corner and its size.
#[derive(Clone, Copy, Debug, PartialEq, Eq, Structural)]
pub struct Area {
    pub x: u16,
    pub y: u16,
    pub width: u16,
    pub height: u16,
}

/// How many rows a region asks for when an area is split from top to bottom.
#[derive(Clone, Copy, Debug, PartialEq, Eq, Structural)]
pub enum Extent {
    /// Exactly this many rows.
    Length(u16),
    /// At least this many rows, taking what is left over.
    Min(u16),
}

/// Cells left free on each side of the whole screen.
pub const MARGIN: u16 = 1;

/// Rows of the header region.
pub const HEADER_ROWS: u16 = 3;

/// Rows of the footer region.
pub const FOOTER_ROWS: u16 = 3;

/// `a + b` in `u16`, held at `u16::MAX` instead of overflowing.
pub open spec fn saturating_add(a: u16, b: u16) -> u16 {
    if a + b > u16::MAX {
        u16::MAX
    } else {
        (a + b) as u16
    }
}

/// `area` shrunk by `margin` cells on every side; the empty area at the origin
/// when `area` is too small for that.
pub open spec fn inner_area(area: Area, margin: u16) -> Area {
    let twice: u16 = if 2 * margin > u16::MAX {
        u16::MAX
    } else {
        (2 * margin) as u16
    };
    if area.width < twice || area.height < twice {
        Area { x: 0, y: 0, width: 0, height: 0 }
    } else {
        Area {
            x: saturating_add(area.x, margin),
            y: saturating_add(area.y, margin),
            width: (area.width - twice) as u16,
            height: (area.height - twice) as u16,
        }
    }
}

/// `r` spans the columns of `inner` and lies within its rows.
pub open spec fn band_of(r: Area, inner: Area) -> bool {
    &&& r.x == inner.x
    &&& r.width == inner.width
    &&& inner.y <= r.y
    &&& r.y + r.height <= inner.y + inner.height
}

/// The requests are: exactly `a` rows, at least `m` rows, exactly `b` rows,
/// and `inner` has room for all of them without reaching past the last row.
pub open spec fn fits_three_bands(extents: Seq<Extent>, inner: Area) -> bool {
    &&& extents.len() == 3
    &&& extents[0] is Length
    &&& extents[1] is Min
    &&& extents[2] is Length
    &&& extents[0]->Length_0 + extents[1]->Min_0 + extents[2]->Length_0 <= inner.height
    &&& inner.y + inner.height <= u16::MAX
}

/// `inner` cut into `a` rows at the top, `b` rows at the bottom and the rest
/// between them.
pub open spec fn three_bands(inner: Area, a: u16, b: u16) -> Seq<Area> {
    seq![
        Area { x: inner.x, y: inner.y, width: inner.width, height: a },
        Area {
            x: inner.x,
            y: (inner.y + a) as u16,
            width: inner.width,
            height: (inner.height - a - b) as u16,
        },
        Area { x: inner.x, y: (inner.y + inner.height - b) as u16, width: inner.width, height: b },
    ]
}

/// Relies on ratatui's `Layout::split` in the vertical direction with a uniform
/// margin (default flex, which packs from the start): one area per constraint,
/// each spanning the columns of the area inside the margin and lying within its
/// rows; and, when exact / at-least / exact requests fit, the unique split that
/// gives the first and last their rows and the middle one the rest.
#[verifier::external_body]
fn split_vertical(area: Area, margin: u16, extents: &Vec<Extent>) -> (r: Vec<Area>)
    ensures
        r@.len() == extents@.len(),
        forall|i: int| 0 <= i < r@.len() ==> band_of(#[trigger] r@[i], inner_area(area, margin)),
        fits_three_bands(extents@, inner_area(area, margin)) ==> r@ == three_bands(
            inner_area(area, margin),
            extents@[0]->Length_0,
            extents@[2]->Length_0,
        ),
{
    let constraints: Vec<Constraint> = extents.iter().map(|e| match *e {
        Extent::Length(n) => Constraint::Length(n),
        Extent::Min(n) => Constraint::Min(n),
    }).collect();
    let rect = Rect { x: area.x, y: area.y, width: area.width, height: area.height };
    let layout = Layout::default().direction(Direction::Vertical).margin(margin);
    let parts = layout.constraints(constraints).split(rect);
    parts.iter().map(|r| Area { x: r.x, y: r.y, width: r.width, height: r.height }).collect()
}

/// The row requests of the screen, top to bottom: header, content, footer.
pub open spec fn screen_extents() -> Seq<Extent> {
    seq![Extent::Length(HEADER_ROWS), Extent::Min(0), Extent::Length(FOOTER_ROWS)]
}

/// The title of the header box.
pub open spec fn title_text() -> Seq<char> {
    "terminal wallet"@
}

/// The text of the footer box.
pub open spec fn footer_text() -> Seq<char> {
    "press q to quit"@
}

/// The text that the content region shows on each page.
pub open spec fn page_text_of(p: Page) -> Seq<char> {
    match p {
        Page::Welcome => "solana at your fingertips\n\nPress h to go home"@,
        Page::Home => "welcome home\nyour wallets are here"@,
    }
}

/// Everything one frame draws: the three regions and the text of each.
#[derive(Clone, Copy, Debug, PartialEq, Eq)]
pub struct Screen {
    pub header: Area,
    pub content: Area,
    pub footer: Area,
    pub title: &'static str,
    pub body: &'static str,
    pub footer_text: &'static str,
}

/// The text that the content region shows on `page`.
pub fn page_text(page: Page) -> (r: &'static str)
    ensures
        r@ == page_text_of(page),
{
    match page {
        Page::Welcome => "solana at your fingertips\n\nPress h to go home",
        Page::Home => "welcome home\nyour wallets are here",
    }
}

/// Whether `area` is tall enough, inside the margin, for the header and the
/// footer, and does not reach past the last row.
pub open spec fn screen_fits(area: Area) -> bool {
    fits_three_bands(screen_extents(), inner_area(area, MARGIN))
}

/// The header, content and footer regions on a screen that fits.
pub open spec fn screen_bands(area: Area) -> Seq<Area> {
    three_bands(inner_area(area, MARGIN), HEADER_ROWS, FOOTER_ROWS)
}

/// Splits the screen into header, content and footer, top to bottom, inside a
/// margin of one cell: three rows of header at the top, three rows of footer at
/// the bottom, and the content between them.
pub fn layout(area: Area) -> (r: (Area, Area, Area))
    ensures
        band_of(r.0, inner_area(area, MARGIN)),
        band_of(r.1, inner_area(area, MARGIN)),
        band_of(r.2, inner_area(area, MARGIN)),
        screen_fits(area) ==> r.0 == screen_bands(area)[0] && r.1 == screen_bands(area)[1]
            && r.2 == screen_bands(area)[2],
{
    let extents = vec![Extent::Length(HEADER_ROWS), Extent::Min(0), Extent::Length(FOOTER_ROWS)];
    assert(extents@ =~= screen_extents());
    let parts = split_vertical(area, MARGIN, &extents);
    proof {
        assert(band_of(parts@[0], inner_area(area, MARGIN)));
        assert(band_of(parts@[1], inner_area(area, MARGIN)));
        assert(band_of(parts@[2], inner_area(area, MARGIN)));
    }
    (parts[0], parts[1], parts[2])
}

/// The frame to draw for the state `app` on a screen of size `area`.
pub fn screen(app: &App, area: Area) -> (r: Screen)
    ensures
        band_of(r.header, inner_area(area, MARGIN)),
        band_of(r.content, inner_area(area, MARGIN)),
        band_of(r.footer, inner_area(area, MARGIN)),
        screen_fits(area) ==> r.header == screen_bands(area)[0] && r.content == screen_bands(
            area,
        )[1] && r.footer == screen_bands(area)[2],
        r.title@ == title_text(),
        r.body@ == page_text_of(app.page),
        r.footer_text@ == footer_text(),
{
    let (header, content, footer) = layout(area);
    Screen {
        header,
        content,
        footer,
        title: "terminal wallet",
        body: page_text(app.page),
        footer_text: "press q to quit",
    }
}

} // verus!
