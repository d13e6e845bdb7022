//! The two columns: each row pairs a line of the ASCII art with a line of
//! information, and a palette of sixteen colours may follow.

use crate::paint::{is_rgb_code, is_rgb_paint, left_padded, paint_rgb, reset, sgr, MAX_WIDTH};
use vstd::prelude::*;
use vstd::string::*;

verus! {

/// The red part of the colour of the art.
pub const ART_RED: u8 = 173;

/// The green part of the colour of the art.
pub const ART_GREEN: u8 = 216;

/// The blue part of the colour of the art.
pub const ART_BLUE: u8 = 230;

/// The text of one swatch of the palette.
pub const SWATCH: &'static str = "██";

/// The views of `lines`, in order.
pub open spec fn str_views(lines: Seq<&str>) -> Seq<Seq<char>> {
    lines.map_values(|line: &str| line@)
}

/// The views of `lines`, in order.
pub open spec fn string_views(lines: Seq<String>) -> Seq<Seq<char>> {
    lines.map_values(|line: String| line@)
}

/// The number of characters of the longest of `lines`.
pub open spec fn widest(lines: Seq<Seq<char>>) -> nat
    decreases lines.len(),
{
    if lines.len() == 0 {
        0
    } else if widest(lines.drop_last()) >= lines.last().len() {
        widest(lines.drop_last())
    } else {
        lines.last().len()
    }
}

/// The line `i` of `lines`, or the empty text where there is none.
pub open spec fn line_or_empty(lines: Seq<Seq<char>>, i: int) -> Seq<char> {
    if 0 <= i < lines.len() {
        lines[i]
    } else {
        Seq::<char>::empty()
    }
}

/// The number of rows that `art` and `info` take side by side.
pub open spec fn row_count(art: Seq<Seq<char>>, info: Seq<Seq<char>>) -> nat {
    if art.len() >= info.len() {
        art.len()
    } else {
        info.len()
    }
}

/// Whether `out` is a row: the line `art` of the art, coloured and
/// left-aligned in `width` columns, then a space and the line `info`.
pub open spec fn is_row(out: Seq<char>, art: Seq<char>, width: nat, info: Seq<char>) -> bool {
    exists|cell: Seq<char>|
        #![trigger is_rgb_paint(cell, art, ART_RED, ART_GREEN, ART_BLUE, width)]
        is_rgb_paint(cell, art, ART_RED, ART_GREEN, ART_BLUE, width) && out == cell + " "@ + info
}

/// The sixteen colours of the palette, each as red, green and blue.
pub open spec fn palette() -> Seq<(u8, u8, u8)> {
    seq![
        (0u8, 0u8, 0u8),
        (128u8, 0u8, 0u8),
        (0u8, 128u8, 0u8),
        (128u8, 128u8, 0u8),
        (0u8, 0u8, 128u8),
        (128u8, 0u8, 128u8),
        (0u8, 128u8, 128u8),
        (192u8, 192u8, 192u8),
        (128u8, 128u8, 128u8),
        (255u8, 0u8, 0u8),
        (0u8, 255u8, 0u8),
        (255u8, 255u8, 0u8),
        (0u8, 0u8, 255u8),
        (255u8, 0u8, 255u8),
        (0u8, 255u8, 255u8),
        (255u8, 255u8, 255u8),
    ]
}

/// The texts of `cells`, each followed by a space.
pub open spec fn spaced(cells: Seq<Seq<char>>) -> Seq<char>
    decreases cells.len(),
{
    if cells.len() == 0 {
        Seq::<char>::empty()
    } else {
        spaced(cells.drop_last()) + cells.last() + " "@
    }
}

/// Whether `cells` are swatches in the first colours of `colors`, one for
/// each of `cells`.
pub open spec fn are_swatches(cells: Seq<Seq<char>>, colors: Seq<(u8, u8, u8)>) -> bool {
    &&& cells.len() <= colors.len()
    &&& forall|k: int|
        0 <= k < cells.len() ==> is_rgb_paint(
            #[trigger] cells[k],
            SWATCH@,
            colors[k].0,
            colors[k].1,
            colors[k].2,
            0,
        )
}

/// Whether `out` is the line of the palette: a swatch in each of the
/// sixteen colours, each followed by a space.
pub open spec fn is_palette_line(out: Seq<char>) -> bool {
    exists|cells: Seq<Seq<char>>|
        #![trigger are_swatches(cells, palette())]
        are_swatches(cells, palette()) && cells.len() == palette().len() && out == spaced(cells)
}

/// Whether `out` shows `art` beside `info`: one row for each line of the
/// longer of the two, the art left-aligned in the width of its longest
/// line, a missing line blank; and after the rows, where `show_colors` is
/// set, an empty line and the line of the palette.
pub open spec fn is_display(
    out: Seq<Seq<char>>,
    art: Seq<Seq<char>>,
    info: Seq<Seq<char>>,
    show_colors: bool,
) -> bool {
    let rows = row_count(art, info);
    &&& out.len() == rows + if show_colors {
        2nat
    } else {
        0nat
    }
    &&& forall|i: int|
        0 <= i < rows ==> is_row(
            #[trigger] out[i],
            line_or_empty(art, i),
            widest(art),
            line_or_empty(info, i),
        )
    &&& show_colors ==> out[rows as int] == Seq::<char>::empty() && is_palette_line(
        out[rows as int + 1],
    )
}

/// The sixteen colours of the palette.
pub fn palette_colors() -> (colors: Vec<(u8, u8, u8)>)
    ensures
        colors@ == palette(),
{
    let mut colors: Vec<(u8, u8, u8)> = Vec::new();
    colors.push((0, 0, 0));
    colors.push((128, 0, 0));
    colors.push((0, 128, 0));
    colors.push((128, 128, 0));
    colors.push((0, 0, 128));
    colors.push((128, 0, 128));
    colors.push((0, 128, 128));
    colors.push((192, 192, 192));
    colors.push((128, 128, 128));
    colors.push((255, 0, 0));
    colors.push((0, 255, 0));
    colors.push((255, 255, 0));
    colors.push((0, 0, 255));
    colors.push((255, 0, 255));
    colors.push((0, 255, 255));
    colors.push((255, 255, 255));
    assert(colors@ =~= palette());
    colors
}

/// The line of the palette from its swatches as they were painted: each
/// swatch followed by a space.
pub fn palette_text(cells: &Vec<String>) -> (line: String)
    ensures
        line@ == spaced(string_views(cells@)),
{
    let mut line = String::new();
    let mut k: usize = 0;
    assert(string_views(cells@).take(0) == Seq::<Seq<char>>::empty());
    while k < cells.len()
        invariant
            k <= cells.len(),
            line@ == spaced(string_views(cells@).take(k as int)),
        decreases cells.len() - k,
    {
        assert(string_views(cells@).take(k + 1).drop_last() == string_views(cells@).take(k as int));
        assert(string_views(cells@).take(k + 1).last() == cells@[k as int]@);
        line.append(cells[k].as_str());
        line.append(" ");
        k = k + 1;
    }
    assert(string_views(cells@).take(cells.len() as int) == string_views(cells@));
    line
}

/// The line of the palette, as the terminal gets it.
pub fn display_color_palette() -> (line: String)
    ensures
        is_palette_line(line@),
{
    let colors = palette_colors();
    let mut cells: Vec<String> = Vec::new();
    let mut k: usize = 0;
    while k < colors.len()
        invariant
            k <= colors.len(),
            colors@ == palette(),
            cells@.len() == k,
            are_swatches(string_views(cells@), palette()),
        decreases colors.len() - k,
    {
        let (r, g, b) = colors[k];
        let cell = paint_rgb(SWATCH, r, g, b, 0);
        assert(is_rgb_paint(cell@, SWATCH@, r, g, b, 0));
        let ghost painted = string_views(cells@);
        cells.push(cell);
        assert forall|j: int| 0 <= j < k + 1 implies is_rgb_paint(
            #[trigger] string_views(cells@)[j],
            SWATCH@,
            palette()[j].0,
            palette()[j].1,
            palette()[j].2,
            0,
        ) by {
            if j < k {
                assert(string_views(cells@)[j] == painted[j]);
            }
        }
        k = k + 1;
    }
    assert(are_swatches(string_views(cells@), palette()));
    palette_text(&cells)
}

/// The width of the art: the number of characters of its longest line.
pub fn art_width(ascii_art: &[&str]) -> (width: usize)
    ensures
        width == widest(str_views(ascii_art@)),
{
    let mut width: usize = 0;
    let mut i: usize = 0;
    assert(str_views(ascii_art@).take(0) == Seq::<Seq<char>>::empty());
    while i < ascii_art.len()
        invariant
            i <= ascii_art.len(),
            width == widest(str_views(ascii_art@).take(i as int)),
        decreases ascii_art.len() - i,
    {
        let n = ascii_art[i].unicode_len();
        assert(str_views(ascii_art@).take(i + 1).drop_last() == str_views(ascii_art@).take(
            i as int,
        ));
        assert(str_views(ascii_art@).take(i + 1).last() == ascii_art@[i as int]@);
        if n > width {
            width = n;
        }
        i = i + 1;
    }
    assert(str_views(ascii_art@).take(ascii_art.len() as int) == str_views(ascii_art@));
    width
}

/// One row from its art column as it was painted: the column, a space and
/// the line `info`.
pub fn row_text(cell: &str, info: &str) -> (row: String)
    ensures
        row@ == cell@ + " "@ + info@,
{
    let mut row = cell.to_owned();
    row.append(" ");
    row.append(info);
    row
}

/// One row: the line `art` of the art, coloured and left-aligned in `width`
/// columns, then a space and the line `info`.
pub fn display_row(art: &str, width: usize, info: &str) -> (row: String)
    requires
        width <= MAX_WIDTH,
    ensures
        is_row(row@, art@, width as nat, info@),
{
    let cell = paint_rgb(art, ART_RED, ART_GREEN, ART_BLUE, width);
    assert(is_rgb_paint(cell@, art@, ART_RED, ART_GREEN, ART_BLUE, width as nat));
    row_text(cell.as_str(), info)
}

/// The lines that show `ascii_art` beside `info`, as the terminal gets
/// them, with the palette after them where `show_colors` is set. No line of
/// the art may be longer than `MAX_WIDTH` characters.
pub fn display_info(ascii_art: &[&str], info: &[String], show_colors: bool) -> (out: Vec<String>)
    requires
        widest(str_views(ascii_art@)) <= MAX_WIDTH,
    ensures
        is_display(string_views(out@), str_views(ascii_art@), string_views(info@), show_colors),
        !show_colors ==> out@.len() == row_count(str_views(ascii_art@), string_views(info@)),
        forall|i: int|
            ascii_art@.len() <= i < info@.len() ==> is_blank_row(
                #[trigger] out@[i]@,
                widest(str_views(ascii_art@)),
                info@[i]@,
            ),
{
    let width = art_width(ascii_art);
    let rows = if ascii_art.len() >= info.len() {
        ascii_art.len()
    } else {
        info.len()
    };
    let ghost art = str_views(ascii_art@);
    let ghost texts = string_views(info@);
    let mut out: Vec<String> = Vec::new();
    let mut i: usize = 0;
    while i < rows
        invariant
            i <= rows,
            rows == row_count(art, texts),
            art == str_views(ascii_art@),
            texts == string_views(info@),
            width == widest(art),
            width <= MAX_WIDTH,
            out@.len() == i,
            forall|j: int|
                0 <= j < i ==> is_row(
                    #[trigger] string_views(out@)[j],
                    line_or_empty(art, j),
                    widest(art),
                    line_or_empty(texts, j),
                ),
        decreases rows - i,
    {
        let art_line: &str = if i < ascii_art.len() {
            ascii_art[i]
        } else {
            ""
        };
        let info_line: &str = if i < info.len() {
            info[i].as_str()
        } else {
            ""
        };
        proof {
            reveal_strlit("");
            assert(""@ =~= Seq::<char>::empty());
        }
        assert(art_line@ == line_or_empty(art, i as int));
        assert(info_line@ == line_or_empty(texts, i as int));
        let row = display_row(art_line, width, info_line);
        let ghost old_out = out@;
        out.push(row);
        assert(string_views(out@)[i as int] == row@);
        assert forall|j: int| 0 <= j < i + 1 implies is_row(
            #[trigger] string_views(out@)[j],
            line_or_empty(art, j),
            widest(art),
            line_or_empty(texts, j),
        ) by {
            if j < i {
                assert(string_views(out@)[j] == string_views(old_out)[j]);
            }
        }
        i = i + 1;
    }
    let ghost shown = string_views(out@);
    if show_colors {
        out.push(String::new());
        let line = display_color_palette();
        out.push(line);
        assert(string_views(out@)[rows as int] == Seq::<char>::empty());
        assert(string_views(out@)[rows + 1] == line@);
        assert forall|j: int| 0 <= j < rows implies is_row(
            #[trigger] string_views(out@)[j],
            line_or_empty(art, j),
            widest(art),
            line_or_empty(texts, j),
        ) by {
            assert(string_views(out@)[j] == shown[j]);
        }
    }
    proof {
        rows_pair_art_with_info(string_views(out@), art, texts, show_colors);
        assert forall|i: int| ascii_art@.len() <= i < info@.len() implies is_blank_row(
            #[trigger] out@[i]@,
            widest(art),
            info@[i]@,
        ) by {
            assert(string_views(out@)[i] == out@[i]@);
            assert(texts[i] == info@[i]@);
        }
    }
    out
}

/// Whether `cell` is a blank art column of `width` spaces, alone or
/// between a style of the colour of the art and the reset sequence.
pub open spec fn is_blank_cell(cell: Seq<char>, width: nat) -> bool {
    let blank = Seq::new(width, |i: int| ' ');
    cell == blank || exists|code: Seq<char>|
        #![trigger sgr(code)]
        is_rgb_code(code, ART_RED, ART_GREEN, ART_BLUE) && cell == sgr(code) + blank + reset()
}

/// Whether `row` is a row without art: a blank art column of `width`
/// spaces, a space and the line `info`.
pub open spec fn is_blank_row(row: Seq<char>, width: nat, info: Seq<char>) -> bool {
    exists|cell: Seq<char>|
        #![trigger is_blank_cell(cell, width)]
        is_blank_cell(cell, width) && row == cell + " "@ + info
}

/// The display has one row for each line of the longer of the art and the
/// information, and nothing else unless the palette is shown. A row that
/// has a line of the art carries that line and the line of information
/// beside it, if there is one; a row past the last line of the art has a
/// blank art column before its line of information.
pub proof fn rows_pair_art_with_info(
    out: Seq<Seq<char>>,
    art: Seq<Seq<char>>,
    info: Seq<Seq<char>>,
    show_colors: bool,
)
    requires
        is_display(out, art, info, show_colors),
    ensures
        row_count(art, info) >= art.len(),
        row_count(art, info) >= info.len(),
        row_count(art, info) == art.len() || row_count(art, info) == info.len(),
        !show_colors ==> out.len() == row_count(art, info),
        show_colors ==> out.len() == row_count(art, info) + 2,
        forall|i: int|
            0 <= i < art.len() ==> is_row(
                #[trigger] out[i],
                art[i],
                widest(art),
                line_or_empty(info, i),
            ),
        forall|i: int|
            art.len() <= i < info.len() ==> is_blank_row(#[trigger] out[i], widest(art), info[i]),
{
    let width = widest(art);
    let none = Seq::<char>::empty();
    let blank = Seq::new(width, |i: int| ' ');
    assert(left_padded(none, width) =~= blank);
    assert forall|i: int| art.len() <= i < info.len() implies is_blank_row(
        #[trigger] out[i],
        width,
        info[i],
    ) by {
        assert(is_row(out[i], line_or_empty(art, i), width, line_or_empty(info, i)));
        let cell = choose|cell: Seq<char>|
            #![trigger is_rgb_paint(cell, none, ART_RED, ART_GREEN, ART_BLUE, width)]
            is_rgb_paint(cell, none, ART_RED, ART_GREEN, ART_BLUE, width) && out[i] == cell + " "@
                + info[i];
        assert(is_blank_cell(cell, width));
    }
    assert forall|i: int| 0 <= i < art.len() implies is_row(
        #[trigger] out[i],
        art[i],
        width,
        line_or_empty(info, i),
    ) by {
        assert(is_row(out[i], line_or_empty(art, i), width, line_or_empty(info, i)));
    }
}

} // verus!
