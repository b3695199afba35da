//! Rendering of a raster as rows of glyphs.
use vstd::prelude::*;
use crate::glyph::{brightness, brightness_of, glyph, glyph_of, ramp, ramp_index_of};
use crate::raster::Raster;

verus! {

/// Glyph of pixel `i` of the RGBA samples `data`.
pub open spec fn pixel_glyph(data: Seq<u8>, i: int) -> char {
    glyph_of(brightness_of(data[4 * i], data[4 * i + 1], data[4 * i + 2]))
}

/// Row `y` of the rendering: one glyph for each of the `width` pixels.
pub open spec fn row_of(width: u32, data: Seq<u8>, y: int) -> Seq<char> {
    Seq::new(width as nat, |x: int| pixel_glyph(data, y * width + x))
}

/// All `height` rows of the rendering, top to bottom.
pub open spec fn rows_of(width: u32, height: u32, data: Seq<u8>) -> Seq<Seq<char>> {
    Seq::new(height as nat, |y: int| row_of(width, data, y))
}

/// The rows with one newline between each two of them, none before the
/// first nor after the last.
pub open spec fn join_lines(rows: Seq<Seq<char>>) -> Seq<char>
    decreases rows.len(),
{
    if rows.len() == 0 {
        seq![]
    } else if rows.len() == 1 {
        rows[0]
    } else {
        join_lines(rows.drop_last()) + seq!['\n'] + rows.last()
    }
}

/// ASCII art of a `width` x `height` image. Pixels are visited in row-major
/// order and a newline goes before each pixel whose row differs from the
/// previous pixel's; an image without pixels renders as the empty string.
pub open spec fn ascii_art(width: u32, height: u32, data: Seq<u8>) -> Seq<char> {
    if width == 0 {
        seq![]
    } else {
        join_lines(rows_of(width, height, data))
    }
}

proof fn lemma_next_pixel(width: u32, height: u32, x: u32, y: u32)
    requires
        x < width,
        y < height,
    ensures
        4 * (y * width + x) + 4 <= width * height * 4,
        4 * (y * width + x) + 4 == 4 * (y * width + (x + 1)),
        y * width + width == (y + 1) * width,
{
    assert(y * width + x + 1 <= width * height) by (nonlinear_arith)
        requires x < width, y < height;
    assert(y * width + width == (y + 1) * width) by (nonlinear_arith);
}

proof fn lemma_glyph_not_newline(data: Seq<u8>, i: int)
    requires
        0 <= 4 * i,
        4 * i + 2 < data.len(),
    ensures
        pixel_glyph(data, i) != '\n',
{
    let b = brightness_of(data[4 * i], data[4 * i + 1], data[4 * i + 2]);
    assert(0 <= ramp_index_of(b) <= 10);
    let k = ramp_index_of(b);
    assert(ramp()[k] != '\n') by {
        assert(ramp().len() == 11);
        assert(ramp()[0] == '@' && ramp()[1] == '#' && ramp()[2] == '0' && ramp()[3] == 'O');
        assert(ramp()[4] == 'L' && ramp()[5] == ';' && ramp()[6] == ':' && ramp()[7] == '.');
        assert(ramp()[8] == ',' && ramp()[9] == '\'' && ramp()[10] == ' ');
    }
}

proof fn lemma_join_len(rows: Seq<Seq<char>>, width: int)
    requires
        rows.len() > 0,
        forall|y: int| 0 <= y < rows.len() ==> #[trigger] rows[y].len() == width,
    ensures
        join_lines(rows).len() == rows.len() * (width + 1) - 1,
    decreases rows.len(),
{
    if rows.len() > 1 {
        lemma_join_len(rows.drop_last(), width);
        assert(rows.len() * (width + 1) == (rows.len() - 1) * (width + 1) + width + 1) by (nonlinear_arith);
    }
}

/// The art of an image with at least one column is its rows joined by
/// newlines: there are as many rows as the image is high, each holds one
/// glyph per pixel column and no newline, and the whole text is
/// `height * (width + 1) - 1` characters long.
pub proof fn lemma_rows_match_dimensions(width: u32, height: u32, data: Seq<u8>)
    requires
        width > 0,
        data.len() == width * height * 4,
    ensures
        ascii_art(width, height, data) == join_lines(rows_of(width, height, data)),
        rows_of(width, height, data).len() == height,
        forall|y: int| 0 <= y < height ==> (#[trigger] rows_of(width, height, data)[y]).len() == width
            && !rows_of(width, height, data)[y].contains('\n'),
        height > 0 ==> ascii_art(width, height, data).len() == height * (width + 1) - 1,
{
    let rows = rows_of(width, height, data);
    assert forall|y: int| 0 <= y < height implies (#[trigger] rows[y]).len() == width
        && !rows[y].contains('\n') by {
        assert forall|x: int| 0 <= x < width implies rows[y][x] != '\n' by {
            assert(0 <= y * width + x < width * height) by (nonlinear_arith)
                requires 0 <= y < height, 0 <= x < width;
            lemma_glyph_not_newline(data, y * width + x);
        }
    }
    if height > 0 {
        lemma_join_len(rows, width as int);
    }
}

/// Renders `img` as ASCII art.
pub fn render(img: &Raster) -> (art: String)
    requires
        img.wf(),
    ensures
        art@ == ascii_art(img.width, img.height, img.data@),
{
    let mut art = String::new();
    let width: u32 = img.width;
    let height: u32 = img.height;
    if width == 0 {
        return art;
    }
    let ghost rows = rows_of(width, height, img.data@);
    let mut y: u32 = 0;
    let mut p: usize = 0;
    while y < height
        invariant
            img.wf(),
            width == img.width,
            height == img.height,
            width > 0,
            y <= height,
            rows == rows_of(width, height, img.data@),
            p as int == 4 * (y * width),
            art@ == join_lines(rows.take(y as int)),
        decreases height - y,
    {
        let ghost before = art@;
        if y > 0 {
            proof { reveal_strlit("\n"); }
            art.append("\n");
        }
        let ghost sep: Seq<char> = if y > 0 { seq!['\n'] } else { seq![] };
        let mut x: u32 = 0;
        while x < width
            invariant
                img.wf(),
                width == img.width,
                height == img.height,
                x <= width,
                y < height,
                p as int == 4 * (y * width + x),
                art@ == before + sep + row_of(width, img.data@, y as int).take(x as int),
            decreases width - x,
        {
            proof { lemma_next_pixel(width, height, x, y); }
            let len: usize = img.data.len();
            assert(p + 4 <= len);
            let v: u8 = brightness(img.data[p], img.data[p + 1], img.data[p + 2]);
            art.append(glyph(v));
            assert(row_of(width, img.data@, y as int).take(x + 1) =~= row_of(width, img.data@, y as int).take(x as int).push(pixel_glyph(img.data@, y * width + x)));
            p = p + 4;
            x = x + 1;
        }
        proof {
            lemma_next_pixel(width, height, 0, y);
            assert(row_of(width, img.data@, y as int).take(width as int) =~= rows[y as int]);
            assert(rows.take(y + 1).drop_last() =~= rows.take(y as int));
            if y == 0 {
                assert(art@ =~= rows.take(1)[0]);
            }
        }
        y = y + 1;
    }
    assert(rows.take(height as int) =~= rows);
    art
}

} // verus!
