//! The text preview: a coarse character picture of the fractal, one glyph
//! per ray, showing how quickly each ray reached the surface.
use vstd::prelude::*;

verus! {

/// Columns of the text preview.
pub const PREVIEW_WIDTH: usize = 100;

/// Rows of the text preview.
pub const PREVIEW_HEIGHT: usize = 25;

/// The glyph for one ray: `#` when it reached the surface in fewer than 4
/// steps, `/` in exactly 4, `.` in more, and a blank when it missed.
pub open spec fn glyph_of(hit: Option<usize>) -> char {
    match hit {
        Some(iters) => if iters < 4 {
            '#'
        } else if iters < 5 {
            '/'
        } else {
            '.'
        },
        None => ' ',
    }
}

/// Row `y` of the preview of an image `width` rays wide: its glyphs, then a
/// line break.
pub open spec fn preview_row(hits: Seq<Option<usize>>, width: int, y: int) -> Seq<char> {
    Seq::new(width as nat, |x: int| glyph_of(hits[y * width + x])).push('\n')
}

/// The first `rows` rows of the preview, top row first.
pub open spec fn preview_text(hits: Seq<Option<usize>>, width: int, rows: int) -> Seq<char>
    decreases rows,
{
    if rows <= 0 {
        Seq::empty()
    } else {
        preview_text(hits, width, rows - 1) + preview_row(hits, width, rows - 1)
    }
}

/// The glyph showing one ray's result (`None` when the ray missed).
pub fn ascii_glyph(hit: Option<usize>) -> (glyph: char)
    ensures
        glyph == glyph_of(hit),
{
    match hit {
        Some(iters) if iters < 4 => '#',
        Some(iters) if iters < 5 => '/',
        Some(_) => '.',
        None => ' ',
    }
}

/// The preview of a `width` x `height` grid of ray results, given in screen
/// order (row by row, left to right): one line of glyphs per row.
pub fn ascii_frame(hits: &Vec<Option<usize>>, width: usize, height: usize) -> (text: Vec<char>)
    requires
        hits@.len() >= width * height,
    ensures
        text@ == preview_text(hits@, width as int, height as int),
{
    let total: usize = hits.len();
    let mut text: Vec<char> = Vec::new();
    for y in 0..height
        invariant
            hits@.len() == total,
            hits@.len() >= width * height,
            text@ == preview_text(hits@, width as int, y as int),
    {
        let ghost done = text@;
        for x in 0..width
            invariant
                y < height,
                hits@.len() == total,
                hits@.len() >= width * height,
                done == preview_text(hits@, width as int, y as int),
                text@ == done + Seq::new(
                    x as nat,
                    |j: int| glyph_of(hits@[y * width + j]),
                ),
        {
            assert(y * width + x < width * height) by (nonlinear_arith)
                requires
                    x < width,
                    y < height,
            ;
            let glyph = ascii_glyph(hits[y * width + x]);
            text.push(glyph);
            assert(text@ =~= done + Seq::new(
                (x + 1) as nat,
                |j: int| glyph_of(hits@[y * width + j]),
            ));
        }
        text.push('\n');
        assert(text@ =~= preview_text(hits@, width as int, (y + 1) as int));
    }
    text
}

/// The preview of `rows` rows has one line of `width` glyphs and a line
/// break per row.
pub proof fn law_preview_length(hits: Seq<Option<usize>>, width: nat, rows: nat)
    ensures
        preview_text(hits, width as int, rows as int).len() == (width + 1) * rows,
    decreases rows,
{
    if rows > 0 {
        law_preview_length(hits, width, (rows - 1) as nat);
        assert((width + 1) * (rows - 1) + (width + 1) == (width + 1) * rows) by (nonlinear_arith);
    } else {
        assert((width + 1) * rows == 0) by (nonlinear_arith)
            requires
                rows == 0,
        ;
    }
}

/// Each ray shows at its own screen position: in the preview of a
/// `width` x `height` grid, line `y` holds at column `x` the glyph of the ray
/// cast `y * width + x`-th, and ends in a line break after `width` glyphs.
pub proof fn law_preview_position(
    hits: Seq<Option<usize>>,
    width: nat,
    height: nat,
    x: nat,
    y: nat,
)
    requires
        x < width,
        y < height,
    ensures
        preview_text(hits, width as int, height as int)[(y * (width + 1) + x) as int] == glyph_of(
            hits[(y * width + x) as int],
        ),
        preview_text(hits, width as int, height as int)[(y * (width + 1) + width) as int] == '\n',
    decreases height,
{
    let w = width as int;
    let h = height as int;
    let before = preview_text(hits, w, h - 1);
    law_preview_length(hits, width, (height - 1) as nat);
    if y + 1 < height {
        law_preview_position(hits, width, (height - 1) as nat, x, y);
        assert(y * (width + 1) + width < (width + 1) * (height - 1)) by (nonlinear_arith)
            requires
                y + 1 < height,
        ;
    } else {
        assert(y == height - 1);
        assert(before.len() == y * (width + 1)) by (nonlinear_arith)
            requires
                before.len() == (width + 1) * (height - 1),
                y == height - 1,
        ;
    }
}

/// How a ray's result is drawn: a hit in fewer than 4 marching steps is `#`,
/// a hit in exactly 4 is `/`, a hit in 5 or more is `.`, and only a ray that
/// missed is drawn as a blank.
pub proof fn law_glyph_thresholds(hit: Option<usize>)
    ensures
        hit matches Some(n) && n < 4 ==> glyph_of(hit) == '#',
        hit matches Some(n) && n == 4 ==> glyph_of(hit) == '/',
        hit matches Some(n) && n >= 5 ==> glyph_of(hit) == '.',
        hit is Some ==> glyph_of(hit) != ' ',
        hit is None ==> glyph_of(hit) == ' ',
{
}

} // verus!
