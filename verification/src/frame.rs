//! Layout of a rendered frame: the order in which rays are cast over the
//! screen, and the RGBA pixel buffer that the ray results are painted into.
use vstd::arithmetic::div_mod::lemma_fundamental_div_mod_converse;
use vstd::prelude::*;

verus! {

/// Width, in pixels, of the image the viewer renders: 80 workgroup tiles.
pub const RENDER_WIDTH: usize = 1280;

/// Height, in pixels, of the image the viewer renders: 48 workgroup tiles.
pub const RENDER_HEIGHT: usize = 768;

/// Iteration budget the viewer gives the distance estimator.
pub const MAX_ITERATIONS: usize = 1000;

/// What the renderer reports for one ray: whether it reached the surface
/// (`did_hit` is non-zero) and after how many marching steps.
#[derive(Clone, Copy, Debug, PartialEq, Eq, Structural)]
pub struct RayOutput {
    pub did_hit: u32,
    pub iters: u32,
}

/// The screen position `(x, y)` of the `i`-th ray cast over an image `width`
/// pixels wide: rays go row by row, left to right.
pub open spec fn screen_position(width: int, i: int) -> (int, int) {
    (i % width, i / width)
}

/// Offset of the first byte of pixel `(x, y)` in an RGBA buffer whose rows are
/// `width` pixels long.
pub open spec fn pixel_offset(width: int, x: int, y: int) -> int {
    4 * width * y + 4 * x
}

/// The four RGBA bytes shown for a ray: its colour if it hit the surface,
/// black otherwise; always fully opaque.
pub open spec fn rgba(ray: RayOutput, colour: (u8, u8, u8)) -> Seq<u8> {
    if ray.did_hit == 0 {
        seq![0u8, 0u8, 0u8, 255u8]
    } else {
        seq![colour.0, colour.1, colour.2, 255u8]
    }
}

/// The RGBA buffer showing the first `count` rays, each with its colour.
pub open spec fn painted(rays: Seq<RayOutput>, colours: Seq<(u8, u8, u8)>, count: nat) -> Seq<u8> {
    Seq::new(4 * count, |k: int| rgba(rays[k / 4], colours[k / 4])[k % 4])
}

proof fn lemma_cell_in_grid(width: int, height: int, x: int, y: int)
    requires
        0 <= x < width,
        0 <= y < height,
    ensures
        0 <= y * width + x < width * height,
        4 * width * y + 4 * x == 4 * (y * width + x),
        4 * width * y + 4 * x + 4 <= 4 * width * height,
        4 * width <= 4 * width * height,
        (y + 1) * width == y * width + width,
{
    assert(0 <= y * width + x < width * height) by (nonlinear_arith)
        requires
            0 <= x < width,
            0 <= y < height,
    ;
    assert(4 * width * y + 4 * x == 4 * (y * width + x)) by (nonlinear_arith);
    assert(4 * width * y + 4 * x + 4 <= 4 * width * height) by (nonlinear_arith)
        requires
            0 <= x < width,
            0 <= y < height,
    ;
    assert(4 * width <= 4 * width * height) by (nonlinear_arith)
        requires
            0 < width,
            0 < height,
    ;
    assert((y + 1) * width == y * width + width) by (nonlinear_arith);
}

/// A transparent black RGBA buffer for a `width` x `height` image: what the
/// viewer shows when no render result is available.
pub fn blank_pixels(width: usize, height: usize) -> (pixels: Vec<u8>)
    requires
        4 * width <= usize::MAX,
        4 * width * height <= usize::MAX,
    ensures
        pixels@.len() == 4 * width * height,
        forall|k: int| 0 <= k < pixels@.len() ==> pixels@[k] == 0u8,
{
    let len: usize = 4 * width * height;
    let mut pixels: Vec<u8> = Vec::new();
    while pixels.len() < len
        invariant
            pixels@.len() <= len,
            forall|k: int| 0 <= k < pixels@.len() ==> pixels@[k] == 0u8,
        decreases len - pixels@.len(),
    {
        pixels.push(0u8);
    }
    pixels
}

/// The screen positions of a `width` x `height` image in the order its rays
/// are cast: row by row from the top, left to right within a row.
pub fn screen_coords(width: usize, height: usize) -> (coords: Vec<(usize, usize)>)
    requires
        width * height <= usize::MAX,
    ensures
        coords@.len() == width * height,
        forall|i: int|
            0 <= i < coords@.len() ==> ((#[trigger] coords@[i]).0 as int, coords@[i].1 as int) == screen_position(
                width as int,
                i,
            ),
{
    let mut coords: Vec<(usize, usize)> = Vec::new();
    for y in 0..height
        invariant
            coords@.len() == y * width,
            forall|i: int|
                0 <= i < coords@.len() ==> ((#[trigger] coords@[i]).0 as int, coords@[i].1 as int)
                    == screen_position(width as int, i),
    {
        for x in 0..width
            invariant
                y < height,
                coords@.len() == y * width + x,
                forall|i: int|
                    0 <= i < coords@.len() ==> ((#[trigger] coords@[i]).0 as int, coords@[i].1 as int)
                        == screen_position(width as int, i),
        {
            proof {
                lemma_fundamental_div_mod_converse(
                    y * width + x,
                    width as int,
                    y as int,
                    x as int,
                );
                lemma_cell_in_grid(width as int, height as int, x as int, y as int);
            }
            coords.push((x, y));
        }
        proof {
            if width > 0 {
                lemma_cell_in_grid(width as int, height as int, 0, y as int);
            } else {
                assert((y + 1) * width == 0) by (nonlinear_arith)
                    requires
                        width == 0,
                ;
            }
        }
    }
    proof {
        assert(height * width == width * height) by (nonlinear_arith);
    }
    coords
}

/// Paints the rays of a `width` x `height` render into its RGBA buffer, ray
/// `i` (in screen order) onto pixel `i`: the hit colour where the ray reached
/// the surface, black where it did not, always opaque.
pub fn paint_rays(
    pixels: &mut Vec<u8>,
    rays: &Vec<RayOutput>,
    hit_colours: &Vec<(u8, u8, u8)>,
    width: usize,
    height: usize,
)
    requires
        4 * width * height <= usize::MAX,
        old(pixels)@.len() == 4 * width * height,
        rays@.len() >= width * height,
        hit_colours@.len() >= width * height,
    ensures
        final(pixels)@ == painted(rays@, hit_colours@, (width * height) as nat),
{
    let ghost target = painted(rays@, hit_colours@, (width * height) as nat);
    let mut i: usize = 0;
    assert(0 * width == 0);
    for y in 0..height
        invariant
            4 * width * height <= usize::MAX,
            pixels@.len() == 4 * width * height,
            rays@.len() >= width * height,
            hit_colours@.len() >= width * height,
            target == painted(rays@, hit_colours@, (width * height) as nat),
            i == y * width,
            forall|k: int| 0 <= k < 4 * i ==> pixels@[k] == target[k],
    {
        for x in 0..width
            invariant
                y < height,
                4 * width * height <= usize::MAX,
                pixels@.len() == 4 * width * height,
                rays@.len() >= width * height,
                hit_colours@.len() >= width * height,
                target == painted(rays@, hit_colours@, (width * height) as nat),
                i == y * width + x,
                forall|k: int| 0 <= k < 4 * i ==> pixels@[k] == target[k],
        {
            proof {
                lemma_cell_in_grid(width as int, height as int, x as int, y as int);
            }
            let ray = rays[i];
            let colour: (u8, u8, u8) = if ray.did_hit == 0 {
                (0u8, 0u8, 0u8)
            } else {
                hit_colours[i]
            };
            let idx: usize = 4 * width * y + 4 * x;
            let ghost before = pixels@;
            pixels[idx] = colour.0;
            pixels[idx + 1] = colour.1;
            pixels[idx + 2] = colour.2;
            pixels[idx + 3] = 255u8;
            proof {
                assert forall|k: int| 0 <= k < 4 * (i + 1) implies pixels@[k] == target[k] by {
                    if k >= 4 * i {
                        assert(k / 4 == i);
                        assert(k % 4 == k - 4 * i);
                    } else {
                        assert(pixels@[k] == before[k]);
                    }
                }
            }
            i = i + 1;
        }
        proof {
            if width > 0 {
                lemma_cell_in_grid(width as int, height as int, 0, y as int);
            } else {
                assert((y + 1) * width == 0) by (nonlinear_arith)
                    requires
                        width == 0,
                ;
            }
        }
    }
    proof {
        assert(height * width == width * height) by (nonlinear_arith);
        assert(4 * (width * height) == 4 * width * height) by (nonlinear_arith);
        assert(pixels@ =~= target);
    }
}

/// The ray cast for a screen position lands on that position's pixel: for
/// every ray of a `width` x `height` render, its screen position lies on the
/// image, and the four bytes at that pixel's offset in the painted buffer are
/// exactly that ray's colour.
pub proof fn law_ray_lands_on_its_pixel(
    rays: Seq<RayOutput>,
    colours: Seq<(u8, u8, u8)>,
    width: nat,
    height: nat,
    i: int,
)
    requires
        0 <= i < width * height,
        rays.len() >= width * height,
        colours.len() >= width * height,
    ensures
        ({
            let (x, y) = screen_position(width as int, i);
            &&& 0 <= x < width
            &&& 0 <= y < height
            &&& painted(rays, colours, width * height).subrange(
                pixel_offset(width as int, x, y),
                pixel_offset(width as int, x, y) + 4,
            ) == rgba(rays[i], colours[i])
        }),
{
    let w = width as int;
    let h = height as int;
    assert(w > 0) by (nonlinear_arith)
        requires
            0 <= i < w * h,
            h >= 0,
    ;
    let x = i % w;
    let y = i / w;
    vstd::arithmetic::div_mod::lemma_fundamental_div_mod(i, w);
    assert(0 <= x < w);
    assert(0 <= y < h) by (nonlinear_arith)
        requires
            0 <= i < w * h,
            i == w * y + x,
            0 <= x < w,
    ;
    assert(pixel_offset(w, x, y) == 4 * i) by (nonlinear_arith)
        requires
            i == w * y + x,
    ;
    let whole = painted(rays, colours, width * height);
    let bytes = whole.subrange(4 * i, 4 * i + 4);
    assert forall|j: int| 0 <= j < 4 implies bytes[j] == rgba(rays[i], colours[i])[j] by {
        assert((4 * i + j) / 4 == i);
        assert((4 * i + j) % 4 == j);
    }
    assert(bytes =~= rgba(rays[i], colours[i]));
}

/// Distinct pixels of a `width` x `height` image own disjoint four-byte
/// slots, and every slot lies inside the image's buffer.
pub proof fn law_pixels_disjoint(width: nat, height: nat, x1: nat, y1: nat, x2: nat, y2: nat)
    requires
        x1 < width,
        y1 < height,
        x2 < width,
        y2 < height,
        (x1, y1) != (x2, y2),
    ensures
        0 <= pixel_offset(width as int, x1 as int, y1 as int),
        pixel_offset(width as int, x1 as int, y1 as int) + 4 <= 4 * width * height,
        pixel_offset(width as int, x1 as int, y1 as int) + 4 <= pixel_offset(
            width as int,
            x2 as int,
            y2 as int,
        ) || pixel_offset(width as int, x2 as int, y2 as int) + 4 <= pixel_offset(
            width as int,
            x1 as int,
            y1 as int,
        ),
{
    let w = width as int;
    let h = height as int;
    lemma_cell_in_grid(w, h, x1 as int, y1 as int);
    lemma_cell_in_grid(w, h, x2 as int, y2 as int);
    let c1 = y1 * w + x1;
    let c2 = y2 * w + x2;
    if y1 < y2 {
        assert(c1 < c2) by (nonlinear_arith)
            requires
                y1 < y2,
                x1 < w,
                c1 == y1 * w + x1,
                c2 == y2 * w + x2,
                x2 >= 0,
        ;
    } else if y2 < y1 {
        assert(c2 < c1) by (nonlinear_arith)
            requires
                y2 < y1,
                x2 < w,
                c1 == y1 * w + x1,
                c2 == y2 * w + x2,
                x1 >= 0,
        ;
    }
    assert(4 * w * h == 4 * (w * h)) by (nonlinear_arith);
}

/// Every painted pixel is fully opaque, and a ray that missed the surface is
/// shown black whatever colour was supplied for it.
pub proof fn law_painted_opaque_misses_black(
    rays: Seq<RayOutput>,
    colours: Seq<(u8, u8, u8)>,
    count: nat,
    i: int,
)
    requires
        0 <= i < count,
        rays.len() >= count,
        colours.len() >= count,
    ensures
        painted(rays, colours, count)[4 * i + 3] == 255u8,
        rays[i].did_hit == 0 ==> painted(rays, colours, count).subrange(4 * i, 4 * i + 3) =~= seq![
            0u8,
            0u8,
            0u8,
        ],
        rays[i].did_hit != 0 ==> painted(rays, colours, count).subrange(4 * i, 4 * i + 3) =~= seq![
            colours[i].0,
            colours[i].1,
            colours[i].2,
        ],
{
    let whole = painted(rays, colours, count);
    assert forall|j: int| 0 <= j < 4 implies whole[4 * i + j] == rgba(rays[i], colours[i])[j] by {
        assert((4 * i + j) / 4 == i);
        assert((4 * i + j) % 4 == j);
    }
}

/// Rays go row by row, left to right: the ray cast `y * width + x`-th is the
/// one for screen position `(x, y)`.
pub proof fn law_screen_order(width: nat, x: nat, y: nat)
    requires
        x < width,
    ensures
        screen_position(width as int, (y * width + x) as int) == (x as int, y as int),
{
    lemma_fundamental_div_mod_converse(
        (y * width + x) as int,
        width as int,
        y as int,
        x as int,
    );
}

/// The ray cast `i`-th is painted into bytes `4 * i .. 4 * i + 4` of the
/// buffer: red, green and blue of its colour when it hit (black when it
/// missed), then an opaque alpha.
pub proof fn law_painted_bytes(
    rays: Seq<RayOutput>,
    colours: Seq<(u8, u8, u8)>,
    count: nat,
    i: int,
)
    requires
        0 <= i < count,
        rays.len() >= count,
        colours.len() >= count,
    ensures
        painted(rays, colours, count).len() == 4 * count,
        painted(rays, colours, count)[4 * i] == (if rays[i].did_hit == 0 { 0u8 } else { colours[i].0 }),
        painted(rays, colours, count)[4 * i + 1] == (if rays[i].did_hit == 0 { 0u8 } else { colours[i].1 }),
        painted(rays, colours, count)[4 * i + 2] == (if rays[i].did_hit == 0 { 0u8 } else { colours[i].2 }),
        painted(rays, colours, count)[4 * i + 3] == 255u8,
{
    let whole = painted(rays, colours, count);
    assert forall|j: int| 0 <= j < 4 implies whole[4 * i + j] == rgba(rays[i], colours[i])[j] by {
        assert((4 * i + j) / 4 == i);
        assert((4 * i + j) % 4 == j);
    }
}

} // verus!
