//! The pixels of an embedded session: a blank screen to start from, and the
//! copy of a decoded region into the screen after a graphics update.

use vstd::arithmetic::div_mod::lemma_fundamental_div_mod_converse;
use vstd::prelude::*;

verus! {

/// The colour of a pixel that nothing was drawn on yet: opaque black.
pub const BLANK_PIXEL: u32 = 0xFF000000;

/// A screen of `width * height` blank pixels, row after row.
pub fn blank_framebuffer(width: u16, height: u16) -> (fb: Vec<u32>)
    ensures
        fb@.len() == width * height,
        forall|i: int| 0 <= i < fb@.len() ==> fb@[i] == BLANK_PIXEL,
{
    assert(width * height <= 65535 * 65535) by (nonlinear_arith)
        requires
            width <= 65535,
            height <= 65535,
    ;
    let n: usize = width as usize * height as usize;
    let mut fb: Vec<u32> = Vec::new();
    let mut i: usize = 0;
    while i < n
        invariant
            i <= n,
            fb@.len() == i,
            forall|k: int| 0 <= k < i ==> fb@[k] == BLANK_PIXEL,
        decreases n - i,
    {
        fb.push(BLANK_PIXEL);
        i = i + 1;
    }
    fb
}

/// The region of the screen that a graphics update redrew, with inclusive
/// bounds.
#[derive(Clone, Copy, Debug, PartialEq, Eq, Structural)]
pub struct UpdateRect {
    pub left: u16,
    pub top: u16,
    pub right: u16,
    pub bottom: u16,
}

/// The column after the last one copied: the right edge, cut at the width.
pub open spec fn span_end(rect: UpdateRect, width: u16) -> int {
    if rect.right + 1 < width {
        rect.right + 1
    } else {
        width as int
    }
}

/// The row after the last one copied: the bottom edge, cut at the height.
pub open spec fn rows_end(rect: UpdateRect, height: u16) -> int {
    if rect.bottom + 1 < height {
        rect.bottom + 1
    } else {
        height as int
    }
}

/// Row `y` is copied only when its span lies within the screen and the
/// decoded image holds the four bytes of each of its pixels.
pub open spec fn row_fits(img_len: int, fb_len: int, width: u16, rect: UpdateRect, y: int) -> bool {
    let start = y * width + rect.left;
    let len = span_end(rect, width) - rect.left;
    &&& 4 * (start + len) <= img_len
    &&& start + len <= fb_len
}

/// The pixel whose four bytes, least significant first, start at `at`.
pub open spec fn pixel_at(img: Seq<u8>, at: int) -> u32 {
    (img[at] + img[at + 1] * 256 + img[at + 2] * 65536 + img[at + 3] * 16777216) as u32
}

/// The region's columns are not reversed whenever a row of it is on screen.
pub open spec fn copy_in_bounds(width: u16, height: u16, rect: UpdateRect) -> bool {
    rect.top < rows_end(rect, height) ==> rect.left <= span_end(rect, width)
}

/// Pixel `j` of the screen once rows `rect.top..y_end` of the region are
/// copied from the decoded image `img`, which holds four bytes per pixel in
/// the same row-after-row order as the screen.
pub open spec fn copied_rows(
    old: Seq<u32>,
    img: Seq<u8>,
    width: u16,
    rect: UpdateRect,
    y_end: int,
    j: int,
) -> u32 {
    let w = width as int;
    if w > 0 && rect.top <= j / w < y_end && rect.left <= j % w < span_end(rect, width)
        && row_fits(img.len() as int, old.len() as int, width, rect, j / w) {
        pixel_at(img, 4 * j)
    } else {
        old[j]
    }
}

proof fn lemma_row_position(width: u16, y: int, x: int)
    requires
        0 <= x < width,
    ensures
        (y * width + x) / (width as int) == y,
        (y * width + x) % (width as int) == x,
{
    lemma_fundamental_div_mod_converse(y * width + x, width as int, y, x);
}

fn pixel_from(img: &[u8], at: usize) -> (p: u32)
    requires
        at + 4 <= img@.len(),
    ensures
        p == pixel_at(img@, at as int),
{
    let b0 = img[at] as u32;
    let b1 = img[at + 1] as u32;
    let b2 = img[at + 2] as u32;
    let b3 = img[at + 3] as u32;
    b0 + b1 * 256 + b2 * 65536 + b3 * 16777216
}

/// Copies the region `rect` of the decoded image `img` onto the screen `fb`,
/// both `width` pixels wide: screen pixel `j` takes the four bytes of `img`
/// at `4 * j`. A row whose span does not fit in the screen or the image is
/// left as it was.
pub fn blit_update(fb: &mut Vec<u32>, img: &[u8], width: u16, height: u16, rect: UpdateRect)
    requires
        copy_in_bounds(width, height, rect),
    ensures
        final(fb)@.len() == old(fb)@.len(),
        forall|j: int|
            0 <= j < old(fb)@.len() ==> #[trigger] final(fb)@[j] == copied_rows(
                old(fb)@,
                img@,
                width,
                rect,
                rows_end(rect, height),
                j,
            ),
{
    let ghost old_fb = fb@;
    let w: usize = width as usize;
    let x0: usize = rect.left as usize;
    let y0: usize = rect.top as usize;
    let x1: usize = if (rect.right as usize + 1) < w {
        rect.right as usize + 1
    } else {
        w
    };
    let y1: usize = if (rect.bottom as usize + 1) < height as usize {
        rect.bottom as usize + 1
    } else {
        height as usize
    };
    let img_len: usize = img.len();
    let mut y: usize = y0;
    while y < y1
        invariant
            copy_in_bounds(width, height, rect),
            img_len == img@.len(),
            w == width,
            x0 == rect.left,
            y0 == rect.top,
            x1 == span_end(rect, width),
            y1 == rows_end(rect, height),
            y0 <= y <= y1 || y1 <= y0 == y,
            fb@.len() == old_fb.len(),
            forall|j: int|
                0 <= j < old_fb.len() ==> #[trigger] fb@[j] == copied_rows(
                    old_fb,
                    img@,
                    width,
                    rect,
                    y as int,
                    j,
                ),
        decreases y1 - y,
    {
        assert(y * w <= 65535 * 65535) by (nonlinear_arith)
            requires
                y < 65536,
                w <= 65535,
        ;
        let start: usize = y * w + x0;
        let len: usize = x1 - x0;
        let ghost fits = row_fits(img@.len() as int, old_fb.len() as int, width, rect, y as int);
        if start + len <= img_len / 4 && start + len <= fb.len() {
            assert(fits);
            let mut i: usize = 0;
            while i < len
                invariant
                    w == width,
                    x0 == rect.left,
                    x1 == span_end(rect, width),
                    y1 == rows_end(rect, height),
                    y0 == rect.top,
                    y0 <= y < y1,
                    start == y * w + x0,
                    len == x1 - x0,
                    img_len == img@.len(),
                    4 * (start + len) <= img@.len(),
                    start + len <= old_fb.len(),
                    fits == row_fits(img@.len() as int, old_fb.len() as int, width, rect, y as int),
                    fits,
                    i <= len,
                    fb@.len() == old_fb.len(),
                    forall|j: int|
                        0 <= j < old_fb.len() ==> #[trigger] fb@[j] == if start <= j < start + i {
                            pixel_at(img@, 4 * j)
                        } else {
                            copied_rows(old_fb, img@, width, rect, y as int, j)
                        },
                decreases len - i,
            {
                let at: usize = 4 * (start + i);
                let p = pixel_from(img, at);
                fb.set(start + i, p);
                i = i + 1;
            }
        }
        proof {
            assert forall|j: int| 0 <= j < old_fb.len() implies #[trigger] fb@[j] == copied_rows(
                old_fb,
                img@,
                width,
                rect,
                y + 1,
                j,
            ) by {
                let wi = width as int;
                if w > 0 {
                    let q = j / wi;
                    let r = j % wi;
                    lemma_row_position(width, q, r);
                    assert(j == q * wi + r) by {
                        vstd::arithmetic::div_mod::lemma_fundamental_div_mod(j, wi);
                        vstd::arithmetic::mul::lemma_mul_is_commutative(q, wi);
                    }
                    if start <= j < start + len && fits {
                        lemma_row_position(width, y as int, j - y * wi);
                    }
                }
            }
        }
        y = y + 1;
    }
}

/// Pixel `(x, y)` of the screen after an update is the image's pixel at the
/// same position, read from its four bytes at `4 * (y * width + x)`, when the
/// position lies in the clipped region and its row fits; every other pixel
/// keeps its value.
pub proof fn lemma_update_by_position(
    old: Seq<u32>,
    img: Seq<u8>,
    width: u16,
    height: u16,
    rect: UpdateRect,
    x: int,
    y: int,
)
    requires
        0 <= x < width,
        0 <= y,
    ensures
        copied_rows(old, img, width, rect, rows_end(rect, height), y * width + x) == if rect.top
            <= y < rows_end(rect, height) && rect.left <= x < span_end(rect, width) && row_fits(
            img.len() as int,
            old.len() as int,
            width,
            rect,
            y,
        ) {
            pixel_at(img, 4 * (y * width + x))
        } else {
            old[y * width + x]
        },
{
    lemma_row_position(width, y, x);
}

/// Whether `blit_update` may copy `rect`: false exactly when the region's
/// columns are reversed while a row of it is on screen.
pub fn copy_is_in_bounds(width: u16, height: u16, rect: UpdateRect) -> (b: bool)
    ensures
        b == copy_in_bounds(width, height, rect),
{
    let w: usize = width as usize;
    let x1: usize = if (rect.right as usize + 1) < w {
        rect.right as usize + 1
    } else {
        w
    };
    let y1: usize = if (rect.bottom as usize + 1) < height as usize {
        rect.bottom as usize + 1
    } else {
        height as usize
    };
    !((rect.top as usize) < y1 && x1 < rect.left as usize)
}

} // verus!
