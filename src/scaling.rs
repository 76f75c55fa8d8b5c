use vstd::prelude::*;

verus! {

/// Why a display size could not be computed.
#[derive(Clone, Copy, Debug, PartialEq, Eq, Structural)]
pub enum ScaleError {
    /// The window's size in pixels has a zero side.
    ZeroWindowPixels,
    /// The terminal's size in cells has a zero side.
    ZeroTerminalCells,
}

/// Where an image goes on the terminal grid, in cells.
#[derive(Clone, Copy, Debug, PartialEq, Eq, Structural)]
pub struct CellFit {
    pub width_cells: u64,
    pub height_cells: u64,
    /// The final width differs from the image's natural width in cells, so the bitmap
    /// must be resampled.
    pub rescale_needed: bool,
}

/// `a - b`, or zero where `b` is larger.
pub open spec fn sat_sub(a: int, b: int) -> int {
    if a > b {
        a - b
    } else {
        0
    }
}

/// The natural size in cells of an image of `img_w` by `img_h` pixels on a terminal of
/// `cols` by `rows` cells that spans `win_w` by `win_h` pixels.
pub open spec fn natural_cells(img_w: int, img_h: int, cols: int, rows: int, win_w: int, win_h: int) -> (int, int) {
    (img_w * cols / win_w, img_h * rows / win_h)
}

/// Width, height and whether to resample, for an image placed at column `origin`:
/// the natural width is clamped to what is left right of `origin` (less two cells) when it
/// would run past the last column; the height follows the width in the natural aspect
/// ratio; where that height still passes the last usable row (`rows - 2`), it is halved
/// and the width follows it.
pub open spec fn fit_cells(
    img_w: int,
    img_h: int,
    cols: int,
    rows: int,
    win_w: int,
    win_h: int,
    origin: int,
) -> (int, int, bool) {
    let nat_w = natural_cells(img_w, img_h, cols, rows, win_w, win_h).0;
    let nat_h = natural_cells(img_w, img_h, cols, rows, win_w, win_h).1;
    let w1 = if origin + nat_w > cols {
        sat_sub(cols, origin + 2)
    } else {
        nat_w
    };
    let h1 = if nat_w == 0 {
        nat_h
    } else {
        nat_h * w1 / nat_w
    };
    if h1 > sat_sub(rows, 2) {
        let h = h1 / 2;
        let w = nat_w * h / nat_h;
        (w, h, w != nat_w)
    } else {
        (w1, h1, w1 != nat_w)
    }
}

/// What `fit_to_region` returns.
pub open spec fn fit_result(
    img_px: (u32, u32),
    terminal_cells: (u16, u16),
    window_px: (u16, u16),
    region_origin_x: u16,
) -> Result<CellFit, ScaleError> {
    if window_px.0 == 0 || window_px.1 == 0 {
        Err(ScaleError::ZeroWindowPixels)
    } else {
        let f = fit_cells(
            img_px.0 as int,
            img_px.1 as int,
            terminal_cells.0 as int,
            terminal_cells.1 as int,
            window_px.0 as int,
            window_px.1 as int,
            region_origin_x as int,
        );
        Ok(CellFit { width_cells: f.0 as u64, height_cells: f.1 as u64, rescale_needed: f.2 })
    }
}

proof fn lemma_mul_div_le(a: int, b: int, c: int)
    requires
        0 <= a,
        0 <= b <= c,
        0 < c,
    ensures
        0 <= a * b / c <= a,
{
    assert(0 <= a * b) by (nonlinear_arith)
        requires
            0 <= a,
            0 <= b,
    ;
    assert(a * b <= a * c) by (nonlinear_arith)
        requires
            0 <= a,
            b <= c,
    ;
    assert(a * b / c <= a * c / c) by (nonlinear_arith)
        requires
            a * b <= a * c,
            0 < c,
    ;
    assert(a * c / c == a) by (nonlinear_arith)
        requires
            0 < c,
    ;
    assert(0 <= a * b / c) by (nonlinear_arith)
        requires
            0 <= a * b,
            0 < c,
    ;
}

proof fn lemma_natural_bound(p: int, c: int, w: int)
    requires
        0 <= p <= u32::MAX,
        0 <= c <= u16::MAX,
        1 <= w,
    ensures
        0 <= p * c <= u32::MAX * u16::MAX,
        0 <= p * c / w <= p * c,
{
    assert(0 <= p * c <= u32::MAX * u16::MAX) by (nonlinear_arith)
        requires
            0 <= p <= u32::MAX,
            0 <= c <= u16::MAX,
    ;
    assert(0 <= p * c / w <= p * c) by (nonlinear_arith)
        requires
            0 <= p * c,
            1 <= w,
    ;
}

proof fn lemma_cancel(x: int, c: int)
    requires
        0 <= x,
        0 < c,
    ensures
        x * c / c == x,
{
    assert(x * c / c == x) by (nonlinear_arith)
        requires
            0 < c,
    ;
}

proof fn lemma_div_monotone(a: int, b: int, c: int)
    requires
        0 <= a <= b,
        0 < c,
    ensures
        a / c <= b / c,
{
    assert(a / c <= b / c) by (nonlinear_arith)
        requires
            0 <= a <= b,
            0 < c,
    ;
}

/// Following the height and then the width back through the aspect ratio never widens:
/// `nw * (nh * w1 / nw / 2) / nh <= w1`.
proof fn lemma_halved_width_le(nw: int, nh: int, w1: int)
    requires
        0 < nw,
        0 < nh,
        0 <= w1,
    ensures
        nw * ((nh * w1 / nw) / 2) / nh <= w1,
{
    let h1 = nh * w1 / nw;
    let h = h1 / 2;
    assert(0 <= h <= h1) by (nonlinear_arith)
        requires
            h1 == nh * w1 / nw,
            h == h1 / 2,
            0 < nw,
            0 <= nh,
            0 <= w1,
    ;
    assert(nw * h1 <= nh * w1) by (nonlinear_arith)
        requires
            h1 == nh * w1 / nw,
            0 < nw,
            0 <= nh * w1,
    ;
    assert(nw * h <= nw * h1) by (nonlinear_arith)
        requires
            0 <= h <= h1,
            0 < nw,
    ;
    lemma_div_monotone(nw * h, nh * w1, nh);
    lemma_cancel(w1, nh);
    assert(nh * w1 == w1 * nh) by (nonlinear_arith);
}

/// At one pixel per cell, a fit whose height already lies within the usable rows is
/// stable: fitting its own size in cells again, as pixels, under the same geometry gives
/// the same width and height and asks for no resampling. In particular the width never
/// shrinks.
pub proof fn lemma_fit_is_stable(
    img_px: (u32, u32),
    terminal_cells: (u16, u16),
    window_px: (u16, u16),
    region_origin_x: u16,
)
    requires
        window_px == terminal_cells,
        fit_result(img_px, terminal_cells, window_px, region_origin_x) is Ok,
        fit_result(img_px, terminal_cells, window_px, region_origin_x)->Ok_0.height_cells
            <= sat_sub(terminal_cells.1 as int, 2),
    ensures
        ({
            let r = fit_result(img_px, terminal_cells, window_px, region_origin_x)->Ok_0;
            &&& r.width_cells <= img_px.0
            &&& r.height_cells <= img_px.1
            &&& fit_result(
                (r.width_cells as u32, r.height_cells as u32),
                terminal_cells,
                window_px,
                region_origin_x,
            ) == Ok::<CellFit, ScaleError>(
                CellFit {
                    width_cells: r.width_cells,
                    height_cells: r.height_cells,
                    rescale_needed: false,
                },
            )
        }),
{
    let cols = terminal_cells.0 as int;
    let rows = terminal_cells.1 as int;
    let origin = region_origin_x as int;
    let iw = img_px.0 as int;
    let ih = img_px.1 as int;
    lemma_cancel(iw, cols);
    lemma_cancel(ih, rows);
    let nw = iw;
    let nh = ih;
    assert(natural_cells(iw, ih, cols, rows, cols, rows) == (nw, nh));
    let w1 = if origin + nw > cols {
        sat_sub(cols, origin + 2)
    } else {
        nw
    };
    assert(w1 <= nw);
    let h1 = if nw == 0 {
        nh
    } else {
        nh * w1 / nw
    };
    if nw != 0 {
        lemma_mul_div_le(nh, w1, nw);
    }
    let f = fit_cells(iw, ih, cols, rows, cols, rows, origin);
    if h1 > sat_sub(rows, 2) {
        let h = h1 / 2;
        assert(nh > 0);
        lemma_mul_div_le(nw, h, nh);
        if nw != 0 {
            lemma_halved_width_le(nw, nh, w1);
        }
        assert(f.0 <= w1);
    }
    let w = f.0;
    let h = f.1;
    assert(0 <= w <= nw && 0 <= h <= nh && h <= sat_sub(rows, 2));
    assert(origin + w <= cols || w == 0);
    lemma_cancel(w, cols);
    lemma_cancel(h, rows);
    assert(natural_cells(w, h, cols, rows, cols, rows) == (w, h));
    if w != 0 {
        lemma_cancel(h, w);
        assert(h * w == w * h) by (nonlinear_arith);
    }
    let g = fit_cells(w, h, cols, rows, cols, rows, origin);
    assert(g == (w, h, false));
}

/// Size in cells at which to show an image of `img_px` pixels, placed at column
/// `region_origin_x` of a terminal of `terminal_cells` cells that spans `window_px` pixels.
/// A window with a zero side is refused, so nothing is divided by zero.
pub fn fit_to_region(
    img_px: (u32, u32),
    terminal_cells: (u16, u16),
    window_px: (u16, u16),
    region_origin_x: u16,
) -> (r: Result<CellFit, ScaleError>)
    ensures
        r == fit_result(img_px, terminal_cells, window_px, region_origin_x),
        r is Err <==> (window_px.0 == 0 || window_px.1 == 0),
{
    if window_px.0 == 0 || window_px.1 == 0 {
        return Err(ScaleError::ZeroWindowPixels);
    }
    let cols = terminal_cells.0 as u128;
    let rows = terminal_cells.1 as u128;
    let origin = region_origin_x as u128;
    proof {
        lemma_natural_bound(img_px.0 as int, cols as int, window_px.0 as int);
        lemma_natural_bound(img_px.1 as int, rows as int, window_px.1 as int);
    }
    let nat_w = img_px.0 as u128 * cols / window_px.0 as u128;
    let nat_h = img_px.1 as u128 * rows / window_px.1 as u128;
    let w1 = if origin + nat_w > cols {
        if cols > origin + 2 {
            cols - (origin + 2)
        } else {
            0
        }
    } else {
        nat_w
    };
    assert(w1 <= nat_w);
    let h1 = if nat_w == 0 {
        nat_h
    } else {
        proof {
            lemma_mul_div_le(nat_h as int, w1 as int, nat_w as int);
            assert(nat_h * w1 <= u32::MAX * u16::MAX * u16::MAX) by (nonlinear_arith)
                requires
                    nat_h <= u32::MAX * u16::MAX,
                    w1 <= u16::MAX,
                    w1 <= nat_w,
            ;
        }
        nat_h * w1 / nat_w
    };
    assert(h1 <= nat_h);
    let limit = if rows > 2 {
        rows - 2
    } else {
        0
    };
    let (w, h) = if h1 > limit {
        let h = h1 / 2;
        proof {
            lemma_mul_div_le(nat_w as int, h as int, nat_h as int);
            assert(nat_w * h <= (u32::MAX * u16::MAX) * (u32::MAX * u16::MAX)) by (nonlinear_arith)
                requires
                    nat_w <= u32::MAX * u16::MAX,
                    h <= u32::MAX * u16::MAX,
            ;
        }
        (nat_w * h / nat_h, h)
    } else {
        (w1, h1)
    };
    Ok(CellFit { width_cells: w as u64, height_cells: h as u64, rescale_needed: w != nat_w })
}

} // verus!

verus! {

/// `cells` cells of a side that spans `px` pixels over `total` cells, in pixels, capped at
/// `u32::MAX`.
pub open spec fn cells_to_pixels(cells: int, px: int, total: int) -> int {
    let p = cells * px / total;
    if p > u32::MAX {
        u32::MAX as int
    } else {
        p
    }
}

/// What `pixel_bound` returns.
pub open spec fn pixel_bound_result(fit: CellFit, terminal_cells: (u16, u16), window_px: (u16, u16)) -> Result<(u32, u32), ScaleError> {
    if terminal_cells.0 == 0 || terminal_cells.1 == 0 {
        Err(ScaleError::ZeroTerminalCells)
    } else {
        Ok(
            (
                cells_to_pixels(fit.width_cells as int, window_px.0 as int, terminal_cells.0 as int) as u32,
                cells_to_pixels(fit.height_cells as int, window_px.1 as int, terminal_cells.1 as int) as u32,
            ),
        )
    }
}

fn cells_to_pixels_exec(cells: u64, px: u16, total: u16) -> (r: u32)
    requires
        total > 0,
    ensures
        r as int == cells_to_pixels(cells as int, px as int, total as int),
{
    proof {
        let c = cells as int;
        let x = px as int;
        let t = total as int;
        assert(0 <= c * x <= u64::MAX * u16::MAX) by (nonlinear_arith)
            requires
                0 <= c <= u64::MAX,
                0 <= x <= u16::MAX,
        ;
        assert(0 <= c * x / t) by (nonlinear_arith)
            requires
                0 <= c * x,
                0 < t,
        ;
    }
    let p = cells as u128 * px as u128 / total as u128;
    if p > u32::MAX as u128 {
        u32::MAX
    } else {
        p as u32
    }
}

/// The size in pixels that a fit in cells stands for on this terminal: the inverse of the
/// pixels-to-cells ratio that `fit_to_region` applies. A terminal with a zero side is
/// refused.
pub fn pixel_bound(fit: CellFit, terminal_cells: (u16, u16), window_px: (u16, u16)) -> (r: Result<(u32, u32), ScaleError>)
    ensures
        r == pixel_bound_result(fit, terminal_cells, window_px),
{
    if terminal_cells.0 == 0 || terminal_cells.1 == 0 {
        return Err(ScaleError::ZeroTerminalCells);
    }
    Ok(
        (
            cells_to_pixels_exec(fit.width_cells, window_px.0, terminal_cells.0),
            cells_to_pixels_exec(fit.height_cells, window_px.1, terminal_cells.1),
        ),
    )
}

} // verus!

verus! {

proof fn lemma_back_to_pixels(c: int, px: int, total: int, img: int)
    requires
        0 <= img,
        0 < px,
        0 < total,
        0 <= c <= img * total / px,
    ensures
        c * px / total <= img,
{
    assert(c * px <= (img * total / px) * px) by (nonlinear_arith)
        requires
            0 <= c <= img * total / px,
            0 < px,
    ;
    assert((img * total / px) * px <= img * total) by (nonlinear_arith)
        requires
            0 <= img,
            0 < total,
            0 < px,
    ;
    lemma_div_monotone(c * px, img * total, total);
    lemma_cancel(img, total);
    assert(0 <= c * px) by (nonlinear_arith)
        requires
            0 <= c,
            0 < px,
    ;
}

/// The pixel size that a successful fit stands for never exceeds the image it was computed
/// for: resampling to it only ever shrinks.
pub proof fn lemma_bound_within_image(
    img_px: (u32, u32),
    terminal_cells: (u16, u16),
    window_px: (u16, u16),
    region_origin_x: u16,
)
    requires
        fit_result(img_px, terminal_cells, window_px, region_origin_x) is Ok,
        terminal_cells.0 > 0,
        terminal_cells.1 > 0,
    ensures
        ({
            let fit = fit_result(img_px, terminal_cells, window_px, region_origin_x)->Ok_0;
            let bound = pixel_bound_result(fit, terminal_cells, window_px)->Ok_0;
            &&& pixel_bound_result(fit, terminal_cells, window_px) is Ok
            &&& bound.0 <= img_px.0
            &&& bound.1 <= img_px.1
        }),
{
    let cols = terminal_cells.0 as int;
    let rows = terminal_cells.1 as int;
    let ww = window_px.0 as int;
    let wh = window_px.1 as int;
    let origin = region_origin_x as int;
    let iw = img_px.0 as int;
    let ih = img_px.1 as int;
    lemma_natural_bound(iw, cols, ww);
    lemma_natural_bound(ih, rows, wh);
    let nw = iw * cols / ww;
    let nh = ih * rows / wh;
    let w1 = if origin + nw > cols {
        sat_sub(cols, origin + 2)
    } else {
        nw
    };
    let h1 = if nw == 0 {
        nh
    } else {
        nh * w1 / nw
    };
    if nw != 0 {
        lemma_mul_div_le(nh, w1, nw);
    }
    if h1 > sat_sub(rows, 2) {
        lemma_mul_div_le(nw, h1 / 2, nh);
    }
    let f = fit_cells(iw, ih, cols, rows, ww, wh, origin);
    assert(0 <= f.0 <= nw && 0 <= f.1 <= nh);
    lemma_back_to_pixels(f.0, ww, cols, iw);
    lemma_back_to_pixels(f.1, wh, rows, ih);
}

} // verus!
