use vstd::prelude::*;

verus! {

/// Width in pixels of the virtual taskbar that the settings preview shows a
/// window of.
pub const PREVIEW_VIRTUAL_WIDTH: i32 = 1920;

/// Where and how many bars of each channel the renderer draws. Positions and
/// counts are exact integer quotients of the pixel spans.
#[derive(Debug, Clone, Copy, PartialEq, Eq, Structural)]
pub struct BarLayout {
    /// Width of one bar in pixels.
    pub step: u64,
    /// Horizontal origin of the left channel's bars.
    pub left_origin: i64,
    /// Horizontal origin of the right channel's bars.
    pub right_origin: i64,
    /// The left channel's bars grow leftwards from their origin (the right
    /// channel's then grow rightwards), else the other way round.
    pub left_leftward: bool,
    /// Number of bars drawn for the left channel.
    pub left_count: usize,
    /// Number of bars drawn for the right channel.
    pub right_count: usize,
}

/// `a / b` rounded up.
pub open spec fn ceil_div(a: int, b: int) -> int {
    a / b + if a % b == 0 {
        0int
    } else {
        1
    }
}

/// How many bars of width `step` cover `span` pixels, moved by `adjust`,
/// kept within `0..=cap`. A zero width covers any positive span with `cap`
/// bars and an empty span with none.
pub open spec fn bar_count(span: int, step: int, adjust: int, cap: int) -> int {
    if step == 0 {
        if span > 0 {
            cap
        } else {
            0
        }
    } else {
        let q = span / step + adjust;
        let q0 = if q > 0 {
            q
        } else {
            0
        };
        if q0 < cap {
            q0
        } else {
            cap
        }
    }
}

/// The layout of the taskbar display whose inner area runs from
/// `inner_left` to `inner_right`, with `outer_left` the left edge of the
/// overlay window: `None` when the area is empty or there are no bars.
/// Normally both channels grow outwards from the centre; inverted, the left
/// channel grows rightwards from the left edge and the right channel
/// leftwards from the right edge. Bar mode draws one more bar per side in the
/// normal direction.
pub open spec fn taskbar_layout(
    outer_left: int,
    inner_left: int,
    inner_right: int,
    data_size: int,
    step_multiplier: int,
    bars: bool,
    invert: bool,
) -> Option<BarLayout> {
    let width = inner_right - inner_left;
    if width <= 0 || data_size == 0 {
        None
    } else {
        let half = data_size / 2;
        let step = ceil_div(width, data_size) * step_multiplier;
        let offset = inner_left - outer_left;
        let center = offset + width / 2;
        let to_left = width / 2;
        let to_right = width - width / 2;
        let extra = if bars && !invert {
            1int
        } else {
            0
        };
        Some(
            BarLayout {
                step: step as u64,
                left_origin: if invert {
                    offset
                } else {
                    center
                } as i64,
                right_origin: if invert {
                    inner_right - outer_left
                } else {
                    center
                } as i64,
                left_leftward: !invert,
                left_count: (bar_count(
                    to_left,
                    step,
                    if invert {
                        1
                    } else {
                        -1
                    },
                    half - 1,
                ) + extra) as usize,
                right_count: (bar_count(to_right, step, 1, half - 1) + extra) as usize,
            },
        )
    }
}

/// The layout of the settings preview, which shows the middle of a
/// 1920-pixel taskbar in a `preview_width` by `preview_height` window: `None`
/// when the window is empty. Both channels grow outwards from the centre.
pub open spec fn preview_layout(
    preview_width: int,
    preview_height: int,
    data_size: int,
    step_multiplier: int,
    bars: bool,
) -> Option<BarLayout> {
    if preview_width <= 0 || preview_height <= 0 {
        None
    } else {
        let half = data_size / 2;
        let step = ceil_div(PREVIEW_VIRTUAL_WIDTH as int, data_size) * step_multiplier;
        let center = PREVIEW_VIRTUAL_WIDTH / 2;
        let extra = if bars {
            1int
        } else {
            0
        };
        Some(
            BarLayout {
                step: step as u64,
                left_origin: center as i64,
                right_origin: center as i64,
                left_leftward: true,
                left_count: (bar_count(center as int, step, -1, half - 1) + extra) as usize,
                right_count: (bar_count(center as int, step, 1, half - 1) + extra) as usize,
            },
        )
    }
}

/// Law: in the normal direction the display is mirrored about the centre of
/// the taskbar: both channels start there, the left one growing leftwards and
/// the right one rightwards; inverted, the channels start at the two edges
/// and grow towards each other.
pub proof fn lemma_mirrored_display(
    outer_left: i32,
    inner_left: i32,
    inner_right: i32,
    data_size: usize,
    step_multiplier: u32,
    bars: bool,
    invert: bool,
)
    requires
        inner_right - inner_left > 0,
        data_size >= 2,
    ensures
        ({
            let l = taskbar_layout(
                outer_left as int,
                inner_left as int,
                inner_right as int,
                data_size as int,
                step_multiplier as int,
                bars,
                invert,
            )->0;
            &&& !invert ==> l.left_leftward && l.left_origin == l.right_origin && l.left_origin
                == inner_left - outer_left + (inner_right - inner_left) / 2
            &&& invert ==> !l.left_leftward && l.left_origin == inner_left - outer_left
                && l.right_origin == inner_right - outer_left
        }),
{
}

/// `n` bars of width `step` fit a span of `span` pixels when the count is
/// moved by `adjust` and kept within `0..=cap`: a count strictly inside the
/// range is the number of whole steps in the span, moved by `adjust`; the cap
/// is only reached when the span holds at least that many steps; zero only
/// when it holds fewer than `1 - adjust`.
pub open spec fn counts_steps(n: int, span: int, step: int, adjust: int, cap: int) -> bool {
    &&& 0 <= n <= cap
    &&& 0 < n < cap ==> (n - adjust) * step <= span < (n - adjust + 1) * step
    &&& 0 < n && n == cap ==> (n - adjust) * step <= span
    &&& n == 0 && cap > 0 ==> span < (1 - adjust) * step
}

proof fn lemma_bar_count_counts_steps(span: int, step: int, adjust: int, cap: int)
    requires
        span >= 0,
        step > 0,
        cap >= 0,
        adjust == 1 || adjust == -1,
    ensures
        counts_steps(bar_count(span, step, adjust, cap), span, step, adjust, cap),
{
    let q = span / step;
    let n = bar_count(span, step, adjust, cap);
    assert(q * step <= span < (q + 1) * step && q >= 0) by (nonlinear_arith)
        requires
            q == span / step,
            step > 0,
            span >= 0,
    ;
    if 0 < n && n == cap {
        assert((cap - adjust) * step <= q * step) by (nonlinear_arith)
            requires
                cap - adjust <= q,
                step > 0,
        ;
    }
    if n == 0 && cap > 0 {
        assert((q + 1) * step <= (1 - adjust) * step) by (nonlinear_arith)
            requires
                q + 1 <= 1 - adjust,
                step > 0,
        ;
    }
}

/// Law: the bar width of the taskbar display is the multiplier times the
/// smallest whole number of pixels that lets `data_size` bars cover the
/// width: `data_size` bars of the base width reach across, one pixel less per
/// bar would not; when `data_size` divides the width the base width is the
/// exact quotient. A zero multiplier gives zero-width bars.
pub proof fn lemma_taskbar_step(
    outer_left: i32,
    inner_left: i32,
    inner_right: i32,
    data_size: usize,
    step_multiplier: u32,
    bars: bool,
    invert: bool,
)
    requires
        inner_right - inner_left > 0,
        data_size >= 1,
    ensures
        ({
            let width = inner_right - inner_left;
            let r = taskbar_layout(
                outer_left as int,
                inner_left as int,
                inner_right as int,
                data_size as int,
                step_multiplier as int,
                bars,
                invert,
            );
            let step = r->0.step as int;
            &&& r is Some
            &&& step_multiplier == 0 ==> step == 0
            &&& step_multiplier > 0 ==> {
                &&& step % (step_multiplier as int) == 0
                &&& (step / (step_multiplier as int)) * data_size >= width
                &&& (step / (step_multiplier as int) - 1) * data_size < width
            }
            &&& width % (data_size as int) == 0 ==> step == (width / (data_size as int))
                * step_multiplier
        }),
{
    let width = inner_right - inner_left;
    let ds = data_size as int;
    let m = step_multiplier as int;
    let c = ceil_div(width, ds);
    lemma_ceil_div(width, ds);
    assert(0 <= c * m < 0x1_0000_0000 * 0x1_0000_0000) by (nonlinear_arith)
        requires
            1 <= c <= width,
            width < 0x1_0000_0000,
            0 <= m < 0x1_0000_0000,
    ;
    if m > 0 {
        assert((c * m) % m == 0 && (c * m) / m == c) by (nonlinear_arith)
            requires
                m > 0,
                c >= 1,
        ;
    }
}

/// The facts about `ceil_div` that the laws use.
proof fn lemma_ceil_div(width: int, ds: int)
    requires
        width >= 1,
        ds >= 1,
    ensures
        1 <= ceil_div(width, ds) <= width,
        ceil_div(width, ds) * ds >= width,
        (ceil_div(width, ds) - 1) * ds < width,
        width % ds == 0 ==> ceil_div(width, ds) == width / ds,
{
    let q = width / ds;
    let r = width % ds;
    assert(q * ds + r == width && 0 <= r < ds && q >= 0) by (nonlinear_arith)
        requires
            q == width / ds,
            r == width % ds,
            ds >= 1,
            width >= 1,
    ;
    if r == 0 {
        assert(q >= 1) by (nonlinear_arith)
            requires
                q * ds == width,
                width >= 1,
                ds >= 1,
                q >= 0,
        ;
        assert(q <= width) by (nonlinear_arith)
            requires
                q * ds == width,
                ds >= 1,
                q >= 0,
        ;
        assert((q - 1) * ds < width) by (nonlinear_arith)
            requires
                q * ds == width,
                ds >= 1,
        ;
    } else {
        assert(q + 1 <= width) by (nonlinear_arith)
            requires
                q * ds + r == width,
                0 < r < ds,
                q >= 0,
        ;
        assert((q + 1) * ds >= width) by (nonlinear_arith)
            requires
                q * ds + r == width,
                r < ds,
        ;
    }
}

/// Law: the bar counts of the taskbar display are the numbers of whole bar
/// widths in the half spans left and right of the centre (moved by one, see
/// `taskbar_layout`), capped at `data_size / 2 - 1`, plus the extra bar of
/// bar mode; with zero-width bars every non-empty side gets the cap.
pub proof fn lemma_taskbar_counts(
    outer_left: i32,
    inner_left: i32,
    inner_right: i32,
    data_size: usize,
    step_multiplier: u32,
    bars: bool,
    invert: bool,
)
    requires
        inner_right - inner_left > 0,
        data_size >= 2,
    ensures
        ({
            let width = inner_right - inner_left;
            let l = taskbar_layout(
                outer_left as int,
                inner_left as int,
                inner_right as int,
                data_size as int,
                step_multiplier as int,
                bars,
                invert,
            )->0;
            let extra = if bars && !invert {
                1int
            } else {
                0
            };
            let cap = data_size / 2 - 1;
            let step = l.step as int;
            &&& step > 0 ==> counts_steps(
                l.left_count - extra,
                width / 2,
                step,
                if invert {
                    1
                } else {
                    -1
                },
                cap,
            )
            &&& step > 0 ==> counts_steps(l.right_count - extra, width - width / 2, step, 1, cap)
            &&& step == 0 ==> l.left_count == (if width / 2 > 0 {
                cap
            } else {
                0
            }) + extra
            &&& step == 0 ==> l.right_count == cap + extra
        }),
{
    let width = inner_right - inner_left;
    let ds = data_size as int;
    let m = step_multiplier as int;
    let c = ceil_div(width, ds);
    lemma_ceil_div(width, ds);
    assert(0 <= c * m < 0x1_0000_0000 * 0x1_0000_0000) by (nonlinear_arith)
        requires
            1 <= c <= width,
            width < 0x1_0000_0000,
            0 <= m < 0x1_0000_0000,
    ;
    let step = c * m;
    let cap = ds / 2 - 1;
    if step > 0 {
        lemma_bar_count_counts_steps(
            width / 2,
            step,
            if invert {
                1
            } else {
                -1
            },
            cap,
        );
        lemma_bar_count_counts_steps(width - width / 2, step, 1, cap);
    }
}

/// Law: the settings preview is the taskbar display of a 1920-pixel taskbar
/// with the same bar count, multiplier and mode, drawn in the normal
/// direction.
pub proof fn lemma_preview_is_taskbar(
    preview_width: i32,
    preview_height: i32,
    data_size: usize,
    step_multiplier: u32,
    bars: bool,
)
    requires
        preview_width > 0,
        preview_height > 0,
        data_size >= 1,
    ensures
        preview_layout(
            preview_width as int,
            preview_height as int,
            data_size as int,
            step_multiplier as int,
            bars,
        ) == taskbar_layout(
            0,
            0,
            PREVIEW_VIRTUAL_WIDTH as int,
            data_size as int,
            step_multiplier as int,
            bars,
            false,
        ),
{
}

/// Law: the bar width of the preview grows linearly with the multiplier.
pub proof fn lemma_preview_step_scales(
    preview_width: i32,
    preview_height: i32,
    data_size: usize,
    step_multiplier: u32,
    bars: bool,
)
    requires
        preview_width > 0,
        preview_height > 0,
        data_size >= 1,
    ensures
        preview_layout(
            preview_width as int,
            preview_height as int,
            data_size as int,
            step_multiplier as int,
            bars,
        )->0.step == step_multiplier * preview_layout(
            preview_width as int,
            preview_height as int,
            data_size as int,
            1,
            bars,
        )->0.step,
{
    let c = ceil_div(PREVIEW_VIRTUAL_WIDTH as int, data_size as int);
    lemma_ceil_div(PREVIEW_VIRTUAL_WIDTH as int, data_size as int);
    let m = step_multiplier as int;
    assert(0 <= c * m < 0x1_0000_0000 * 0x1_0000_0000 && c * m == m * c) by (nonlinear_arith)
        requires
            1 <= c <= 1920,
            0 <= m < 0x1_0000_0000,
    ;
}

/// The horizontal shift that centres a `preview_width` window on the
/// 1920-pixel virtual taskbar (division rounds toward zero).
pub open spec fn preview_offset(preview_width: int) -> int {
    let d = PREVIEW_VIRTUAL_WIDTH - preview_width;
    if d >= 0 {
        d / 2
    } else {
        -((-d) / 2)
    }
}

fn count_bars(span: u64, step: u64, add_one: bool, cap: usize) -> (n: usize)
    requires
        span <= 0x1_0000_0000,
    ensures
        n == bar_count(
            span as int,
            step as int,
            if add_one {
                1
            } else {
                -1
            },
            cap as int,
        ),
{
    if step == 0 {
        if span > 0 {
            cap
        } else {
            0
        }
    } else {
        let q = span / step;
        let adjusted: u64 = if add_one {
            q + 1
        } else if q > 0 {
            q - 1
        } else {
            0
        };
        if adjusted < cap as u64 {
            adjusted as usize
        } else {
            cap
        }
    }
}

/// Lays out the bars of the taskbar display (see `taskbar_layout`), for an
/// inner area from `inner_left` to `inner_right` in a window whose left edge
/// is `outer_left`, `data_size` bars in all and bars `step_multiplier` times
/// the base width.
pub fn taskbar_bar_layout(
    outer_left: i32,
    inner_left: i32,
    inner_right: i32,
    data_size: usize,
    step_multiplier: u32,
    bars: bool,
    invert: bool,
) -> (l: Option<BarLayout>)
    requires
        i32::MIN <= inner_right - inner_left <= i32::MAX,
        inner_right - inner_left > 0 && data_size > 0 ==> {
            &&& data_size >= 2
            &&& i32::MIN <= inner_left - outer_left <= i32::MAX
            &&& i32::MIN <= inner_left - outer_left + (inner_right - inner_left) / 2 <= i32::MAX
            &&& i32::MIN <= inner_right - outer_left <= i32::MAX
        },
    ensures
        l == taskbar_layout(
            outer_left as int,
            inner_left as int,
            inner_right as int,
            data_size as int,
            step_multiplier as int,
            bars,
            invert,
        ),
{
    let width: i64 = inner_right as i64 - inner_left as i64;
    if width <= 0 || data_size == 0 {
        return None;
    }
    let half = data_size / 2;
    let w: u64 = width as u64;
    let ds: u64 = data_size as u64;
    let base: u64 = w / ds + if w % ds == 0 {
        0
    } else {
        1
    };
    assert(base <= w) by (nonlinear_arith)
        requires
            base == w / ds + if w % ds == 0 {
                0int
            } else {
                1
            },
            ds >= 1,
            w >= 1,
    ;
    assert(base * step_multiplier <= 0x8000_0000u64 * 0x1_0000_0000u64) by (nonlinear_arith)
        requires
            base <= w,
            w <= 0x8000_0000u64,
            step_multiplier <= 0xFFFF_FFFFu32,
    ;
    let step: u64 = base * step_multiplier as u64;
    let offset: i64 = inner_left as i64 - outer_left as i64;
    let to_left: u64 = w / 2;
    let to_right: u64 = w - w / 2;
    let center: i64 = offset + to_left as i64;
    let extra: usize = if bars && !invert {
        1
    } else {
        0
    };
    let left_count = count_bars(to_left, step, invert, half - 1) + extra;
    let right_count = count_bars(to_right, step, true, half - 1) + extra;
    let left_origin = if invert {
        offset
    } else {
        center
    };
    let right_origin = if invert {
        inner_right as i64 - outer_left as i64
    } else {
        center
    };
    Some(
        BarLayout {
            step,
            left_origin,
            right_origin,
            left_leftward: !invert,
            left_count,
            right_count,
        },
    )
}

/// Lays out the bars of the settings preview (see `preview_layout`).
pub fn preview_bar_layout(
    preview_width: i32,
    preview_height: i32,
    data_size: usize,
    step_multiplier: u32,
    bars: bool,
) -> (l: Option<BarLayout>)
    requires
        preview_width > 0 && preview_height > 0 ==> data_size >= 2,
    ensures
        l == preview_layout(
            preview_width as int,
            preview_height as int,
            data_size as int,
            step_multiplier as int,
            bars,
        ),
{
    if preview_width <= 0 || preview_height <= 0 {
        return None;
    }
    let half = data_size / 2;
    let ds: u64 = data_size as u64;
    let virtual_width: u64 = 1920;
    let base: u64 = virtual_width / ds + if virtual_width % ds == 0 {
        0
    } else {
        1
    };
    assert(base <= 1920) by (nonlinear_arith)
        requires
            base == virtual_width / ds + if virtual_width % ds == 0 {
                0int
            } else {
                1
            },
            virtual_width == 1920,
            ds >= 1,
    ;
    assert(base * step_multiplier <= 1920 * 0x1_0000_0000u64) by (nonlinear_arith)
        requires
            base <= 1920,
            step_multiplier <= 0xFFFF_FFFFu32,
    ;
    let step: u64 = base * step_multiplier as u64;
    let center: u64 = 960;
    let extra: usize = if bars {
        1
    } else {
        0
    };
    let left_count = count_bars(center, step, false, half - 1) + extra;
    let right_count = count_bars(center, step, true, half - 1) + extra;
    Some(
        BarLayout {
            step,
            left_origin: 960,
            right_origin: 960,
            left_leftward: true,
            left_count,
            right_count,
        },
    )
}

/// The horizontal shift of the preview window on the 1920-pixel virtual
/// taskbar.
pub fn preview_shift(preview_width: i32) -> (x: i32)
    requires
        preview_width > 0,
    ensures
        x == preview_offset(preview_width as int),
{
    (PREVIEW_VIRTUAL_WIDTH - preview_width) / 2
}

} // verus!
