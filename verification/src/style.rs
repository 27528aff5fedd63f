//! Style value model: fixed-point scalars, lengths, colors, and the closed
//! set of style directives, together with the interpolation used by the
//! style engine for timed hover/pressed/active transitions.

use vstd::prelude::*;
use vstd::arithmetic::div_mod::lemma_div_is_ordered;
use vstd::arithmetic::div_mod::lemma_div_multiples_vanish;
use vstd::arithmetic::mul::lemma_mul_inequality;
use vstd::arithmetic::mul::lemma_mul_is_commutative;
use vstd::arithmetic::mul::lemma_mul_basics;
use crate::util::clone_vec_copy;

verus! {

/// One whole unit, in thousandths.
pub const MILLI_ONE: i64 = 1000;

/// A transition ratio spans `0 ..= RATIO_ONE` (thousandths of full progress).
pub const RATIO_ONE: u32 = 1000;

/// A scalar in thousandths: `milli == 1000` stands for `1.0`.
///
/// The markup dialect writes decimal numbers; they are kept exactly up to
/// three fractional digits, which is also the resolution of every
/// interpolation ratio.
#[derive(Clone, Copy, Debug, PartialEq, Eq, Structural)]
pub struct Num {
    pub milli: i64,
}

impl Num {
    /// The scalar for a whole number of units.
    pub fn from_units(units: i64) -> (r: Num)
        requires
            -9_000_000_000_000_000 <= units <= 9_000_000_000_000_000,
        ensures
            r.milli == units * 1000,
    {
        Num { milli: units * 1000 }
    }

    pub open spec fn as_milli(self) -> int {
        self.milli as int
    }

    /// True when the scalar stands for a whole number of units.
    pub open spec fn is_whole(self) -> bool {
        self.milli % 1000 == 0
    }
}

/// Linear interpolation on thousandth-scaled integers, with the ratio in
/// `0 ..= 1000`. All divisions act on non-negative operands, so the spec's
/// Euclidean division and the executable truncating division agree.
pub open spec fn lerp_int(start: int, end: int, ratio: int) -> int {
    if end >= start {
        start + (end - start) * ratio / 1000
    } else {
        start - (start - end) * ratio / 1000
    }
}

/// Interpolation hits `start` exactly at ratio `0`.
pub proof fn lemma_lerp_int_at_zero(start: int, end: int)
    ensures
        lerp_int(start, end, 0) == start,
{
    if end >= start {
        lemma_mul_basics(end - start);
        assert(0int / 1000 == 0) by {
            vstd::arithmetic::div_mod::lemma_div_basics(1000);
        }
    } else {
        lemma_mul_basics(start - end);
        assert(0int / 1000 == 0) by {
            vstd::arithmetic::div_mod::lemma_div_basics(1000);
        }
    }
}

/// Interpolation hits `end` exactly at the full ratio.
pub proof fn lemma_lerp_int_at_one(start: int, end: int)
    ensures
        lerp_int(start, end, 1000) == end,
{
    if end >= start {
        lemma_mul_is_commutative(end - start, 1000);
        lemma_div_multiples_vanish(end - start, 1000);
    } else {
        lemma_mul_is_commutative(start - end, 1000);
        lemma_div_multiples_vanish(start - end, 1000);
    }
}

/// Interpolation never leaves the closed interval between `start` and `end`.
pub proof fn lemma_lerp_int_bounds(start: int, end: int, ratio: int)
    requires
        0 <= ratio <= 1000,
    ensures
        end >= start ==> start <= lerp_int(start, end, ratio) <= end,
        end <= start ==> end <= lerp_int(start, end, ratio) <= start,
{
    if end >= start {
        let d = end - start;
        lemma_mul_basics(d);
        lemma_mul_is_commutative(ratio, d);
        lemma_mul_is_commutative(1000, d);
        lemma_mul_inequality(0, ratio, d);
        lemma_mul_inequality(ratio, 1000, d);
        lemma_div_is_ordered(0, d * ratio, 1000);
        lemma_div_is_ordered(d * ratio, d * 1000, 1000);
        lemma_div_multiples_vanish(d, 1000);
        assert(0int / 1000 == 0) by {
            vstd::arithmetic::div_mod::lemma_div_basics(1000);
        }
    } else {
        let d = start - end;
        lemma_mul_basics(d);
        lemma_mul_is_commutative(ratio, d);
        lemma_mul_is_commutative(1000, d);
        lemma_mul_inequality(0, ratio, d);
        lemma_mul_inequality(ratio, 1000, d);
        lemma_div_is_ordered(0, d * ratio, 1000);
        lemma_div_is_ordered(d * ratio, d * 1000, 1000);
        lemma_div_multiples_vanish(d, 1000);
        assert(0int / 1000 == 0) by {
            vstd::arithmetic::div_mod::lemma_div_basics(1000);
        }
    }
}

/// Interpolation is monotone in the ratio: toward `end` when `end >= start`,
/// away from `start` symmetrically otherwise.
pub proof fn lemma_lerp_int_monotone(start: int, end: int, r1: int, r2: int)
    requires
        0 <= r1 <= r2 <= 1000,
    ensures
        end >= start ==> lerp_int(start, end, r1) <= lerp_int(start, end, r2),
        end <= start ==> lerp_int(start, end, r1) >= lerp_int(start, end, r2),
{
    if end == start {
        lemma_mul_basics(r1);
        lemma_mul_basics(r2);
        assert(0int / 1000 == 0) by {
            vstd::arithmetic::div_mod::lemma_div_basics(1000);
        }
    } else if end > start {
        let d = end - start;
        lemma_mul_is_commutative(r1, d);
        lemma_mul_is_commutative(r2, d);
        lemma_mul_inequality(r1, r2, d);
        lemma_div_is_ordered(d * r1, d * r2, 1000);
    } else {
        let d = start - end;
        lemma_mul_is_commutative(r1, d);
        lemma_mul_is_commutative(r2, d);
        lemma_mul_inequality(r1, r2, d);
        lemma_div_is_ordered(d * r1, d * r2, 1000);
    }
}

/// Executable interpolation on thousandth-scaled `i64` values.
pub fn lerp_milli(start: i64, end: i64, ratio: u32) -> (r: i64)
    requires
        ratio <= 1000,
    ensures
        r as int == lerp_int(start as int, end as int, ratio as int),
{
    if end >= start {
        let delta: u128 = (end as i128 - start as i128) as u128;
        proof {
            assert(delta as int * (ratio as int) <= 0xffff_ffff_ffff_ffffu64 as int * 1000)
                by (nonlinear_arith)
                requires
                    0 <= delta as int <= 0xffff_ffff_ffff_ffffu64 as int,
                    0 <= ratio as int <= 1000,
            ;
        }
        let inc: u128 = delta * (ratio as u128) / 1000;
        proof {
            let d = end as int - start as int;
            lemma_mul_basics(d);
            lemma_mul_is_commutative(ratio as int, d);
            lemma_mul_is_commutative(1000, d);
            lemma_mul_inequality(ratio as int, 1000, d);
            lemma_div_is_ordered(d * ratio as int, d * 1000, 1000);
            lemma_div_multiples_vanish(d, 1000);
            lemma_mul_inequality(0, ratio as int, d);
            lemma_div_is_ordered(0, d * ratio as int, 1000);
            assert(0int / 1000 == 0) by {
                vstd::arithmetic::div_mod::lemma_div_basics(1000);
            }
        }
        (start as i128 + inc as i128) as i64
    } else {
        let delta: u128 = (start as i128 - end as i128) as u128;
        proof {
            assert(delta as int * (ratio as int) <= 0xffff_ffff_ffff_ffffu64 as int * 1000)
                by (nonlinear_arith)
                requires
                    0 <= delta as int <= 0xffff_ffff_ffff_ffffu64 as int,
                    0 <= ratio as int <= 1000,
            ;
        }
        let dec: u128 = delta * (ratio as u128) / 1000;
        proof {
            let d = start as int - end as int;
            lemma_mul_basics(d);
            lemma_mul_is_commutative(ratio as int, d);
            lemma_mul_is_commutative(1000, d);
            lemma_mul_inequality(ratio as int, 1000, d);
            lemma_div_is_ordered(d * ratio as int, d * 1000, 1000);
            lemma_div_multiples_vanish(d, 1000);
            lemma_mul_inequality(0, ratio as int, d);
            lemma_div_is_ordered(0, d * ratio as int, 1000);
            assert(0int / 1000 == 0) by {
                vstd::arithmetic::div_mod::lemma_div_basics(1000);
            }
        }
        (start as i128 - dec as i128) as i64
    }
}

/// A length: a scalar tagged with its unit, or `Auto`.
#[derive(Clone, Copy, Debug, PartialEq, Eq, Structural)]
pub enum Val {
    Auto,
    Px(Num),
    Percent(Num),
    Vw(Num),
    Vh(Num),
    VMin(Num),
    VMax(Num),
}

/// Two lengths interpolate only when they carry the same interpolatable
/// unit; the style engine treats pixel and percent lengths as continuous
/// and every other pairing as a unit mismatch, exactly like the baseline
/// merge it models.
pub open spec fn same_lerp_unit(a: Val, b: Val) -> bool {
    ||| a is Px && b is Px
    ||| a is Percent && b is Percent
}

/// Interpolated length: pixel with pixel and percent with percent move
/// linearly; any other pairing keeps the baseline value unchanged.
pub open spec fn spec_lerp_val(start: Val, end: Val, ratio: int) -> Val {
    match (start, end) {
        (Val::Px(a), Val::Px(b)) => Val::Px(
            Num { milli: lerp_int(a.milli as int, b.milli as int, ratio) as i64 },
        ),
        (Val::Percent(a), Val::Percent(b)) => Val::Percent(
            Num { milli: lerp_int(a.milli as int, b.milli as int, ratio) as i64 },
        ),
        _ => start,
    }
}

/// Executable counterpart of [`spec_lerp_val`].
pub fn lerp_val(start: &Val, end: &Val, ratio: u32) -> (r: Val)
    requires
        ratio <= 1000,
    ensures
        r == spec_lerp_val(*start, *end, ratio as int),
{
    match (start, end) {
        (Val::Px(a), Val::Px(b)) => {
            proof {
                lemma_lerp_int_bounds(a.milli as int, b.milli as int, ratio as int);
            }
            Val::Px(Num { milli: lerp_milli(a.milli, b.milli, ratio) })
        },
        (Val::Percent(a), Val::Percent(b)) => {
            proof {
                lemma_lerp_int_bounds(a.milli as int, b.milli as int, ratio as int);
            }
            Val::Percent(Num { milli: lerp_milli(a.milli, b.milli, ratio) })
        },
        _ => *start,
    }
}

/// Law: for matching-unit length pairs, interpolation returns `start` at
/// ratio `0`, `end` at the full ratio, and moves monotonically between the
/// two; for mismatched units it always returns the baseline `start`.
pub proof fn lemma_val_interpolation(start: Val, end: Val, r1: int, r2: int)
    requires
        0 <= r1 <= r2 <= 1000,
    ensures
        spec_lerp_val(start, end, 0) == start,
        same_lerp_unit(start, end) ==> spec_lerp_val(start, end, 1000) == end,
        !same_lerp_unit(start, end) ==> spec_lerp_val(start, end, r1) == start,
        same_lerp_unit(start, end) ==> val_milli(end) >= val_milli(start)
            ==> val_milli(spec_lerp_val(start, end, r1)) <= val_milli(
            spec_lerp_val(start, end, r2),
        ),
        same_lerp_unit(start, end) ==> val_milli(end) <= val_milli(start)
            ==> val_milli(spec_lerp_val(start, end, r1)) >= val_milli(
            spec_lerp_val(start, end, r2),
        ),
{
    match (start, end) {
        (Val::Px(a), Val::Px(b)) => {
            lemma_lerp_int_at_zero(a.milli as int, b.milli as int);
            lemma_lerp_int_at_one(a.milli as int, b.milli as int);
            lemma_lerp_int_monotone(a.milli as int, b.milli as int, r1, r2);
            lemma_lerp_int_bounds(a.milli as int, b.milli as int, r1);
            lemma_lerp_int_bounds(a.milli as int, b.milli as int, r2);
        },
        (Val::Percent(a), Val::Percent(b)) => {
            lemma_lerp_int_at_zero(a.milli as int, b.milli as int);
            lemma_lerp_int_at_one(a.milli as int, b.milli as int);
            lemma_lerp_int_monotone(a.milli as int, b.milli as int, r1, r2);
            lemma_lerp_int_bounds(a.milli as int, b.milli as int, r1);
            lemma_lerp_int_bounds(a.milli as int, b.milli as int, r2);
        },
        _ => {},
    }
}

/// The scalar inside a length (`Auto` reads as zero); used to state
/// monotonicity of interpolation.
pub open spec fn val_milli(v: Val) -> int {
    match v {
        Val::Auto => 0,
        Val::Px(n) => n.milli as int,
        Val::Percent(n) => n.milli as int,
        Val::Vw(n) => n.milli as int,
        Val::Vh(n) => n.milli as int,
        Val::VMin(n) => n.milli as int,
        Val::VMax(n) => n.milli as int,
    }
}

/// An sRGB color with alpha, eight bits per channel. Every accepted color
/// syntax normalizes to these four channels, so equal colors written in
/// different notations compare equal.
#[derive(Clone, Copy, Debug, PartialEq, Eq, Structural)]
pub struct UiColor {
    pub r: u8,
    pub g: u8,
    pub b: u8,
    pub a: u8,
}

impl UiColor {
    pub fn rgba(r: u8, g: u8, b: u8, a: u8) -> (c: UiColor)
        ensures
            c == (UiColor { r, g, b, a }),
    {
        UiColor { r, g, b, a }
    }

    /// Fully transparent black: the absence of a color.
    pub fn none() -> (c: UiColor)
        ensures
            c == (UiColor { r: 0, g: 0, b: 0, a: 0 }),
    {
        UiColor { r: 0, g: 0, b: 0, a: 0 }
    }

    /// Opaque white.
    pub fn white() -> (c: UiColor)
        ensures
            c == (UiColor { r: 255, g: 255, b: 255, a: 255 }),
    {
        UiColor { r: 255, g: 255, b: 255, a: 255 }
    }
}

/// Component-wise color interpolation on the stored 8-bit sRGB
/// channels, alpha included. This deviates deliberately from a linear
/// (non-gamma) color space: the sRGB-to-linear transfer is a
/// floating-point power curve and is the host's work at the display
/// boundary, so the verified engine interpolates in the stored encoding.
pub open spec fn spec_lerp_color(start: UiColor, end: UiColor, ratio: int) -> UiColor {
    UiColor {
        r: lerp_int(start.r as int, end.r as int, ratio) as u8,
        g: lerp_int(start.g as int, end.g as int, ratio) as u8,
        b: lerp_int(start.b as int, end.b as int, ratio) as u8,
        a: lerp_int(start.a as int, end.a as int, ratio) as u8,
    }
}

fn lerp_channel(start: u8, end: u8, ratio: u32) -> (r: u8)
    requires
        ratio <= 1000,
    ensures
        r as int == lerp_int(start as int, end as int, ratio as int),
{
    proof {
        lemma_lerp_int_bounds(start as int, end as int, ratio as int);
    }
    lerp_milli(start as i64, end as i64, ratio) as u8
}

/// Executable counterpart of [`spec_lerp_color`].
pub fn lerp_color(start: &UiColor, end: &UiColor, ratio: u32) -> (c: UiColor)
    requires
        ratio <= 1000,
    ensures
        c == spec_lerp_color(*start, *end, ratio as int),
{
    UiColor {
        r: lerp_channel(start.r, end.r, ratio),
        g: lerp_channel(start.g, end.g, ratio),
        b: lerp_channel(start.b, end.b, ratio),
        a: lerp_channel(start.a, end.a, ratio),
    }
}

/// Law: color interpolation is exact at both ends and component-wise
/// monotone.
pub proof fn lemma_color_interpolation(start: UiColor, end: UiColor)
    ensures
        spec_lerp_color(start, end, 0) == start,
        spec_lerp_color(start, end, 1000) == end,
{
    lemma_lerp_int_at_zero(start.r as int, end.r as int);
    lemma_lerp_int_at_zero(start.g as int, end.g as int);
    lemma_lerp_int_at_zero(start.b as int, end.b as int);
    lemma_lerp_int_at_zero(start.a as int, end.a as int);
    lemma_lerp_int_at_one(start.r as int, end.r as int);
    lemma_lerp_int_at_one(start.g as int, end.g as int);
    lemma_lerp_int_at_one(start.b as int, end.b as int);
    lemma_lerp_int_at_one(start.a as int, end.a as int);
}

/// A rectangle of lengths, one per side.
#[derive(Clone, Copy, Debug, PartialEq, Eq, Structural)]
pub struct UiRect {
    pub left: Val,
    pub right: Val,
    pub top: Val,
    pub bottom: Val,
}

impl UiRect {
    /// The same length on all four sides.
    pub fn all(v: Val) -> (r: UiRect)
        ensures
            r == (UiRect { left: v, right: v, top: v, bottom: v }),
    {
        UiRect { left: v, right: v, top: v, bottom: v }
    }

    /// One length per axis: `x` for left and right, `y` for top and bottom.
    pub fn axes(x: Val, y: Val) -> (r: UiRect)
        ensures
            r == (UiRect { left: x, right: x, top: y, bottom: y }),
    {
        UiRect { left: x, right: x, top: y, bottom: y }
    }
}

/// Side-wise rectangle interpolation.
pub open spec fn spec_lerp_rect(start: UiRect, end: UiRect, ratio: int) -> UiRect {
    UiRect {
        left: spec_lerp_val(start.left, end.left, ratio),
        right: spec_lerp_val(start.right, end.right, ratio),
        top: spec_lerp_val(start.top, end.top, ratio),
        bottom: spec_lerp_val(start.bottom, end.bottom, ratio),
    }
}

/// Executable counterpart of [`spec_lerp_rect`].
pub fn lerp_rect(start: &UiRect, end: &UiRect, ratio: u32) -> (r: UiRect)
    requires
        ratio <= 1000,
    ensures
        r == spec_lerp_rect(*start, *end, ratio as int),
{
    UiRect {
        left: lerp_val(&start.left, &end.left, ratio),
        right: lerp_val(&start.right, &end.right, ratio),
        top: lerp_val(&start.top, &end.top, ratio),
        bottom: lerp_val(&start.bottom, &end.bottom, ratio),
    }
}

/// A rectangle of pixel scalars, one per side (nine-slice borders).
#[derive(Clone, Copy, Debug, PartialEq, Eq, Structural)]
pub struct BorderRect {
    pub left: Num,
    pub right: Num,
    pub top: Num,
    pub bottom: Num,
}

/// A pair of scalars.
#[derive(Clone, Copy, Debug, PartialEq, Eq, Structural)]
pub struct Vec2n {
    pub x: Num,
    pub y: Num,
}

/// An axis-aligned region given by two corners.
#[derive(Clone, Copy, Debug, PartialEq, Eq, Structural)]
pub struct RectRegion {
    pub min: Vec2n,
    pub max: Vec2n,
}

/// A pair of whole pixel counts (atlas cells, paddings, offsets).
#[derive(Clone, Copy, Debug, PartialEq, Eq, Structural)]
pub struct UVec2 {
    pub x: u32,
    pub y: u32,
}

/// How a node takes part in layout. The markup keyword `none` (the node is
/// skipped entirely) is the `NoneLayout` variant.
#[derive(Clone, Copy, Debug, PartialEq, Eq, Structural)]
pub enum DisplayMode {
    NoneLayout,
    Flex,
    Block,
    Grid,
}

#[derive(Clone, Copy, Debug, PartialEq, Eq, Structural)]
pub enum PositionType {
    Absolute,
    Relative,
}

#[derive(Clone, Copy, Debug, PartialEq, Eq, Structural)]
pub enum OverflowAxis {
    Visible,
    Hidden,
    Clip,
    Scroll,
}

#[derive(Clone, Copy, Debug, PartialEq, Eq, Structural)]
pub struct Overflow {
    pub x: OverflowAxis,
    pub y: OverflowAxis,
}

#[derive(Clone, Copy, Debug, PartialEq, Eq, Structural)]
pub enum OverflowClipBox {
    ContentBox,
    PaddingBox,
    BorderBox,
}

#[derive(Clone, Copy, Debug, PartialEq, Eq, Structural)]
pub struct OverflowClipMargin {
    pub visual_box: OverflowClipBox,
    pub margin: Num,
}

/// Alignment keywords; `Unset` is the markup keyword `default`.
#[derive(Clone, Copy, Debug, PartialEq, Eq, Structural)]
pub enum AlignItems {
    Unset,
    Center,
    Start,
    FlexEnd,
    Stretch,
    End,
    Baseline,
    FlexStart,
}

/// `Unset` is the baseline default; it has no markup keyword.
#[derive(Clone, Copy, Debug, PartialEq, Eq, Structural)]
pub enum AlignContent {
    Unset,
    Center,
    Start,
    FlexEnd,
    Stretch,
    End,
    SpaceEvenly,
    SpaceAround,
    SpaceBetween,
    FlexStart,
}

#[derive(Clone, Copy, Debug, PartialEq, Eq, Structural)]
pub enum AlignSelf {
    Auto,
    Center,
    Start,
    FlexEnd,
    Stretch,
    End,
    FlexStart,
}

/// `Unset` is the markup keyword `default`.
#[derive(Clone, Copy, Debug, PartialEq, Eq, Structural)]
pub enum JustifyItems {
    Unset,
    Center,
    Start,
    Stretch,
    End,
    Baseline,
}

/// `Unset` is the baseline default; it has no markup keyword.
#[derive(Clone, Copy, Debug, PartialEq, Eq, Structural)]
pub enum JustifyContent {
    Unset,
    Center,
    Start,
    FlexEnd,
    Stretch,
    End,
    SpaceEvenly,
    SpaceAround,
    SpaceBetween,
    FlexStart,
}

#[derive(Clone, Copy, Debug, PartialEq, Eq, Structural)]
pub enum JustifySelf {
    Auto,
    Center,
    Start,
    Stretch,
    End,
    Baseline,
}

/// The markup keyword `default` maps to `Row`.
#[derive(Clone, Copy, Debug, PartialEq, Eq, Structural)]
pub enum FlexDirection {
    Row,
    Column,
    ColumnReverse,
    RowReverse,
}

#[derive(Clone, Copy, Debug, PartialEq, Eq, Structural)]
pub enum FlexWrap {
    Wrap,
    NoWrap,
    WrapReverse,
}

#[derive(Clone, Copy, Debug, PartialEq, Eq, Structural)]
pub enum GridAutoFlow {
    Row,
    Column,
    RowDense,
    ColumnDense,
}

/// One grid track sizing function.
#[derive(Clone, Copy, Debug, PartialEq, Eq, Structural)]
pub enum GridTrack {
    Auto,
    MinContent,
    MaxContent,
    Px(Num),
    Percent(Num),
    Fr(Num),
    Flex(Num),
    Vh(Num),
    Vw(Num),
    VMin(Num),
    VMax(Num),
}

/// A grid track repeated a fixed number of times.
#[derive(Clone, Copy, Debug, PartialEq, Eq, Structural)]
pub struct RepeatedGridTrack {
    pub repeat: u16,
    pub track: GridTrack,
}

/// Placement of a node in its grid.
#[derive(Clone, Copy, Debug, PartialEq, Eq, Structural)]
pub enum GridPlacement {
    Auto,
    Span(u16),
    Start(i16),
    End(i16),
    StartSpan(i16, u16),
    EndSpan(i16, u16),
}

#[derive(Clone, Copy, Debug, PartialEq, Eq, Structural)]
pub enum JustifyText {
    Left,
    Center,
    Justified,
    Right,
}

#[derive(Clone, Copy, Debug, PartialEq, Eq, Structural)]
pub enum LineBreak {
    AnyCharacter,
    NoWrap,
    WordBoundary,
    WordOrCharacter,
}

#[derive(Clone, Copy, Debug, PartialEq, Eq, Structural)]
pub struct TextLayout {
    pub justify: JustifyText,
    pub linebreak: LineBreak,
}

/// How a slice of a nine-patch image scales.
#[derive(Clone, Copy, Debug, PartialEq, Eq, Structural)]
pub enum SliceScaleMode {
    Stretch,
    Tile(Num),
}

/// Nine-slice description: pixel border widths, scale modes, and the
/// maximal corner scale.
#[derive(Clone, Copy, Debug, PartialEq, Eq, Structural)]
pub struct TextureSlice {
    pub border: BorderRect,
    pub center_scale_mode: SliceScaleMode,
    pub sides_scale_mode: SliceScaleMode,
    pub max_corner_scale: Num,
}

/// How an image stretches into its node.
#[derive(Clone, Copy, Debug, PartialEq, Eq, Structural)]
pub enum NodeImageMode {
    Auto,
    Stretch,
    Sliced(TextureSlice),
    Tiled { tile_x: bool, tile_y: bool, stretch_value: Num },
}

/// A sprite-sheet grid: cell size, grid shape, and optional padding and
/// offset.
#[derive(Clone, Copy, Debug, PartialEq, Eq, Structural)]
pub struct Atlas {
    pub size: UVec2,
    pub columns: u32,
    pub rows: u32,
    pub padding: Option<UVec2>,
    pub offset: Option<UVec2>,
}

/// Frame-advance order of a sprite animation. The alternate variants are
/// only the initial bias; a running animation normalizes them to `Forward`
/// or `Reverse` and flips at the boundaries.
#[derive(Clone, Copy, Debug, PartialEq, Eq, Structural)]
pub enum AnimationDirection {
    Forward,
    Reverse,
    AlternateForward,
    AlternateReverse,
}

/// Easing curve names. Only the name is part of the style model; sampling
/// a curve is the host's floating-point work, and the style engine accepts
/// the sampled ratio as its input.
#[derive(Clone, Copy, Debug, PartialEq, Eq, Structural)]
pub enum EaseKind {
    Linear,
    QuadraticIn,
    QuadraticOut,
    QuadraticInOut,
    CubicIn,
    CubicOut,
    CubicInOut,
    QuarticIn,
    QuarticOut,
    QuarticInOut,
    QuinticIn,
    QuinticOut,
    QuinticInOut,
    SineIn,
    SineOut,
    SineInOut,
    CircularIn,
    CircularOut,
    CircularInOut,
    ExponentialIn,
    ExponentialOut,
    ExponentialInOut,
    ElasticIn,
    ElasticOut,
    ElasticInOut,
    BackIn,
    BackOut,
    BackInOut,
    BounceIn,
    BounceOut,
    BounceInOut,
}

/// Outline drawn outside the border: width, gap, and color.
#[derive(Clone, Copy, Debug, PartialEq, Eq, Structural)]
pub struct Outline {
    pub width: Val,
    pub offset: Val,
    pub color: UiColor,
}

/// A drop shadow around the node box.
#[derive(Clone, Copy, Debug, PartialEq, Eq, Structural)]
pub struct BoxShadowStyle {
    pub color: UiColor,
    pub x_offset: Val,
    pub y_offset: Val,
    pub spread_radius: Val,
    pub blur_radius: Val,
}

/// A shadow behind text: an offset pair and a color.
#[derive(Clone, Copy, Debug, PartialEq, Eq, Structural)]
pub struct TextShadowStyle {
    pub offset: Vec2n,
    pub color: UiColor,
}

/// One style value: a closed tagged union with one variant per visual
/// field. A [`StyleDirective`] optionally wraps a value as a hover,
/// pressed, or active modifier; the wrapped payload is always one of these
/// plain variants, so modifier nesting cannot arise.
#[derive(Debug, PartialEq, Eq)]
pub enum StyleAttr {
    Display(DisplayMode),
    Position(PositionType),
    Overflow(Overflow),
    OverflowClipMargin(OverflowClipMargin),
    Left(Val),
    Right(Val),
    Top(Val),
    Bottom(Val),
    Width(Val),
    Height(Val),
    MinWidth(Val),
    MinHeight(Val),
    MaxWidth(Val),
    MaxHeight(Val),
    AspectRatio(Num),
    AlignItems(AlignItems),
    JustifyItems(JustifyItems),
    AlignSelf(AlignSelf),
    JustifySelf(JustifySelf),
    AlignContent(AlignContent),
    JustifyContent(JustifyContent),
    Margin(UiRect),
    Padding(UiRect),
    Border(UiRect),
    BorderColor(UiColor),
    BorderRadius(UiRect),
    FlexDirection(FlexDirection),
    FlexWrap(FlexWrap),
    FlexGrow(Num),
    FlexShrink(Num),
    FlexBasis(Val),
    RowGap(Val),
    ColumnGap(Val),
    GridAutoFlow(GridAutoFlow),
    GridTemplateRows(Vec<RepeatedGridTrack>),
    GridTemplateColumns(Vec<RepeatedGridTrack>),
    GridAutoRows(Vec<GridTrack>),
    GridAutoColumns(Vec<GridTrack>),
    GridRow(GridPlacement),
    GridColumn(GridPlacement),
    Background(UiColor),
    FontSize(Num),
    FontColor(UiColor),
    /// A font asset path, kept as raw bytes; the host loader turns it into
    /// a handle.
    Font(Vec<u8>),
    TextLayout(TextLayout),
    ImageColor(UiColor),
    ImageRegion(RectRegion),
    ImageScaleMode(NodeImageMode),
    Zindex(i32),
    GlobalZIndex(i32),
    ShadowColor(UiColor),
    ShadowOffset(Val, Val),
    ShadowSpread(Val),
    ShadowBlur(Val),
    TextShadow(TextShadowStyle),
    Outline(Outline),
    /// Interaction-timer length in milliseconds.
    Delay(u32),
    Easing(EaseKind),
    Atlas(Option<Atlas>),
    /// Total animation budget in milliseconds.
    Duration(u32),
    Direction(AnimationDirection),
    Iterations(i64),
    FPS(i64),
    Frames(Vec<i64>),
    Pickable(bool, bool),
}

/// One parsed style directive: a plain style value, or a value wrapped to
/// apply only while the node is hovered, pressed, or active.
#[derive(Debug, PartialEq, Eq)]
pub enum StyleDirective {
    Base(StyleAttr),
    Hover(StyleAttr),
    Pressed(StyleAttr),
    Active(StyleAttr),
}

/// The mathematical value of a [`StyleAttr`]: the same closed union with
/// every list read as a sequence. Contracts speak of this type.
pub enum SpecStyleAttr {
    Display(DisplayMode),
    Position(PositionType),
    Overflow(Overflow),
    OverflowClipMargin(OverflowClipMargin),
    Left(Val),
    Right(Val),
    Top(Val),
    Bottom(Val),
    Width(Val),
    Height(Val),
    MinWidth(Val),
    MinHeight(Val),
    MaxWidth(Val),
    MaxHeight(Val),
    AspectRatio(Num),
    AlignItems(AlignItems),
    JustifyItems(JustifyItems),
    AlignSelf(AlignSelf),
    JustifySelf(JustifySelf),
    AlignContent(AlignContent),
    JustifyContent(JustifyContent),
    Margin(UiRect),
    Padding(UiRect),
    Border(UiRect),
    BorderColor(UiColor),
    BorderRadius(UiRect),
    FlexDirection(FlexDirection),
    FlexWrap(FlexWrap),
    FlexGrow(Num),
    FlexShrink(Num),
    FlexBasis(Val),
    RowGap(Val),
    ColumnGap(Val),
    GridAutoFlow(GridAutoFlow),
    GridTemplateRows(Seq<RepeatedGridTrack>),
    GridTemplateColumns(Seq<RepeatedGridTrack>),
    GridAutoRows(Seq<GridTrack>),
    GridAutoColumns(Seq<GridTrack>),
    GridRow(GridPlacement),
    GridColumn(GridPlacement),
    Background(UiColor),
    FontSize(Num),
    FontColor(UiColor),
    Font(Seq<u8>),
    TextLayout(TextLayout),
    ImageColor(UiColor),
    ImageRegion(RectRegion),
    ImageScaleMode(NodeImageMode),
    Zindex(i32),
    GlobalZIndex(i32),
    ShadowColor(UiColor),
    ShadowOffset(Val, Val),
    ShadowSpread(Val),
    ShadowBlur(Val),
    TextShadow(TextShadowStyle),
    Outline(Outline),
    Delay(u32),
    Easing(EaseKind),
    Atlas(Option<Atlas>),
    Duration(u32),
    Direction(AnimationDirection),
    Iterations(i64),
    FPS(i64),
    Frames(Seq<i64>),
    Pickable(bool, bool),
}

impl View for StyleAttr {
    type V = SpecStyleAttr;

    open spec fn view(&self) -> SpecStyleAttr {
        match *self {
            StyleAttr::Display(v) => SpecStyleAttr::Display(v),
            StyleAttr::Position(v) => SpecStyleAttr::Position(v),
            StyleAttr::Overflow(v) => SpecStyleAttr::Overflow(v),
            StyleAttr::OverflowClipMargin(v) => SpecStyleAttr::OverflowClipMargin(v),
            StyleAttr::Left(v) => SpecStyleAttr::Left(v),
            StyleAttr::Right(v) => SpecStyleAttr::Right(v),
            StyleAttr::Top(v) => SpecStyleAttr::Top(v),
            StyleAttr::Bottom(v) => SpecStyleAttr::Bottom(v),
            StyleAttr::Width(v) => SpecStyleAttr::Width(v),
            StyleAttr::Height(v) => SpecStyleAttr::Height(v),
            StyleAttr::MinWidth(v) => SpecStyleAttr::MinWidth(v),
            StyleAttr::MinHeight(v) => SpecStyleAttr::MinHeight(v),
            StyleAttr::MaxWidth(v) => SpecStyleAttr::MaxWidth(v),
            StyleAttr::MaxHeight(v) => SpecStyleAttr::MaxHeight(v),
            StyleAttr::AspectRatio(v) => SpecStyleAttr::AspectRatio(v),
            StyleAttr::AlignItems(v) => SpecStyleAttr::AlignItems(v),
            StyleAttr::JustifyItems(v) => SpecStyleAttr::JustifyItems(v),
            StyleAttr::AlignSelf(v) => SpecStyleAttr::AlignSelf(v),
            StyleAttr::JustifySelf(v) => SpecStyleAttr::JustifySelf(v),
            StyleAttr::AlignContent(v) => SpecStyleAttr::AlignContent(v),
            StyleAttr::JustifyContent(v) => SpecStyleAttr::JustifyContent(v),
            StyleAttr::Margin(v) => SpecStyleAttr::Margin(v),
            StyleAttr::Padding(v) => SpecStyleAttr::Padding(v),
            StyleAttr::Border(v) => SpecStyleAttr::Border(v),
            StyleAttr::BorderColor(v) => SpecStyleAttr::BorderColor(v),
            StyleAttr::BorderRadius(v) => SpecStyleAttr::BorderRadius(v),
            StyleAttr::FlexDirection(v) => SpecStyleAttr::FlexDirection(v),
            StyleAttr::FlexWrap(v) => SpecStyleAttr::FlexWrap(v),
            StyleAttr::FlexGrow(v) => SpecStyleAttr::FlexGrow(v),
            StyleAttr::FlexShrink(v) => SpecStyleAttr::FlexShrink(v),
            StyleAttr::FlexBasis(v) => SpecStyleAttr::FlexBasis(v),
            StyleAttr::RowGap(v) => SpecStyleAttr::RowGap(v),
            StyleAttr::ColumnGap(v) => SpecStyleAttr::ColumnGap(v),
            StyleAttr::GridAutoFlow(v) => SpecStyleAttr::GridAutoFlow(v),
            StyleAttr::GridTemplateRows(v) => SpecStyleAttr::GridTemplateRows(v@),
            StyleAttr::GridTemplateColumns(v) => SpecStyleAttr::GridTemplateColumns(v@),
            StyleAttr::GridAutoRows(v) => SpecStyleAttr::GridAutoRows(v@),
            StyleAttr::GridAutoColumns(v) => SpecStyleAttr::GridAutoColumns(v@),
            StyleAttr::GridRow(v) => SpecStyleAttr::GridRow(v),
            StyleAttr::GridColumn(v) => SpecStyleAttr::GridColumn(v),
            StyleAttr::Background(v) => SpecStyleAttr::Background(v),
            StyleAttr::FontSize(v) => SpecStyleAttr::FontSize(v),
            StyleAttr::FontColor(v) => SpecStyleAttr::FontColor(v),
            StyleAttr::Font(v) => SpecStyleAttr::Font(v@),
            StyleAttr::TextLayout(v) => SpecStyleAttr::TextLayout(v),
            StyleAttr::ImageColor(v) => SpecStyleAttr::ImageColor(v),
            StyleAttr::ImageRegion(v) => SpecStyleAttr::ImageRegion(v),
            StyleAttr::ImageScaleMode(v) => SpecStyleAttr::ImageScaleMode(v),
            StyleAttr::Zindex(v) => SpecStyleAttr::Zindex(v),
            StyleAttr::GlobalZIndex(v) => SpecStyleAttr::GlobalZIndex(v),
            StyleAttr::ShadowColor(v) => SpecStyleAttr::ShadowColor(v),
            StyleAttr::ShadowOffset(x, y) => SpecStyleAttr::ShadowOffset(x, y),
            StyleAttr::ShadowSpread(v) => SpecStyleAttr::ShadowSpread(v),
            StyleAttr::ShadowBlur(v) => SpecStyleAttr::ShadowBlur(v),
            StyleAttr::TextShadow(v) => SpecStyleAttr::TextShadow(v),
            StyleAttr::Outline(v) => SpecStyleAttr::Outline(v),
            StyleAttr::Delay(v) => SpecStyleAttr::Delay(v),
            StyleAttr::Easing(v) => SpecStyleAttr::Easing(v),
            StyleAttr::Atlas(v) => SpecStyleAttr::Atlas(v),
            StyleAttr::Duration(v) => SpecStyleAttr::Duration(v),
            StyleAttr::Direction(v) => SpecStyleAttr::Direction(v),
            StyleAttr::Iterations(v) => SpecStyleAttr::Iterations(v),
            StyleAttr::FPS(v) => SpecStyleAttr::FPS(v),
            StyleAttr::Frames(v) => SpecStyleAttr::Frames(v@),
            StyleAttr::Pickable(a, b) => SpecStyleAttr::Pickable(a, b),
        }
    }
}

/// The mathematical value of a [`StyleDirective`].
pub enum SpecStyleDirective {
    Base(SpecStyleAttr),
    Hover(SpecStyleAttr),
    Pressed(SpecStyleAttr),
    Active(SpecStyleAttr),
}

impl View for StyleDirective {
    type V = SpecStyleDirective;

    open spec fn view(&self) -> SpecStyleDirective {
        match self {
            StyleDirective::Base(a) => SpecStyleDirective::Base(a@),
            StyleDirective::Hover(a) => SpecStyleDirective::Hover(a@),
            StyleDirective::Pressed(a) => SpecStyleDirective::Pressed(a@),
            StyleDirective::Active(a) => SpecStyleDirective::Active(a@),
        }
    }
}

/// The sequence of mathematical directive values behind a directive list.
pub open spec fn view_directives(s: Seq<StyleDirective>) -> Seq<SpecStyleDirective> {
    s.map_values(|d: StyleDirective| d@)
}

impl Clone for StyleAttr {
    /// A clone carries the same mathematical value as the original.
    fn clone(&self) -> (r: Self)
        ensures
            r@ == self@,
    {
        match self {
            StyleAttr::Display(v) => StyleAttr::Display(*v),
            StyleAttr::Position(v) => StyleAttr::Position(*v),
            StyleAttr::Overflow(v) => StyleAttr::Overflow(*v),
            StyleAttr::OverflowClipMargin(v) => StyleAttr::OverflowClipMargin(*v),
            StyleAttr::Left(v) => StyleAttr::Left(*v),
            StyleAttr::Right(v) => StyleAttr::Right(*v),
            StyleAttr::Top(v) => StyleAttr::Top(*v),
            StyleAttr::Bottom(v) => StyleAttr::Bottom(*v),
            StyleAttr::Width(v) => StyleAttr::Width(*v),
            StyleAttr::Height(v) => StyleAttr::Height(*v),
            StyleAttr::MinWidth(v) => StyleAttr::MinWidth(*v),
            StyleAttr::MinHeight(v) => StyleAttr::MinHeight(*v),
            StyleAttr::MaxWidth(v) => StyleAttr::MaxWidth(*v),
            StyleAttr::MaxHeight(v) => StyleAttr::MaxHeight(*v),
            StyleAttr::AspectRatio(v) => StyleAttr::AspectRatio(*v),
            StyleAttr::AlignItems(v) => StyleAttr::AlignItems(*v),
            StyleAttr::JustifyItems(v) => StyleAttr::JustifyItems(*v),
            StyleAttr::AlignSelf(v) => StyleAttr::AlignSelf(*v),
            StyleAttr::JustifySelf(v) => StyleAttr::JustifySelf(*v),
            StyleAttr::AlignContent(v) => StyleAttr::AlignContent(*v),
            StyleAttr::JustifyContent(v) => StyleAttr::JustifyContent(*v),
            StyleAttr::Margin(v) => StyleAttr::Margin(*v),
            StyleAttr::Padding(v) => StyleAttr::Padding(*v),
            StyleAttr::Border(v) => StyleAttr::Border(*v),
            StyleAttr::BorderColor(v) => StyleAttr::BorderColor(*v),
            StyleAttr::BorderRadius(v) => StyleAttr::BorderRadius(*v),
            StyleAttr::FlexDirection(v) => StyleAttr::FlexDirection(*v),
            StyleAttr::FlexWrap(v) => StyleAttr::FlexWrap(*v),
            StyleAttr::FlexGrow(v) => StyleAttr::FlexGrow(*v),
            StyleAttr::FlexShrink(v) => StyleAttr::FlexShrink(*v),
            StyleAttr::FlexBasis(v) => StyleAttr::FlexBasis(*v),
            StyleAttr::RowGap(v) => StyleAttr::RowGap(*v),
            StyleAttr::ColumnGap(v) => StyleAttr::ColumnGap(*v),
            StyleAttr::GridAutoFlow(v) => StyleAttr::GridAutoFlow(*v),
            StyleAttr::GridTemplateRows(v) => StyleAttr::GridTemplateRows(clone_vec_copy(v)),
            StyleAttr::GridTemplateColumns(v) => StyleAttr::GridTemplateColumns(
                clone_vec_copy(v),
            ),
            StyleAttr::GridAutoRows(v) => StyleAttr::GridAutoRows(clone_vec_copy(v)),
            StyleAttr::GridAutoColumns(v) => StyleAttr::GridAutoColumns(clone_vec_copy(v)),
            StyleAttr::GridRow(v) => StyleAttr::GridRow(*v),
            StyleAttr::GridColumn(v) => StyleAttr::GridColumn(*v),
            StyleAttr::Background(v) => StyleAttr::Background(*v),
            StyleAttr::FontSize(v) => StyleAttr::FontSize(*v),
            StyleAttr::FontColor(v) => StyleAttr::FontColor(*v),
            StyleAttr::Font(v) => StyleAttr::Font(clone_vec_copy(v)),
            StyleAttr::TextLayout(v) => StyleAttr::TextLayout(*v),
            StyleAttr::ImageColor(v) => StyleAttr::ImageColor(*v),
            StyleAttr::ImageRegion(v) => StyleAttr::ImageRegion(*v),
            StyleAttr::ImageScaleMode(v) => StyleAttr::ImageScaleMode(*v),
            StyleAttr::Zindex(v) => StyleAttr::Zindex(*v),
            StyleAttr::GlobalZIndex(v) => StyleAttr::GlobalZIndex(*v),
            StyleAttr::ShadowColor(v) => StyleAttr::ShadowColor(*v),
            StyleAttr::ShadowOffset(x, y) => StyleAttr::ShadowOffset(*x, *y),
            StyleAttr::ShadowSpread(v) => StyleAttr::ShadowSpread(*v),
            StyleAttr::ShadowBlur(v) => StyleAttr::ShadowBlur(*v),
            StyleAttr::TextShadow(v) => StyleAttr::TextShadow(*v),
            StyleAttr::Outline(v) => StyleAttr::Outline(*v),
            StyleAttr::Delay(v) => StyleAttr::Delay(*v),
            StyleAttr::Easing(v) => StyleAttr::Easing(*v),
            StyleAttr::Atlas(v) => StyleAttr::Atlas(*v),
            StyleAttr::Duration(v) => StyleAttr::Duration(*v),
            StyleAttr::Direction(v) => StyleAttr::Direction(*v),
            StyleAttr::Iterations(v) => StyleAttr::Iterations(*v),
            StyleAttr::FPS(v) => StyleAttr::FPS(*v),
            StyleAttr::Frames(v) => StyleAttr::Frames(clone_vec_copy(v)),
            StyleAttr::Pickable(a, b) => StyleAttr::Pickable(*a, *b),
        }
    }
}

impl Clone for StyleDirective {
    /// A clone carries the same mathematical value as the original.
    fn clone(&self) -> (r: Self)
        ensures
            r@ == self@,
    {
        match self {
            StyleDirective::Base(a) => StyleDirective::Base(a.clone()),
            StyleDirective::Hover(a) => StyleDirective::Hover(a.clone()),
            StyleDirective::Pressed(a) => StyleDirective::Pressed(a.clone()),
            StyleDirective::Active(a) => StyleDirective::Active(a.clone()),
        }
    }
}

} // verus!
