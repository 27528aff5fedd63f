//! Attribute interpretation: the per-field style dispatch, the fixed
//! structural attributes, the expression placeholder shape, and the
//! custom-element fallback. The dispatch follows the attribute
//! interpretation order: expression placeholders first, then `tag:*`
//! entries, then the structural names, then the style vocabulary; on a
//! custom element an unrecognized attribute becomes a property default.

use vstd::prelude::*;
use vstd::string::StringSliceAdditionalSpecFns;
use crate::util::slice_eq_bytes;
use crate::style::Atlas;
use crate::style::AlignContent;
use crate::style::AlignItems;
use crate::style::AlignSelf;
use crate::style::AnimationDirection;
use crate::style::DisplayMode;
use crate::style::EaseKind;
use crate::style::FlexDirection;
use crate::style::FlexWrap;
use crate::style::GridAutoFlow;
use crate::style::GridPlacement;
use crate::style::GridTrack;
use crate::style::JustifyContent;
use crate::style::JustifyItems;
use crate::style::JustifySelf;
use crate::style::NodeImageMode;
use crate::style::Num;
use crate::style::Outline;
use crate::style::Overflow;
use crate::style::OverflowClipMargin;
use crate::style::PositionType;
use crate::style::RectRegion;
use crate::style::RepeatedGridTrack;
use crate::style::SpecStyleAttr;
use crate::style::StyleAttr;
use crate::style::TextLayout;
use crate::style::TextShadowStyle;
use crate::style::UiColor;
use crate::style::UiRect;
use crate::style::Val;

verus! {

/// The outcome of reading an attribute as a style field.
pub enum StyleParse {
    /// The name is a style field and the value was accepted.
    Parsed(StyleAttr),
    /// The name is not in the style vocabulary.
    UnknownName,
    /// The name is a style field but its micro-grammar rejects the value.
    BadValue,
}

/// The mathematical value of a [`StyleParse`].
pub enum SpecStyleParse {
    Parsed(SpecStyleAttr),
    UnknownName,
    BadValue,
}

impl View for StyleParse {
    type V = SpecStyleParse;

    open spec fn view(&self) -> SpecStyleParse {
        match self {
            StyleParse::Parsed(a) => SpecStyleParse::Parsed(a@),
            StyleParse::UnknownName => SpecStyleParse::UnknownName,
            StyleParse::BadValue => SpecStyleParse::BadValue,
        }
    }
}

/// A parse outcome from an optional value: accepted values map into a
/// style field, a rejected value is a grammar error.
pub open spec fn sps<T>(o: Option<T>, f: spec_fn(T) -> SpecStyleAttr) -> SpecStyleParse {
    match o {
        Option::Some(v) => SpecStyleParse::Parsed(f(v)),
        Option::None => SpecStyleParse::BadValue,
    }
}

/// A whole number squeezed into `i32`: out-of-range values read as zero.
pub open spec fn spec_as_i32(v: int) -> i32 {
    if i32::MIN <= v <= i32::MAX {
        v as i32
    } else {
        0
    }
}

/// `i32` squeeze on an executable value.
pub fn as_i32(v: i64) -> (r: i32)
    ensures
        r == spec_as_i32(v as int),
{
    if i32::MIN as i64 <= v && v <= i32::MAX as i64 {
        v as i32
    } else {
        0
    }
}

/// The clip-margin grammar: a clip box keyword and a margin number.
pub open spec fn spec_parse_clip_margin(value: Seq<u8>) -> SpecStyleParse {
    match crate::values::spec_two_tokens(value) {
        Option::Some((t1, t2)) => {
            match (
                crate::keywords::spec_kw_clip_box(t1),
                crate::values::spec_num_token(t2),
            ) {
                (Option::Some(visual_box), Option::Some(margin)) => SpecStyleParse::Parsed(
                    SpecStyleAttr::OverflowClipMargin(OverflowClipMargin { visual_box, margin }),
                ),
                _ => SpecStyleParse::BadValue,
            }
        },
        Option::None => SpecStyleParse::BadValue,
    }
}

/// Executable counterpart of [`spec_parse_clip_margin`].
fn parse_clip_margin(value: &[u8]) -> (r: StyleParse)
    ensures
        r@ == spec_parse_clip_margin(value@),
{
    match crate::values::two_tokens(value) {
        Some(((a1, b1), (a2, b2))) => {
            match (crate::keywords::kw_clip_box(&value[a1..b1]), crate::values::num_token(
                &value[a2..b2],
            )) {
                (Some(visual_box), Some(margin)) => StyleParse::Parsed(
                    StyleAttr::OverflowClipMargin(OverflowClipMargin { visual_box, margin }),
                ),
                _ => StyleParse::BadValue,
            }
        },
        None => StyleParse::BadValue,
    }
}

/// One quarter of the style vocabulary (split to keep each dispatch
/// small); the result is the parse outcome, or nothing when the name is
/// not in this part.
pub open spec fn spec_style_group_a(ident: Seq<u8>, value: Seq<u8>) -> Option<
    SpecStyleParse,
> {
    if ident == "bottom".spec_bytes() {
        Option::Some(sps(crate::values::spec_parse_val(value), |v: Val| SpecStyleAttr::Bottom(v)))
    } else if ident == "top".spec_bytes() {
        Option::Some(sps(crate::values::spec_parse_val(value), |v: Val| SpecStyleAttr::Top(v)))
    } else if ident == "right".spec_bytes() {
        Option::Some(sps(crate::values::spec_parse_val(value), |v: Val| SpecStyleAttr::Right(v)))
    } else if ident == "left".spec_bytes() {
        Option::Some(sps(crate::values::spec_parse_val(value), |v: Val| SpecStyleAttr::Left(v)))
    } else if ident == "height".spec_bytes() {
        Option::Some(sps(crate::values::spec_parse_val(value), |v: Val| SpecStyleAttr::Height(v)))
    } else if ident == "width".spec_bytes() {
        Option::Some(sps(crate::values::spec_parse_val(value), |v: Val| SpecStyleAttr::Width(v)))
    } else if ident == "padding".spec_bytes() {
        Option::Some(sps(crate::values::spec_parse_ui_rect(value), |v: UiRect| SpecStyleAttr::Padding(v)))
    } else if ident == "margin".spec_bytes() {
        Option::Some(sps(crate::values::spec_parse_ui_rect(value), |v: UiRect| SpecStyleAttr::Margin(v)))
    } else if ident == "border".spec_bytes() {
        Option::Some(sps(crate::values::spec_parse_ui_rect(value), |v: UiRect| SpecStyleAttr::Border(v)))
    } else if ident == "border_radius".spec_bytes() {
        Option::Some(sps(crate::values::spec_parse_ui_rect(value), |v: UiRect| SpecStyleAttr::BorderRadius(v)))
    } else if ident == "outline".spec_bytes() {
        Option::Some(sps(crate::values::spec_parse_outline(value), |v: Outline| SpecStyleAttr::Outline(v)))
    } else if ident == "background".spec_bytes() {
        Option::Some(sps(crate::values::spec_parse_color(value), |v: UiColor| SpecStyleAttr::Background(v)))
    } else if ident == "border_color".spec_bytes() {
        Option::Some(sps(crate::values::spec_parse_color(value), |v: UiColor| SpecStyleAttr::BorderColor(v)))
    } else if ident == "font_color".spec_bytes() {
        Option::Some(sps(crate::values::spec_parse_color(value), |v: UiColor| SpecStyleAttr::FontColor(v)))
    } else if ident == "image_color".spec_bytes() {
        Option::Some(sps(crate::values::spec_parse_color(value), |v: UiColor| SpecStyleAttr::ImageColor(v)))
    } else if ident == "shadow_color".spec_bytes() {
        Option::Some(sps(crate::values::spec_parse_color(value), |v: UiColor| SpecStyleAttr::ShadowColor(v)))
    } else {
        Option::None
    }
}

/// Executable counterpart of [`spec_style_group_a`].
#[verifier::rlimit(60)]
fn style_group_a(ident: &[u8], value: &[u8]) -> (r: Option<StyleParse>)
    ensures
        match r {
            Some(p) => spec_style_group_a(ident@, value@) == Option::Some(p@),
            None => spec_style_group_a(ident@, value@) is None,
        },
{
    if slice_eq_bytes(ident, "bottom".as_bytes()) {
        Some(match crate::values::parse_val(value) {
            Some(v) => StyleParse::Parsed(StyleAttr::Bottom(v)),
            None => StyleParse::BadValue,
        })
    } else if slice_eq_bytes(ident, "top".as_bytes()) {
        Some(match crate::values::parse_val(value) {
            Some(v) => StyleParse::Parsed(StyleAttr::Top(v)),
            None => StyleParse::BadValue,
        })
    } else if slice_eq_bytes(ident, "right".as_bytes()) {
        Some(match crate::values::parse_val(value) {
            Some(v) => StyleParse::Parsed(StyleAttr::Right(v)),
            None => StyleParse::BadValue,
        })
    } else if slice_eq_bytes(ident, "left".as_bytes()) {
        Some(match crate::values::parse_val(value) {
            Some(v) => StyleParse::Parsed(StyleAttr::Left(v)),
            None => StyleParse::BadValue,
        })
    } else if slice_eq_bytes(ident, "height".as_bytes()) {
        Some(match crate::values::parse_val(value) {
            Some(v) => StyleParse::Parsed(StyleAttr::Height(v)),
            None => StyleParse::BadValue,
        })
    } else if slice_eq_bytes(ident, "width".as_bytes()) {
        Some(match crate::values::parse_val(value) {
            Some(v) => StyleParse::Parsed(StyleAttr::Width(v)),
            None => StyleParse::BadValue,
        })
    } else if slice_eq_bytes(ident, "padding".as_bytes()) {
        Some(match crate::values::parse_ui_rect(value) {
            Some(v) => StyleParse::Parsed(StyleAttr::Padding(v)),
            None => StyleParse::BadValue,
        })
    } else if slice_eq_bytes(ident, "margin".as_bytes()) {
        Some(match crate::values::parse_ui_rect(value) {
            Some(v) => StyleParse::Parsed(StyleAttr::Margin(v)),
            None => StyleParse::BadValue,
        })
    } else if slice_eq_bytes(ident, "border".as_bytes()) {
        Some(match crate::values::parse_ui_rect(value) {
            Some(v) => StyleParse::Parsed(StyleAttr::Border(v)),
            None => StyleParse::BadValue,
        })
    } else if slice_eq_bytes(ident, "border_radius".as_bytes()) {
        Some(match crate::values::parse_ui_rect(value) {
            Some(v) => StyleParse::Parsed(StyleAttr::BorderRadius(v)),
            None => StyleParse::BadValue,
        })
    } else if slice_eq_bytes(ident, "outline".as_bytes()) {
        Some(match crate::values::parse_outline(value) {
            Some(v) => StyleParse::Parsed(StyleAttr::Outline(v)),
            None => StyleParse::BadValue,
        })
    } else if slice_eq_bytes(ident, "background".as_bytes()) {
        Some(match crate::values::parse_color(value) {
            Some(v) => StyleParse::Parsed(StyleAttr::Background(v)),
            None => StyleParse::BadValue,
        })
    } else if slice_eq_bytes(ident, "border_color".as_bytes()) {
        Some(match crate::values::parse_color(value) {
            Some(v) => StyleParse::Parsed(StyleAttr::BorderColor(v)),
            None => StyleParse::BadValue,
        })
    } else if slice_eq_bytes(ident, "font_color".as_bytes()) {
        Some(match crate::values::parse_color(value) {
            Some(v) => StyleParse::Parsed(StyleAttr::FontColor(v)),
            None => StyleParse::BadValue,
        })
    } else if slice_eq_bytes(ident, "image_color".as_bytes()) {
        Some(match crate::values::parse_color(value) {
            Some(v) => StyleParse::Parsed(StyleAttr::ImageColor(v)),
            None => StyleParse::BadValue,
        })
    } else if slice_eq_bytes(ident, "shadow_color".as_bytes()) {
        Some(match crate::values::parse_color(value) {
            Some(v) => StyleParse::Parsed(StyleAttr::ShadowColor(v)),
            None => StyleParse::BadValue,
        })
    } else {
        None
    }
}

/// One quarter of the style vocabulary (split to keep each dispatch
/// small); the result is the parse outcome, or nothing when the name is
/// not in this part.
pub open spec fn spec_style_group_b(ident: Seq<u8>, value: Seq<u8>) -> Option<
    SpecStyleParse,
> {
    if ident == "font".spec_bytes() {
        Option::Some(SpecStyleParse::Parsed(SpecStyleAttr::Font(value)))
    } else if ident == "text_layout".spec_bytes() {
        Option::Some(sps(crate::values::spec_parse_text_layout(value), |v: TextLayout| SpecStyleAttr::TextLayout(v)))
    } else if ident == "font_size".spec_bytes() {
        Option::Some(sps(crate::values::spec_parse_num(value), |v: Num| SpecStyleAttr::FontSize(v)))
    } else if ident == "max_height".spec_bytes() {
        Option::Some(sps(crate::values::spec_parse_val(value), |v: Val| SpecStyleAttr::MaxHeight(v)))
    } else if ident == "max_width".spec_bytes() {
        Option::Some(sps(crate::values::spec_parse_val(value), |v: Val| SpecStyleAttr::MaxWidth(v)))
    } else if ident == "min_height".spec_bytes() {
        Option::Some(sps(crate::values::spec_parse_val(value), |v: Val| SpecStyleAttr::MinHeight(v)))
    } else if ident == "min_width".spec_bytes() {
        Option::Some(sps(crate::values::spec_parse_val(value), |v: Val| SpecStyleAttr::MinWidth(v)))
    } else if ident == "delay".spec_bytes() {
        Option::Some(sps(crate::values::spec_parse_delay_ms(value), |v: u32| SpecStyleAttr::Delay(v)))
    } else if ident == "ease".spec_bytes() {
        Option::Some(match crate::values::spec_single_token(value) {
            Option::Some(t) => sps(crate::keywords::spec_kw_easing(t), |v: EaseKind| SpecStyleAttr::Easing(v)),
            Option::None => SpecStyleParse::BadValue,
        })
    } else if ident == "image_region".spec_bytes() {
        Option::Some(sps(crate::values::spec_parse_rect_region(value), |v: RectRegion| SpecStyleAttr::ImageRegion(v)))
    } else if ident == "position".spec_bytes() {
        Option::Some(match crate::values::spec_single_token(value) {
            Option::Some(t) => sps(crate::keywords::spec_kw_position_type(t), |v: PositionType| SpecStyleAttr::Position(v)),
            Option::None => SpecStyleParse::BadValue,
        })
    } else if ident == "display".spec_bytes() {
        Option::Some(match crate::values::spec_single_token(value) {
            Option::Some(t) => sps(crate::keywords::spec_kw_display(t), |v: DisplayMode| SpecStyleAttr::Display(v)),
            Option::None => SpecStyleParse::BadValue,
        })
    } else if ident == "zindex".spec_bytes() {
        Option::Some(sps(crate::values::spec_parse_i64(value), |v: i64| SpecStyleAttr::Zindex(spec_as_i32(v as int))))
    } else if ident == "global_zindex".spec_bytes() {
        Option::Some(sps(crate::values::spec_parse_i64(value), |v: i64| SpecStyleAttr::GlobalZIndex(spec_as_i32(v as int))))
    } else if ident == "aspect_ratio".spec_bytes() {
        Option::Some(sps(crate::values::spec_parse_num(value), |v: Num| SpecStyleAttr::AspectRatio(v)))
    } else if ident == "overflow".spec_bytes() {
        Option::Some(sps(crate::values::spec_parse_overflow(value), |v: Overflow| SpecStyleAttr::Overflow(v)))
    } else {
        Option::None
    }
}

/// Executable counterpart of [`spec_style_group_b`].
#[verifier::rlimit(60)]
fn style_group_b(ident: &[u8], value: &[u8]) -> (r: Option<StyleParse>)
    ensures
        match r {
            Some(p) => spec_style_group_b(ident@, value@) == Option::Some(p@),
            None => spec_style_group_b(ident@, value@) is None,
        },
{
    if slice_eq_bytes(ident, "font".as_bytes()) {
        Some(StyleParse::Parsed(StyleAttr::Font(crate::util::bytes_to_vec(value))))
    } else if slice_eq_bytes(ident, "text_layout".as_bytes()) {
        Some(match crate::values::parse_text_layout(value) {
            Some(v) => StyleParse::Parsed(StyleAttr::TextLayout(v)),
            None => StyleParse::BadValue,
        })
    } else if slice_eq_bytes(ident, "font_size".as_bytes()) {
        Some(match crate::values::parse_num(value) {
            Some(v) => StyleParse::Parsed(StyleAttr::FontSize(v)),
            None => StyleParse::BadValue,
        })
    } else if slice_eq_bytes(ident, "max_height".as_bytes()) {
        Some(match crate::values::parse_val(value) {
            Some(v) => StyleParse::Parsed(StyleAttr::MaxHeight(v)),
            None => StyleParse::BadValue,
        })
    } else if slice_eq_bytes(ident, "max_width".as_bytes()) {
        Some(match crate::values::parse_val(value) {
            Some(v) => StyleParse::Parsed(StyleAttr::MaxWidth(v)),
            None => StyleParse::BadValue,
        })
    } else if slice_eq_bytes(ident, "min_height".as_bytes()) {
        Some(match crate::values::parse_val(value) {
            Some(v) => StyleParse::Parsed(StyleAttr::MinHeight(v)),
            None => StyleParse::BadValue,
        })
    } else if slice_eq_bytes(ident, "min_width".as_bytes()) {
        Some(match crate::values::parse_val(value) {
            Some(v) => StyleParse::Parsed(StyleAttr::MinWidth(v)),
            None => StyleParse::BadValue,
        })
    } else if slice_eq_bytes(ident, "delay".as_bytes()) {
        Some(match crate::values::parse_delay_ms(value) {
            Some(v) => StyleParse::Parsed(StyleAttr::Delay(v)),
            None => StyleParse::BadValue,
        })
    } else if slice_eq_bytes(ident, "ease".as_bytes()) {
        Some(match crate::values::single_token(value) {
            Some((a, b)) => match crate::keywords::kw_easing(&value[a..b]) {
                Some(v) => StyleParse::Parsed(StyleAttr::Easing(v)),
                None => StyleParse::BadValue,
            },
            None => StyleParse::BadValue,
        })
    } else if slice_eq_bytes(ident, "image_region".as_bytes()) {
        Some(match crate::values::parse_rect_region(value) {
            Some(v) => StyleParse::Parsed(StyleAttr::ImageRegion(v)),
            None => StyleParse::BadValue,
        })
    } else if slice_eq_bytes(ident, "position".as_bytes()) {
        Some(match crate::values::single_token(value) {
            Some((a, b)) => match crate::keywords::kw_position_type(&value[a..b]) {
                Some(v) => StyleParse::Parsed(StyleAttr::Position(v)),
                None => StyleParse::BadValue,
            },
            None => StyleParse::BadValue,
        })
    } else if slice_eq_bytes(ident, "display".as_bytes()) {
        Some(match crate::values::single_token(value) {
            Some((a, b)) => match crate::keywords::kw_display(&value[a..b]) {
                Some(v) => StyleParse::Parsed(StyleAttr::Display(v)),
                None => StyleParse::BadValue,
            },
            None => StyleParse::BadValue,
        })
    } else if slice_eq_bytes(ident, "zindex".as_bytes()) {
        Some(match crate::values::parse_i64(value) {
            Some(v) => StyleParse::Parsed(StyleAttr::Zindex(as_i32(v))),
            None => StyleParse::BadValue,
        })
    } else if slice_eq_bytes(ident, "global_zindex".as_bytes()) {
        Some(match crate::values::parse_i64(value) {
            Some(v) => StyleParse::Parsed(StyleAttr::GlobalZIndex(as_i32(v))),
            None => StyleParse::BadValue,
        })
    } else if slice_eq_bytes(ident, "aspect_ratio".as_bytes()) {
        Some(match crate::values::parse_num(value) {
            Some(v) => StyleParse::Parsed(StyleAttr::AspectRatio(v)),
            None => StyleParse::BadValue,
        })
    } else if slice_eq_bytes(ident, "overflow".as_bytes()) {
        Some(match crate::values::parse_overflow(value) {
            Some(v) => StyleParse::Parsed(StyleAttr::Overflow(v)),
            None => StyleParse::BadValue,
        })
    } else {
        None
    }
}

/// One quarter of the style vocabulary (split to keep each dispatch
/// small); the result is the parse outcome, or nothing when the name is
/// not in this part.
pub open spec fn spec_style_group_c(ident: Seq<u8>, value: Seq<u8>) -> Option<
    SpecStyleParse,
> {
    if ident == "overflow_clip_margin".spec_bytes() {
        Option::Some(spec_parse_clip_margin(value))
    } else if ident == "align_self".spec_bytes() {
        Option::Some(match crate::values::spec_single_token(value) {
            Option::Some(t) => sps(crate::keywords::spec_kw_align_self(t), |v: AlignSelf| SpecStyleAttr::AlignSelf(v)),
            Option::None => SpecStyleParse::BadValue,
        })
    } else if ident == "align_items".spec_bytes() {
        Option::Some(match crate::values::spec_single_token(value) {
            Option::Some(t) => sps(crate::keywords::spec_kw_align_items(t), |v: AlignItems| SpecStyleAttr::AlignItems(v)),
            Option::None => SpecStyleParse::BadValue,
        })
    } else if ident == "align_content".spec_bytes() {
        Option::Some(match crate::values::spec_single_token(value) {
            Option::Some(t) => sps(crate::keywords::spec_kw_align_content(t), |v: AlignContent| SpecStyleAttr::AlignContent(v)),
            Option::None => SpecStyleParse::BadValue,
        })
    } else if ident == "justify_self".spec_bytes() {
        Option::Some(match crate::values::spec_single_token(value) {
            Option::Some(t) => sps(crate::keywords::spec_kw_justify_self(t), |v: JustifySelf| SpecStyleAttr::JustifySelf(v)),
            Option::None => SpecStyleParse::BadValue,
        })
    } else if ident == "justify_items".spec_bytes() {
        Option::Some(match crate::values::spec_single_token(value) {
            Option::Some(t) => sps(crate::keywords::spec_kw_justify_items(t), |v: JustifyItems| SpecStyleAttr::JustifyItems(v)),
            Option::None => SpecStyleParse::BadValue,
        })
    } else if ident == "justify_content".spec_bytes() {
        Option::Some(match crate::values::spec_single_token(value) {
            Option::Some(t) => sps(crate::keywords::spec_kw_justify_content(t), |v: JustifyContent| SpecStyleAttr::JustifyContent(v)),
            Option::None => SpecStyleParse::BadValue,
        })
    } else if ident == "flex_direction".spec_bytes() {
        Option::Some(match crate::values::spec_single_token(value) {
            Option::Some(t) => sps(crate::keywords::spec_kw_flex_direction(t), |v: FlexDirection| SpecStyleAttr::FlexDirection(v)),
            Option::None => SpecStyleParse::BadValue,
        })
    } else if ident == "flex_wrap".spec_bytes() {
        Option::Some(match crate::values::spec_single_token(value) {
            Option::Some(t) => sps(crate::keywords::spec_kw_flex_wrap(t), |v: FlexWrap| SpecStyleAttr::FlexWrap(v)),
            Option::None => SpecStyleParse::BadValue,
        })
    } else if ident == "flex_grow".spec_bytes() {
        Option::Some(sps(crate::values::spec_parse_num(value), |v: Num| SpecStyleAttr::FlexGrow(v)))
    } else if ident == "flex_shrink".spec_bytes() {
        Option::Some(sps(crate::values::spec_parse_num(value), |v: Num| SpecStyleAttr::FlexShrink(v)))
    } else if ident == "flex_basis".spec_bytes() {
        Option::Some(sps(crate::values::spec_parse_val(value), |v: Val| SpecStyleAttr::FlexBasis(v)))
    } else if ident == "row_gap".spec_bytes() {
        Option::Some(sps(crate::values::spec_parse_val(value), |v: Val| SpecStyleAttr::RowGap(v)))
    } else if ident == "column_gap".spec_bytes() {
        Option::Some(sps(crate::values::spec_parse_val(value), |v: Val| SpecStyleAttr::ColumnGap(v)))
    } else if ident == "grid_auto_flow".spec_bytes() {
        Option::Some(match crate::values::spec_single_token(value) {
            Option::Some(t) => sps(crate::keywords::spec_kw_auto_flow(t), |v: GridAutoFlow| SpecStyleAttr::GridAutoFlow(v)),
            Option::None => SpecStyleParse::BadValue,
        })
    } else if ident == "grid_auto_rows".spec_bytes() {
        Option::Some(sps(crate::values::spec_parse_tracks(value), |v: Seq<GridTrack>| SpecStyleAttr::GridAutoRows(v)))
    } else {
        Option::None
    }
}

/// Executable counterpart of [`spec_style_group_c`].
#[verifier::rlimit(60)]
fn style_group_c(ident: &[u8], value: &[u8]) -> (r: Option<StyleParse>)
    ensures
        match r {
            Some(p) => spec_style_group_c(ident@, value@) == Option::Some(p@),
            None => spec_style_group_c(ident@, value@) is None,
        },
{
    if slice_eq_bytes(ident, "overflow_clip_margin".as_bytes()) {
        Some(parse_clip_margin(value))
    } else if slice_eq_bytes(ident, "align_self".as_bytes()) {
        Some(match crate::values::single_token(value) {
            Some((a, b)) => match crate::keywords::kw_align_self(&value[a..b]) {
                Some(v) => StyleParse::Parsed(StyleAttr::AlignSelf(v)),
                None => StyleParse::BadValue,
            },
            None => StyleParse::BadValue,
        })
    } else if slice_eq_bytes(ident, "align_items".as_bytes()) {
        Some(match crate::values::single_token(value) {
            Some((a, b)) => match crate::keywords::kw_align_items(&value[a..b]) {
                Some(v) => StyleParse::Parsed(StyleAttr::AlignItems(v)),
                None => StyleParse::BadValue,
            },
            None => StyleParse::BadValue,
        })
    } else if slice_eq_bytes(ident, "align_content".as_bytes()) {
        Some(match crate::values::single_token(value) {
            Some((a, b)) => match crate::keywords::kw_align_content(&value[a..b]) {
                Some(v) => StyleParse::Parsed(StyleAttr::AlignContent(v)),
                None => StyleParse::BadValue,
            },
            None => StyleParse::BadValue,
        })
    } else if slice_eq_bytes(ident, "justify_self".as_bytes()) {
        Some(match crate::values::single_token(value) {
            Some((a, b)) => match crate::keywords::kw_justify_self(&value[a..b]) {
                Some(v) => StyleParse::Parsed(StyleAttr::JustifySelf(v)),
                None => StyleParse::BadValue,
            },
            None => StyleParse::BadValue,
        })
    } else if slice_eq_bytes(ident, "justify_items".as_bytes()) {
        Some(match crate::values::single_token(value) {
            Some((a, b)) => match crate::keywords::kw_justify_items(&value[a..b]) {
                Some(v) => StyleParse::Parsed(StyleAttr::JustifyItems(v)),
                None => StyleParse::BadValue,
            },
            None => StyleParse::BadValue,
        })
    } else if slice_eq_bytes(ident, "justify_content".as_bytes()) {
        Some(match crate::values::single_token(value) {
            Some((a, b)) => match crate::keywords::kw_justify_content(&value[a..b]) {
                Some(v) => StyleParse::Parsed(StyleAttr::JustifyContent(v)),
                None => StyleParse::BadValue,
            },
            None => StyleParse::BadValue,
        })
    } else if slice_eq_bytes(ident, "flex_direction".as_bytes()) {
        Some(match crate::values::single_token(value) {
            Some((a, b)) => match crate::keywords::kw_flex_direction(&value[a..b]) {
                Some(v) => StyleParse::Parsed(StyleAttr::FlexDirection(v)),
                None => StyleParse::BadValue,
            },
            None => StyleParse::BadValue,
        })
    } else if slice_eq_bytes(ident, "flex_wrap".as_bytes()) {
        Some(match crate::values::single_token(value) {
            Some((a, b)) => match crate::keywords::kw_flex_wrap(&value[a..b]) {
                Some(v) => StyleParse::Parsed(StyleAttr::FlexWrap(v)),
                None => StyleParse::BadValue,
            },
            None => StyleParse::BadValue,
        })
    } else if slice_eq_bytes(ident, "flex_grow".as_bytes()) {
        Some(match crate::values::parse_num(value) {
            Some(v) => StyleParse::Parsed(StyleAttr::FlexGrow(v)),
            None => StyleParse::BadValue,
        })
    } else if slice_eq_bytes(ident, "flex_shrink".as_bytes()) {
        Some(match crate::values::parse_num(value) {
            Some(v) => StyleParse::Parsed(StyleAttr::FlexShrink(v)),
            None => StyleParse::BadValue,
        })
    } else if slice_eq_bytes(ident, "flex_basis".as_bytes()) {
        Some(match crate::values::parse_val(value) {
            Some(v) => StyleParse::Parsed(StyleAttr::FlexBasis(v)),
            None => StyleParse::BadValue,
        })
    } else if slice_eq_bytes(ident, "row_gap".as_bytes()) {
        Some(match crate::values::parse_val(value) {
            Some(v) => StyleParse::Parsed(StyleAttr::RowGap(v)),
            None => StyleParse::BadValue,
        })
    } else if slice_eq_bytes(ident, "column_gap".as_bytes()) {
        Some(match crate::values::parse_val(value) {
            Some(v) => StyleParse::Parsed(StyleAttr::ColumnGap(v)),
            None => StyleParse::BadValue,
        })
    } else if slice_eq_bytes(ident, "grid_auto_flow".as_bytes()) {
        Some(match crate::values::single_token(value) {
            Some((a, b)) => match crate::keywords::kw_auto_flow(&value[a..b]) {
                Some(v) => StyleParse::Parsed(StyleAttr::GridAutoFlow(v)),
                None => StyleParse::BadValue,
            },
            None => StyleParse::BadValue,
        })
    } else if slice_eq_bytes(ident, "grid_auto_rows".as_bytes()) {
        Some(match crate::values::parse_tracks(value) {
            Some(v) => StyleParse::Parsed(StyleAttr::GridAutoRows(v)),
            None => StyleParse::BadValue,
        })
    } else {
        None
    }
}

/// One quarter of the style vocabulary (split to keep each dispatch
/// small); the result is the parse outcome, or nothing when the name is
/// not in this part.
pub open spec fn spec_style_group_d(ident: Seq<u8>, value: Seq<u8>) -> Option<
    SpecStyleParse,
> {
    if ident == "grid_auto_columns".spec_bytes() {
        Option::Some(sps(crate::values::spec_parse_tracks(value), |v: Seq<GridTrack>| SpecStyleAttr::GridAutoColumns(v)))
    } else if ident == "grid_template_rows".spec_bytes() {
        Option::Some(sps(crate::values::spec_parse_repeated_tracks(value), |v: Seq<RepeatedGridTrack>| SpecStyleAttr::GridTemplateRows(v)))
    } else if ident == "grid_template_columns".spec_bytes() {
        Option::Some(sps(crate::values::spec_parse_repeated_tracks(value), |v: Seq<RepeatedGridTrack>| SpecStyleAttr::GridTemplateColumns(v)))
    } else if ident == "grid_row".spec_bytes() {
        Option::Some(sps(crate::values::spec_parse_grid_placement(value), |v: GridPlacement| SpecStyleAttr::GridRow(v)))
    } else if ident == "grid_column".spec_bytes() {
        Option::Some(sps(crate::values::spec_parse_grid_placement(value), |v: GridPlacement| SpecStyleAttr::GridColumn(v)))
    } else if ident == "image_mode".spec_bytes() {
        Option::Some(sps(crate::values::spec_parse_image_mode(value), |v: NodeImageMode| SpecStyleAttr::ImageScaleMode(v)))
    } else if ident == "shadow_offset".spec_bytes() {
        Option::Some(sps(crate::values::spec_parse_val_pair(value), |p: (Val, Val)| SpecStyleAttr::ShadowOffset(p.0, p.1)))
    } else if ident == "shadow_blur".spec_bytes() {
        Option::Some(sps(crate::values::spec_parse_val(value), |v: Val| SpecStyleAttr::ShadowBlur(v)))
    } else if ident == "shadow_spread".spec_bytes() {
        Option::Some(sps(crate::values::spec_parse_val(value), |v: Val| SpecStyleAttr::ShadowSpread(v)))
    } else if ident == "text_shadow".spec_bytes() {
        Option::Some(sps(crate::values::spec_parse_text_shadow(value), |v: TextShadowStyle| SpecStyleAttr::TextShadow(v)))
    } else if ident == "atlas".spec_bytes() {
        Option::Some(sps(crate::values::spec_parse_atlas(value), |v: Atlas| SpecStyleAttr::Atlas(Option::Some(v))))
    } else if ident == "duration".spec_bytes() {
        Option::Some(sps(crate::values::spec_parse_delay_ms(value), |v: u32| SpecStyleAttr::Duration(v)))
    } else if ident == "direction".spec_bytes() {
        Option::Some(match crate::values::spec_single_token(value) {
            Option::Some(t) => sps(crate::keywords::spec_kw_direction(t), |v: AnimationDirection| SpecStyleAttr::Direction(v)),
            Option::None => SpecStyleParse::BadValue,
        })
    } else if ident == "iterations".spec_bytes() {
        Option::Some(sps(crate::values::spec_parse_i64(value), |v: i64| SpecStyleAttr::Iterations(v)))
    } else if ident == "fps".spec_bytes() {
        Option::Some(sps(crate::values::spec_parse_i64(value), |v: i64| SpecStyleAttr::FPS(v)))
    } else if ident == "frames".spec_bytes() {
        Option::Some(SpecStyleParse::Parsed(SpecStyleAttr::Frames(crate::values::spec_parse_frames(value))))
    } else if ident == "pickable".spec_bytes() {
        Option::Some(sps(crate::values::spec_parse_pickable(value), |p: (bool, bool)| SpecStyleAttr::Pickable(p.0, p.1)))
    } else {
        Option::None
    }
}

/// Executable counterpart of [`spec_style_group_d`].
#[verifier::rlimit(60)]
fn style_group_d(ident: &[u8], value: &[u8]) -> (r: Option<StyleParse>)
    ensures
        match r {
            Some(p) => spec_style_group_d(ident@, value@) == Option::Some(p@),
            None => spec_style_group_d(ident@, value@) is None,
        },
{
    if slice_eq_bytes(ident, "grid_auto_columns".as_bytes()) {
        Some(match crate::values::parse_tracks(value) {
            Some(v) => StyleParse::Parsed(StyleAttr::GridAutoColumns(v)),
            None => StyleParse::BadValue,
        })
    } else if slice_eq_bytes(ident, "grid_template_rows".as_bytes()) {
        Some(match crate::values::parse_repeated_tracks(value) {
            Some(v) => StyleParse::Parsed(StyleAttr::GridTemplateRows(v)),
            None => StyleParse::BadValue,
        })
    } else if slice_eq_bytes(ident, "grid_template_columns".as_bytes()) {
        Some(match crate::values::parse_repeated_tracks(value) {
            Some(v) => StyleParse::Parsed(StyleAttr::GridTemplateColumns(v)),
            None => StyleParse::BadValue,
        })
    } else if slice_eq_bytes(ident, "grid_row".as_bytes()) {
        Some(match crate::values::parse_grid_placement(value) {
            Some(v) => StyleParse::Parsed(StyleAttr::GridRow(v)),
            None => StyleParse::BadValue,
        })
    } else if slice_eq_bytes(ident, "grid_column".as_bytes()) {
        Some(match crate::values::parse_grid_placement(value) {
            Some(v) => StyleParse::Parsed(StyleAttr::GridColumn(v)),
            None => StyleParse::BadValue,
        })
    } else if slice_eq_bytes(ident, "image_mode".as_bytes()) {
        Some(match crate::values::parse_image_mode(value) {
            Some(v) => StyleParse::Parsed(StyleAttr::ImageScaleMode(v)),
            None => StyleParse::BadValue,
        })
    } else if slice_eq_bytes(ident, "shadow_offset".as_bytes()) {
        Some(match crate::values::parse_val_pair(value) {
            Some(v) => StyleParse::Parsed(StyleAttr::ShadowOffset(v.0, v.1)),
            None => StyleParse::BadValue,
        })
    } else if slice_eq_bytes(ident, "shadow_blur".as_bytes()) {
        Some(match crate::values::parse_val(value) {
            Some(v) => StyleParse::Parsed(StyleAttr::ShadowBlur(v)),
            None => StyleParse::BadValue,
        })
    } else if slice_eq_bytes(ident, "shadow_spread".as_bytes()) {
        Some(match crate::values::parse_val(value) {
            Some(v) => StyleParse::Parsed(StyleAttr::ShadowSpread(v)),
            None => StyleParse::BadValue,
        })
    } else if slice_eq_bytes(ident, "text_shadow".as_bytes()) {
        Some(match crate::values::parse_text_shadow(value) {
            Some(v) => StyleParse::Parsed(StyleAttr::TextShadow(v)),
            None => StyleParse::BadValue,
        })
    } else if slice_eq_bytes(ident, "atlas".as_bytes()) {
        Some(match crate::values::parse_atlas(value) {
            Some(v) => StyleParse::Parsed(StyleAttr::Atlas(Some(v))),
            None => StyleParse::BadValue,
        })
    } else if slice_eq_bytes(ident, "duration".as_bytes()) {
        Some(match crate::values::parse_delay_ms(value) {
            Some(v) => StyleParse::Parsed(StyleAttr::Duration(v)),
            None => StyleParse::BadValue,
        })
    } else if slice_eq_bytes(ident, "direction".as_bytes()) {
        Some(match crate::values::single_token(value) {
            Some((a, b)) => match crate::keywords::kw_direction(&value[a..b]) {
                Some(v) => StyleParse::Parsed(StyleAttr::Direction(v)),
                None => StyleParse::BadValue,
            },
            None => StyleParse::BadValue,
        })
    } else if slice_eq_bytes(ident, "iterations".as_bytes()) {
        Some(match crate::values::parse_i64(value) {
            Some(v) => StyleParse::Parsed(StyleAttr::Iterations(v)),
            None => StyleParse::BadValue,
        })
    } else if slice_eq_bytes(ident, "fps".as_bytes()) {
        Some(match crate::values::parse_i64(value) {
            Some(v) => StyleParse::Parsed(StyleAttr::FPS(v)),
            None => StyleParse::BadValue,
        })
    } else if slice_eq_bytes(ident, "frames".as_bytes()) {
        Some(StyleParse::Parsed(StyleAttr::Frames(crate::values::parse_frames(value))))
    } else if slice_eq_bytes(ident, "pickable".as_bytes()) {
        Some(match crate::values::parse_pickable(value) {
            Some(v) => StyleParse::Parsed(StyleAttr::Pickable(v.0, v.1)),
            None => StyleParse::BadValue,
        })
    } else {
        None
    }
}

/// The style vocabulary: which value grammar each style name uses, and
/// the field its accepted value lands in.
#[verifier::opaque]
pub open spec fn spec_parse_style_attr(ident: Seq<u8>, value: Seq<u8>) -> SpecStyleParse {
    match spec_style_group_a(ident, value) {
        Option::Some(p) => p,
        Option::None => match spec_style_group_b(ident, value) {
            Option::Some(p) => p,
            Option::None => match spec_style_group_c(ident, value) {
                Option::Some(p) => p,
                Option::None => match spec_style_group_d(ident, value) {
                    Option::Some(p) => p,
                    Option::None => SpecStyleParse::UnknownName,
                },
            },
        },
    }
}

/// Reads one attribute as a style field; the outcome is exactly
/// [`spec_parse_style_attr`].
pub fn parse_style_attr(ident: &[u8], value: &[u8]) -> (r: StyleParse)
    ensures
        r@ == spec_parse_style_attr(ident@, value@),
{
    proof {
        reveal(spec_parse_style_attr);
    }
    match style_group_a(ident, value) {
        Some(p) => p,
        None => match style_group_b(ident, value) {
            Some(p) => p,
            None => match style_group_c(ident, value) {
                Some(p) => p,
                None => match style_group_d(ident, value) {
                    Some(p) => p,
                    None => StyleParse::UnknownName,
                },
            },
        },
    }
}

/// The expression placeholder shape: the whole value is `{ key }` with
/// optional whitespace around the braces and inside them; yields the
/// trimmed key.
pub open spec fn spec_expr_key(value: Seq<u8>) -> Option<Seq<u8>> {
    let st = crate::scan::spec_skip_ws(value, 0);
    if st < value.len() && value[st] == 123 {
        match crate::scan::spec_find(value, st + 1, seq![125u8]) {
            Option::Some(c) => {
                let lt = crate::scan::spec_ltrim_at(value, st + 1, c);
                let rt = crate::scan::spec_rtrim_at(value, lt, c);
                if lt < rt && crate::scan::spec_skip_ws(value, c + 1) == value.len() {
                    Option::Some(value.subrange(lt, rt))
                } else {
                    Option::None
                }
            },
            Option::None => Option::None,
        }
    } else {
        Option::None
    }
}

/// Executable counterpart of [`spec_expr_key`]: the key's byte range.
pub fn expr_key(value: &[u8]) -> (r: Option<(usize, usize)>)
    ensures
        match r {
            Some((a, b)) => {
                &&& a < b <= value@.len()
                &&& spec_expr_key(value@) == Option::Some(value@.subrange(a as int, b as int))
            },
            None => spec_expr_key(value@) is None,
        },
{
    let st = crate::scan::skip_ws(value, 0);
    if st < value.len() && value[st] == 123 {
        match crate::scan::find_byte(value, st + 1, 125) {
            Some(c) => {
                let lt = crate::scan::ltrim_at(value, st + 1, c);
                let rt = crate::scan::rtrim_at(value, lt, c);
                if lt < rt && crate::scan::skip_ws(value, c + 1) == value.len() {
                    Some((lt, rt))
                } else {
                    None
                }
            },
            None => None,
        }
    } else {
        None
    }
}

/// The outcome of interpreting one attribute.
pub enum AttrOutcome {
    /// The attribute was understood.
    Accepted(crate::template::Attribute),
    /// The attribute is a hard parse error of the given kind.
    Rejected(crate::template::ParseErrorKind),
}

/// The mathematical value of an [`AttrOutcome`].
pub enum SpecAttrOutcome {
    Accepted(crate::template::SpecAttribute),
    Rejected(crate::template::ParseErrorKind),
}

impl View for AttrOutcome {
    type V = SpecAttrOutcome;

    open spec fn view(&self) -> SpecAttrOutcome {
        match self {
            AttrOutcome::Accepted(a) => SpecAttrOutcome::Accepted(a@),
            AttrOutcome::Rejected(k) => SpecAttrOutcome::Rejected(*k),
        }
    }
}

/// Attribute interpretation order, first match wins: an expression
/// placeholder, a `tag:*` entry, a structural attribute, a style field;
/// on a custom element an unrecognized or rejected style name becomes a
/// property default instead of an error.
pub open spec fn spec_attribute_from_parts(
    prefix: Option<Seq<u8>>,
    key: Seq<u8>,
    value: Seq<u8>,
    is_custom: bool,
) -> SpecAttrOutcome {
    match spec_expr_key(value) {
        Option::Some(k) => SpecAttrOutcome::Accepted(
            crate::template::SpecAttribute::Uncompiled(
                crate::template::SpecAttrTokens { prefix, ident: key, key: k },
            ),
        ),
        Option::None => {
            if prefix == Option::Some("tag".spec_bytes()) {
                SpecAttrOutcome::Accepted(crate::template::SpecAttribute::Tag(key, value))
            } else if key == "watch".spec_bytes() {
                SpecAttrOutcome::Accepted(crate::template::SpecAttribute::Watch(value))
            } else if key == "id".spec_bytes() {
                SpecAttrOutcome::Accepted(crate::template::SpecAttribute::Id(value))
            } else if key == "target".spec_bytes() {
                SpecAttrOutcome::Accepted(crate::template::SpecAttribute::Target(value))
            } else if key == "src".spec_bytes() {
                SpecAttrOutcome::Accepted(crate::template::SpecAttribute::Path(value))
            } else if key == "on_enter".spec_bytes() {
                spec_action(crate::template::EventKind::OnEnter, value)
            } else if key == "on_exit".spec_bytes() {
                spec_action(crate::template::EventKind::OnExit, value)
            } else if key == "on_press".spec_bytes() {
                spec_action(crate::template::EventKind::OnPress, value)
            } else if key == "on_spawn".spec_bytes() {
                spec_action(crate::template::EventKind::OnSpawn, value)
            } else if key == "on_change".spec_bytes() {
                spec_action(crate::template::EventKind::OnChange, value)
            } else {
                match spec_parse_style_attr(key, value) {
                    SpecStyleParse::Parsed(a) => SpecAttrOutcome::Accepted(
                        crate::template::SpecAttribute::Style(spec_wrap_directive(prefix, a)),
                    ),
                    SpecStyleParse::UnknownName => {
                        if is_custom {
                            SpecAttrOutcome::Accepted(
                                crate::template::SpecAttribute::PropertyDefinition(key, value),
                            )
                        } else {
                            SpecAttrOutcome::Rejected(
                                crate::template::ParseErrorKind::UnknownStyle,
                            )
                        }
                    },
                    SpecStyleParse::BadValue => {
                        if is_custom {
                            SpecAttrOutcome::Accepted(
                                crate::template::SpecAttribute::PropertyDefinition(key, value),
                            )
                        } else {
                            SpecAttrOutcome::Rejected(
                                crate::template::ParseErrorKind::BadStyleValue,
                            )
                        }
                    },
                }
            }
        },
    }
}

/// An event listener from a handler name list.
pub open spec fn spec_action(kind: crate::template::EventKind, value: Seq<u8>) -> SpecAttrOutcome {
    SpecAttrOutcome::Accepted(
        crate::template::SpecAttribute::Action(
            crate::template::SpecAction {
                kind,
                handlers: crate::values::spec_parse_names(value),
            },
        ),
    )
}

/// A parsed style value wrapped by its interaction prefix: `pressed`,
/// `hover`, or `active` mean "apply only in that state"; any other
/// prefix leaves the value in the baseline.
pub open spec fn spec_wrap_directive(
    prefix: Option<Seq<u8>>,
    a: SpecStyleAttr,
) -> crate::style::SpecStyleDirective {
    if prefix == Option::Some("pressed".spec_bytes()) {
        crate::style::SpecStyleDirective::Pressed(a)
    } else if prefix == Option::Some("hover".spec_bytes()) {
        crate::style::SpecStyleDirective::Hover(a)
    } else if prefix == Option::Some("active".spec_bytes()) {
        crate::style::SpecStyleDirective::Active(a)
    } else {
        crate::style::SpecStyleDirective::Base(a)
    }
}

/// Interprets one attribute; the outcome is exactly
/// [`spec_attribute_from_parts`].
pub fn attribute_from_parts(
    prefix: Option<&[u8]>,
    key: &[u8],
    value: &[u8],
    is_custom: bool,
) -> (r: AttrOutcome)
    ensures
        r@ == spec_attribute_from_parts(
            match prefix {
                Option::Some(p) => Option::Some(p@),
                Option::None => Option::None,
            },
            key@,
            value@,
            is_custom,
        ),
{
    proof {
        reveal(spec_attribute_from_parts);
    }
    let ghost sp: Option<Seq<u8>> = match prefix {
        Option::Some(p) => Option::Some(p@),
        Option::None => Option::None,
    };
    match expr_key(value) {
        Some((a, b)) => {
            return AttrOutcome::Accepted(
                crate::template::Attribute::Uncompiled(
                    crate::template::AttrTokens {
                        prefix: match prefix {
                            Some(p) => Some(crate::util::bytes_to_vec(p)),
                            None => None,
                        },
                        ident: crate::util::bytes_to_vec(key),
                        key: crate::util::bytes_range_to_vec(value, a, b),
                    },
                ),
            );
        },
        None => {},
    }
    let is_tag_prefix = match prefix {
        Some(p) => slice_eq_bytes(p, "tag".as_bytes()),
        None => false,
    };
    if is_tag_prefix {
        return AttrOutcome::Accepted(
            crate::template::Attribute::Tag(
                crate::util::bytes_to_vec(key),
                crate::util::bytes_to_vec(value),
            ),
        );
    }
    if slice_eq_bytes(key, "watch".as_bytes()) {
        AttrOutcome::Accepted(crate::template::Attribute::Watch(crate::util::bytes_to_vec(value)))
    } else if slice_eq_bytes(key, "id".as_bytes()) {
        AttrOutcome::Accepted(crate::template::Attribute::Id(crate::util::bytes_to_vec(value)))
    } else if slice_eq_bytes(key, "target".as_bytes()) {
        AttrOutcome::Accepted(crate::template::Attribute::Target(crate::util::bytes_to_vec(value)))
    } else if slice_eq_bytes(key, "src".as_bytes()) {
        AttrOutcome::Accepted(crate::template::Attribute::Path(crate::util::bytes_to_vec(value)))
    } else if slice_eq_bytes(key, "on_enter".as_bytes()) {
        exec_action(crate::template::EventKind::OnEnter, value)
    } else if slice_eq_bytes(key, "on_exit".as_bytes()) {
        exec_action(crate::template::EventKind::OnExit, value)
    } else if slice_eq_bytes(key, "on_press".as_bytes()) {
        exec_action(crate::template::EventKind::OnPress, value)
    } else if slice_eq_bytes(key, "on_spawn".as_bytes()) {
        exec_action(crate::template::EventKind::OnSpawn, value)
    } else if slice_eq_bytes(key, "on_change".as_bytes()) {
        exec_action(crate::template::EventKind::OnChange, value)
    } else {
        match parse_style_attr(key, value) {
            StyleParse::Parsed(a) => {
                let wrapped = match prefix {
                    Some(p) => {
                        if slice_eq_bytes(p, "pressed".as_bytes()) {
                            crate::style::StyleDirective::Pressed(a)
                        } else if slice_eq_bytes(p, "hover".as_bytes()) {
                            crate::style::StyleDirective::Hover(a)
                        } else if slice_eq_bytes(p, "active".as_bytes()) {
                            crate::style::StyleDirective::Active(a)
                        } else {
                            crate::style::StyleDirective::Base(a)
                        }
                    },
                    None => crate::style::StyleDirective::Base(a),
                };
                AttrOutcome::Accepted(crate::template::Attribute::Style(wrapped))
            },
            StyleParse::UnknownName => {
                if is_custom {
                    AttrOutcome::Accepted(
                        crate::template::Attribute::PropertyDefinition(
                            crate::util::bytes_to_vec(key),
                            crate::util::bytes_to_vec(value),
                        ),
                    )
                } else {
                    AttrOutcome::Rejected(crate::template::ParseErrorKind::UnknownStyle)
                }
            },
            StyleParse::BadValue => {
                if is_custom {
                    AttrOutcome::Accepted(
                        crate::template::Attribute::PropertyDefinition(
                            crate::util::bytes_to_vec(key),
                            crate::util::bytes_to_vec(value),
                        ),
                    )
                } else {
                    AttrOutcome::Rejected(crate::template::ParseErrorKind::BadStyleValue)
                }
            },
        }
    }
}

/// Executable counterpart of [`spec_action`].
fn exec_action(kind: crate::template::EventKind, value: &[u8]) -> (r: AttrOutcome)
    ensures
        r@ == spec_action(kind, value@),
{
    let handlers = crate::values::parse_names(value);
    AttrOutcome::Accepted(
        crate::template::Attribute::Action(crate::template::Action { kind, handlers }),
    )
}

} // verus!
