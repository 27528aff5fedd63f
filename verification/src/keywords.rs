//! Keyword tables for the enumerated style fields. Each field's parser
//! takes the bare token (no surrounding whitespace) and accepts exactly
//! the keywords of its table.

use vstd::prelude::*;
use vstd::string::StringSliceAdditionalSpecFns;
use crate::util::slice_eq_bytes;
use crate::style::AlignContent;
use crate::style::AlignItems;
use crate::style::AlignSelf;
use crate::style::AnimationDirection;
use crate::style::DisplayMode;
use crate::style::EaseKind;
use crate::style::FlexDirection;
use crate::style::FlexWrap;
use crate::style::GridAutoFlow;
use crate::style::JustifyContent;
use crate::style::JustifyItems;
use crate::style::JustifySelf;
use crate::style::JustifyText;
use crate::style::LineBreak;
use crate::style::OverflowAxis;
use crate::style::OverflowClipBox;
use crate::style::PositionType;

verus! {

/// The `display` keyword table.
pub open spec fn spec_kw_display(t: Seq<u8>) -> Option<DisplayMode> {
    if t == "none".spec_bytes() {
        Option::Some(DisplayMode::NoneLayout)
    } else if t == "flex".spec_bytes() {
        Option::Some(DisplayMode::Flex)
    } else if t == "block".spec_bytes() {
        Option::Some(DisplayMode::Block)
    } else if t == "grid".spec_bytes() {
        Option::Some(DisplayMode::Grid)
    } else {
        Option::None
    }
}

/// Executable counterpart of [`spec_kw_display`].
pub fn kw_display(t: &[u8]) -> (r: Option<DisplayMode>)
    ensures
        r == spec_kw_display(t@),
{
    if slice_eq_bytes(t, "none".as_bytes()) {
        Some(DisplayMode::NoneLayout)
    } else if slice_eq_bytes(t, "flex".as_bytes()) {
        Some(DisplayMode::Flex)
    } else if slice_eq_bytes(t, "block".as_bytes()) {
        Some(DisplayMode::Block)
    } else if slice_eq_bytes(t, "grid".as_bytes()) {
        Some(DisplayMode::Grid)
    } else {
        None
    }
}

/// The `position type` keyword table.
pub open spec fn spec_kw_position_type(t: Seq<u8>) -> Option<PositionType> {
    if t == "absolute".spec_bytes() {
        Option::Some(PositionType::Absolute)
    } else if t == "relative".spec_bytes() {
        Option::Some(PositionType::Relative)
    } else {
        Option::None
    }
}

/// Executable counterpart of [`spec_kw_position_type`].
pub fn kw_position_type(t: &[u8]) -> (r: Option<PositionType>)
    ensures
        r == spec_kw_position_type(t@),
{
    if slice_eq_bytes(t, "absolute".as_bytes()) {
        Some(PositionType::Absolute)
    } else if slice_eq_bytes(t, "relative".as_bytes()) {
        Some(PositionType::Relative)
    } else {
        None
    }
}

/// The `overflow axis` keyword table.
pub open spec fn spec_kw_overflow_axis(t: Seq<u8>) -> Option<OverflowAxis> {
    if t == "visible".spec_bytes() {
        Option::Some(OverflowAxis::Visible)
    } else if t == "hidden".spec_bytes() {
        Option::Some(OverflowAxis::Hidden)
    } else if t == "clip".spec_bytes() {
        Option::Some(OverflowAxis::Clip)
    } else if t == "scroll".spec_bytes() {
        Option::Some(OverflowAxis::Scroll)
    } else {
        Option::None
    }
}

/// Executable counterpart of [`spec_kw_overflow_axis`].
pub fn kw_overflow_axis(t: &[u8]) -> (r: Option<OverflowAxis>)
    ensures
        r == spec_kw_overflow_axis(t@),
{
    if slice_eq_bytes(t, "visible".as_bytes()) {
        Some(OverflowAxis::Visible)
    } else if slice_eq_bytes(t, "hidden".as_bytes()) {
        Some(OverflowAxis::Hidden)
    } else if slice_eq_bytes(t, "clip".as_bytes()) {
        Some(OverflowAxis::Clip)
    } else if slice_eq_bytes(t, "scroll".as_bytes()) {
        Some(OverflowAxis::Scroll)
    } else {
        None
    }
}

/// The `clip box` keyword table.
pub open spec fn spec_kw_clip_box(t: Seq<u8>) -> Option<OverflowClipBox> {
    if t == "content_box".spec_bytes() {
        Option::Some(OverflowClipBox::ContentBox)
    } else if t == "padding_box".spec_bytes() {
        Option::Some(OverflowClipBox::PaddingBox)
    } else if t == "border_box".spec_bytes() {
        Option::Some(OverflowClipBox::BorderBox)
    } else {
        Option::None
    }
}

/// Executable counterpart of [`spec_kw_clip_box`].
pub fn kw_clip_box(t: &[u8]) -> (r: Option<OverflowClipBox>)
    ensures
        r == spec_kw_clip_box(t@),
{
    if slice_eq_bytes(t, "content_box".as_bytes()) {
        Some(OverflowClipBox::ContentBox)
    } else if slice_eq_bytes(t, "padding_box".as_bytes()) {
        Some(OverflowClipBox::PaddingBox)
    } else if slice_eq_bytes(t, "border_box".as_bytes()) {
        Some(OverflowClipBox::BorderBox)
    } else {
        None
    }
}

/// The `align items` keyword table.
pub open spec fn spec_kw_align_items(t: Seq<u8>) -> Option<AlignItems> {
    if t == "default".spec_bytes() {
        Option::Some(AlignItems::Unset)
    } else if t == "center".spec_bytes() {
        Option::Some(AlignItems::Center)
    } else if t == "start".spec_bytes() {
        Option::Some(AlignItems::Start)
    } else if t == "flex_end".spec_bytes() {
        Option::Some(AlignItems::FlexEnd)
    } else if t == "stretch".spec_bytes() {
        Option::Some(AlignItems::Stretch)
    } else if t == "end".spec_bytes() {
        Option::Some(AlignItems::End)
    } else if t == "baseline".spec_bytes() {
        Option::Some(AlignItems::Baseline)
    } else if t == "flex_start".spec_bytes() {
        Option::Some(AlignItems::FlexStart)
    } else {
        Option::None
    }
}

/// Executable counterpart of [`spec_kw_align_items`].
pub fn kw_align_items(t: &[u8]) -> (r: Option<AlignItems>)
    ensures
        r == spec_kw_align_items(t@),
{
    if slice_eq_bytes(t, "default".as_bytes()) {
        Some(AlignItems::Unset)
    } else if slice_eq_bytes(t, "center".as_bytes()) {
        Some(AlignItems::Center)
    } else if slice_eq_bytes(t, "start".as_bytes()) {
        Some(AlignItems::Start)
    } else if slice_eq_bytes(t, "flex_end".as_bytes()) {
        Some(AlignItems::FlexEnd)
    } else if slice_eq_bytes(t, "stretch".as_bytes()) {
        Some(AlignItems::Stretch)
    } else if slice_eq_bytes(t, "end".as_bytes()) {
        Some(AlignItems::End)
    } else if slice_eq_bytes(t, "baseline".as_bytes()) {
        Some(AlignItems::Baseline)
    } else if slice_eq_bytes(t, "flex_start".as_bytes()) {
        Some(AlignItems::FlexStart)
    } else {
        None
    }
}

/// The `align content` keyword table.
pub open spec fn spec_kw_align_content(t: Seq<u8>) -> Option<AlignContent> {
    if t == "center".spec_bytes() {
        Option::Some(AlignContent::Center)
    } else if t == "start".spec_bytes() {
        Option::Some(AlignContent::Start)
    } else if t == "flex_end".spec_bytes() {
        Option::Some(AlignContent::FlexEnd)
    } else if t == "stretch".spec_bytes() {
        Option::Some(AlignContent::Stretch)
    } else if t == "end".spec_bytes() {
        Option::Some(AlignContent::End)
    } else if t == "space_evenly".spec_bytes() {
        Option::Some(AlignContent::SpaceEvenly)
    } else if t == "space_around".spec_bytes() {
        Option::Some(AlignContent::SpaceAround)
    } else if t == "space_between".spec_bytes() {
        Option::Some(AlignContent::SpaceBetween)
    } else if t == "flex_start".spec_bytes() {
        Option::Some(AlignContent::FlexStart)
    } else {
        Option::None
    }
}

/// Executable counterpart of [`spec_kw_align_content`].
pub fn kw_align_content(t: &[u8]) -> (r: Option<AlignContent>)
    ensures
        r == spec_kw_align_content(t@),
{
    if slice_eq_bytes(t, "center".as_bytes()) {
        Some(AlignContent::Center)
    } else if slice_eq_bytes(t, "start".as_bytes()) {
        Some(AlignContent::Start)
    } else if slice_eq_bytes(t, "flex_end".as_bytes()) {
        Some(AlignContent::FlexEnd)
    } else if slice_eq_bytes(t, "stretch".as_bytes()) {
        Some(AlignContent::Stretch)
    } else if slice_eq_bytes(t, "end".as_bytes()) {
        Some(AlignContent::End)
    } else if slice_eq_bytes(t, "space_evenly".as_bytes()) {
        Some(AlignContent::SpaceEvenly)
    } else if slice_eq_bytes(t, "space_around".as_bytes()) {
        Some(AlignContent::SpaceAround)
    } else if slice_eq_bytes(t, "space_between".as_bytes()) {
        Some(AlignContent::SpaceBetween)
    } else if slice_eq_bytes(t, "flex_start".as_bytes()) {
        Some(AlignContent::FlexStart)
    } else {
        None
    }
}

/// The `align self` keyword table.
pub open spec fn spec_kw_align_self(t: Seq<u8>) -> Option<AlignSelf> {
    if t == "auto".spec_bytes() {
        Option::Some(AlignSelf::Auto)
    } else if t == "center".spec_bytes() {
        Option::Some(AlignSelf::Center)
    } else if t == "start".spec_bytes() {
        Option::Some(AlignSelf::Start)
    } else if t == "flex_end".spec_bytes() {
        Option::Some(AlignSelf::FlexEnd)
    } else if t == "stretch".spec_bytes() {
        Option::Some(AlignSelf::Stretch)
    } else if t == "end".spec_bytes() {
        Option::Some(AlignSelf::End)
    } else if t == "flex_start".spec_bytes() {
        Option::Some(AlignSelf::FlexStart)
    } else {
        Option::None
    }
}

/// Executable counterpart of [`spec_kw_align_self`].
pub fn kw_align_self(t: &[u8]) -> (r: Option<AlignSelf>)
    ensures
        r == spec_kw_align_self(t@),
{
    if slice_eq_bytes(t, "auto".as_bytes()) {
        Some(AlignSelf::Auto)
    } else if slice_eq_bytes(t, "center".as_bytes()) {
        Some(AlignSelf::Center)
    } else if slice_eq_bytes(t, "start".as_bytes()) {
        Some(AlignSelf::Start)
    } else if slice_eq_bytes(t, "flex_end".as_bytes()) {
        Some(AlignSelf::FlexEnd)
    } else if slice_eq_bytes(t, "stretch".as_bytes()) {
        Some(AlignSelf::Stretch)
    } else if slice_eq_bytes(t, "end".as_bytes()) {
        Some(AlignSelf::End)
    } else if slice_eq_bytes(t, "flex_start".as_bytes()) {
        Some(AlignSelf::FlexStart)
    } else {
        None
    }
}

/// The `justify items` keyword table.
pub open spec fn spec_kw_justify_items(t: Seq<u8>) -> Option<JustifyItems> {
    if t == "default".spec_bytes() {
        Option::Some(JustifyItems::Unset)
    } else if t == "center".spec_bytes() {
        Option::Some(JustifyItems::Center)
    } else if t == "start".spec_bytes() {
        Option::Some(JustifyItems::Start)
    } else if t == "stretch".spec_bytes() {
        Option::Some(JustifyItems::Stretch)
    } else if t == "end".spec_bytes() {
        Option::Some(JustifyItems::End)
    } else if t == "baseline".spec_bytes() {
        Option::Some(JustifyItems::Baseline)
    } else {
        Option::None
    }
}

/// Executable counterpart of [`spec_kw_justify_items`].
pub fn kw_justify_items(t: &[u8]) -> (r: Option<JustifyItems>)
    ensures
        r == spec_kw_justify_items(t@),
{
    if slice_eq_bytes(t, "default".as_bytes()) {
        Some(JustifyItems::Unset)
    } else if slice_eq_bytes(t, "center".as_bytes()) {
        Some(JustifyItems::Center)
    } else if slice_eq_bytes(t, "start".as_bytes()) {
        Some(JustifyItems::Start)
    } else if slice_eq_bytes(t, "stretch".as_bytes()) {
        Some(JustifyItems::Stretch)
    } else if slice_eq_bytes(t, "end".as_bytes()) {
        Some(JustifyItems::End)
    } else if slice_eq_bytes(t, "baseline".as_bytes()) {
        Some(JustifyItems::Baseline)
    } else {
        None
    }
}

/// The `justify content` keyword table.
pub open spec fn spec_kw_justify_content(t: Seq<u8>) -> Option<JustifyContent> {
    if t == "center".spec_bytes() {
        Option::Some(JustifyContent::Center)
    } else if t == "start".spec_bytes() {
        Option::Some(JustifyContent::Start)
    } else if t == "flex_end".spec_bytes() {
        Option::Some(JustifyContent::FlexEnd)
    } else if t == "stretch".spec_bytes() {
        Option::Some(JustifyContent::Stretch)
    } else if t == "end".spec_bytes() {
        Option::Some(JustifyContent::End)
    } else if t == "space_evenly".spec_bytes() {
        Option::Some(JustifyContent::SpaceEvenly)
    } else if t == "space_around".spec_bytes() {
        Option::Some(JustifyContent::SpaceAround)
    } else if t == "space_between".spec_bytes() {
        Option::Some(JustifyContent::SpaceBetween)
    } else if t == "flex_start".spec_bytes() {
        Option::Some(JustifyContent::FlexStart)
    } else {
        Option::None
    }
}

/// Executable counterpart of [`spec_kw_justify_content`].
pub fn kw_justify_content(t: &[u8]) -> (r: Option<JustifyContent>)
    ensures
        r == spec_kw_justify_content(t@),
{
    if slice_eq_bytes(t, "center".as_bytes()) {
        Some(JustifyContent::Center)
    } else if slice_eq_bytes(t, "start".as_bytes()) {
        Some(JustifyContent::Start)
    } else if slice_eq_bytes(t, "flex_end".as_bytes()) {
        Some(JustifyContent::FlexEnd)
    } else if slice_eq_bytes(t, "stretch".as_bytes()) {
        Some(JustifyContent::Stretch)
    } else if slice_eq_bytes(t, "end".as_bytes()) {
        Some(JustifyContent::End)
    } else if slice_eq_bytes(t, "space_evenly".as_bytes()) {
        Some(JustifyContent::SpaceEvenly)
    } else if slice_eq_bytes(t, "space_around".as_bytes()) {
        Some(JustifyContent::SpaceAround)
    } else if slice_eq_bytes(t, "space_between".as_bytes()) {
        Some(JustifyContent::SpaceBetween)
    } else if slice_eq_bytes(t, "flex_start".as_bytes()) {
        Some(JustifyContent::FlexStart)
    } else {
        None
    }
}

/// The `justify self` keyword table.
pub open spec fn spec_kw_justify_self(t: Seq<u8>) -> Option<JustifySelf> {
    if t == "auto".spec_bytes() {
        Option::Some(JustifySelf::Auto)
    } else if t == "center".spec_bytes() {
        Option::Some(JustifySelf::Center)
    } else if t == "start".spec_bytes() {
        Option::Some(JustifySelf::Start)
    } else if t == "stretch".spec_bytes() {
        Option::Some(JustifySelf::Stretch)
    } else if t == "end".spec_bytes() {
        Option::Some(JustifySelf::End)
    } else if t == "baseline".spec_bytes() {
        Option::Some(JustifySelf::Baseline)
    } else {
        Option::None
    }
}

/// Executable counterpart of [`spec_kw_justify_self`].
pub fn kw_justify_self(t: &[u8]) -> (r: Option<JustifySelf>)
    ensures
        r == spec_kw_justify_self(t@),
{
    if slice_eq_bytes(t, "auto".as_bytes()) {
        Some(JustifySelf::Auto)
    } else if slice_eq_bytes(t, "center".as_bytes()) {
        Some(JustifySelf::Center)
    } else if slice_eq_bytes(t, "start".as_bytes()) {
        Some(JustifySelf::Start)
    } else if slice_eq_bytes(t, "stretch".as_bytes()) {
        Some(JustifySelf::Stretch)
    } else if slice_eq_bytes(t, "end".as_bytes()) {
        Some(JustifySelf::End)
    } else if slice_eq_bytes(t, "baseline".as_bytes()) {
        Some(JustifySelf::Baseline)
    } else {
        None
    }
}

/// The `flex direction` keyword table.
pub open spec fn spec_kw_flex_direction(t: Seq<u8>) -> Option<FlexDirection> {
    if t == "row".spec_bytes() {
        Option::Some(FlexDirection::Row)
    } else if t == "column".spec_bytes() {
        Option::Some(FlexDirection::Column)
    } else if t == "column_reverse".spec_bytes() {
        Option::Some(FlexDirection::ColumnReverse)
    } else if t == "row_reverse".spec_bytes() {
        Option::Some(FlexDirection::RowReverse)
    } else if t == "default".spec_bytes() {
        Option::Some(FlexDirection::Row)
    } else {
        Option::None
    }
}

/// Executable counterpart of [`spec_kw_flex_direction`].
pub fn kw_flex_direction(t: &[u8]) -> (r: Option<FlexDirection>)
    ensures
        r == spec_kw_flex_direction(t@),
{
    if slice_eq_bytes(t, "row".as_bytes()) {
        Some(FlexDirection::Row)
    } else if slice_eq_bytes(t, "column".as_bytes()) {
        Some(FlexDirection::Column)
    } else if slice_eq_bytes(t, "column_reverse".as_bytes()) {
        Some(FlexDirection::ColumnReverse)
    } else if slice_eq_bytes(t, "row_reverse".as_bytes()) {
        Some(FlexDirection::RowReverse)
    } else if slice_eq_bytes(t, "default".as_bytes()) {
        Some(FlexDirection::Row)
    } else {
        None
    }
}

/// The `flex wrap` keyword table.
pub open spec fn spec_kw_flex_wrap(t: Seq<u8>) -> Option<FlexWrap> {
    if t == "wrap".spec_bytes() {
        Option::Some(FlexWrap::Wrap)
    } else if t == "no_wrap".spec_bytes() {
        Option::Some(FlexWrap::NoWrap)
    } else if t == "wrap_reverse".spec_bytes() {
        Option::Some(FlexWrap::WrapReverse)
    } else {
        Option::None
    }
}

/// Executable counterpart of [`spec_kw_flex_wrap`].
pub fn kw_flex_wrap(t: &[u8]) -> (r: Option<FlexWrap>)
    ensures
        r == spec_kw_flex_wrap(t@),
{
    if slice_eq_bytes(t, "wrap".as_bytes()) {
        Some(FlexWrap::Wrap)
    } else if slice_eq_bytes(t, "no_wrap".as_bytes()) {
        Some(FlexWrap::NoWrap)
    } else if slice_eq_bytes(t, "wrap_reverse".as_bytes()) {
        Some(FlexWrap::WrapReverse)
    } else {
        None
    }
}

/// The `auto flow` keyword table.
pub open spec fn spec_kw_auto_flow(t: Seq<u8>) -> Option<GridAutoFlow> {
    if t == "row".spec_bytes() {
        Option::Some(GridAutoFlow::Row)
    } else if t == "column".spec_bytes() {
        Option::Some(GridAutoFlow::Column)
    } else if t == "row_dense".spec_bytes() {
        Option::Some(GridAutoFlow::RowDense)
    } else if t == "column_dense".spec_bytes() {
        Option::Some(GridAutoFlow::ColumnDense)
    } else {
        Option::None
    }
}

/// Executable counterpart of [`spec_kw_auto_flow`].
pub fn kw_auto_flow(t: &[u8]) -> (r: Option<GridAutoFlow>)
    ensures
        r == spec_kw_auto_flow(t@),
{
    if slice_eq_bytes(t, "row".as_bytes()) {
        Some(GridAutoFlow::Row)
    } else if slice_eq_bytes(t, "column".as_bytes()) {
        Some(GridAutoFlow::Column)
    } else if slice_eq_bytes(t, "row_dense".as_bytes()) {
        Some(GridAutoFlow::RowDense)
    } else if slice_eq_bytes(t, "column_dense".as_bytes()) {
        Some(GridAutoFlow::ColumnDense)
    } else {
        None
    }
}

/// The `direction` keyword table.
pub open spec fn spec_kw_direction(t: Seq<u8>) -> Option<AnimationDirection> {
    if t == "forward".spec_bytes() {
        Option::Some(AnimationDirection::Forward)
    } else if t == "reverse".spec_bytes() {
        Option::Some(AnimationDirection::Reverse)
    } else if t == "alternate_forward".spec_bytes() {
        Option::Some(AnimationDirection::AlternateForward)
    } else if t == "alternate_reverse".spec_bytes() {
        Option::Some(AnimationDirection::AlternateReverse)
    } else {
        Option::None
    }
}

/// Executable counterpart of [`spec_kw_direction`].
pub fn kw_direction(t: &[u8]) -> (r: Option<AnimationDirection>)
    ensures
        r == spec_kw_direction(t@),
{
    if slice_eq_bytes(t, "forward".as_bytes()) {
        Some(AnimationDirection::Forward)
    } else if slice_eq_bytes(t, "reverse".as_bytes()) {
        Some(AnimationDirection::Reverse)
    } else if slice_eq_bytes(t, "alternate_forward".as_bytes()) {
        Some(AnimationDirection::AlternateForward)
    } else if slice_eq_bytes(t, "alternate_reverse".as_bytes()) {
        Some(AnimationDirection::AlternateReverse)
    } else {
        None
    }
}

/// The `justify text` keyword table.
pub open spec fn spec_kw_justify_text(t: Seq<u8>) -> Option<JustifyText> {
    if t == "left".spec_bytes() {
        Option::Some(JustifyText::Left)
    } else if t == "center".spec_bytes() {
        Option::Some(JustifyText::Center)
    } else if t == "justified".spec_bytes() {
        Option::Some(JustifyText::Justified)
    } else if t == "right".spec_bytes() {
        Option::Some(JustifyText::Right)
    } else {
        Option::None
    }
}

/// Executable counterpart of [`spec_kw_justify_text`].
pub fn kw_justify_text(t: &[u8]) -> (r: Option<JustifyText>)
    ensures
        r == spec_kw_justify_text(t@),
{
    if slice_eq_bytes(t, "left".as_bytes()) {
        Some(JustifyText::Left)
    } else if slice_eq_bytes(t, "center".as_bytes()) {
        Some(JustifyText::Center)
    } else if slice_eq_bytes(t, "justified".as_bytes()) {
        Some(JustifyText::Justified)
    } else if slice_eq_bytes(t, "right".as_bytes()) {
        Some(JustifyText::Right)
    } else {
        None
    }
}

/// The `linebreak` keyword table.
pub open spec fn spec_kw_linebreak(t: Seq<u8>) -> Option<LineBreak> {
    if t == "any_character".spec_bytes() {
        Option::Some(LineBreak::AnyCharacter)
    } else if t == "no_wrap".spec_bytes() {
        Option::Some(LineBreak::NoWrap)
    } else if t == "word_boundary".spec_bytes() {
        Option::Some(LineBreak::WordBoundary)
    } else if t == "word_or_character".spec_bytes() {
        Option::Some(LineBreak::WordOrCharacter)
    } else {
        Option::None
    }
}

/// Executable counterpart of [`spec_kw_linebreak`].
pub fn kw_linebreak(t: &[u8]) -> (r: Option<LineBreak>)
    ensures
        r == spec_kw_linebreak(t@),
{
    if slice_eq_bytes(t, "any_character".as_bytes()) {
        Some(LineBreak::AnyCharacter)
    } else if slice_eq_bytes(t, "no_wrap".as_bytes()) {
        Some(LineBreak::NoWrap)
    } else if slice_eq_bytes(t, "word_boundary".as_bytes()) {
        Some(LineBreak::WordBoundary)
    } else if slice_eq_bytes(t, "word_or_character".as_bytes()) {
        Some(LineBreak::WordOrCharacter)
    } else {
        None
    }
}

/// The `easing` keyword table. `Linear` is the unset default of the
/// style model and has no markup keyword.
pub open spec fn spec_kw_easing(t: Seq<u8>) -> Option<EaseKind> {
    if t == "quadratic_in".spec_bytes() {
        Option::Some(EaseKind::QuadraticIn)
    } else if t == "quadratic_out".spec_bytes() {
        Option::Some(EaseKind::QuadraticOut)
    } else if t == "quadratic_in_out".spec_bytes() {
        Option::Some(EaseKind::QuadraticInOut)
    } else if t == "cubic_in".spec_bytes() {
        Option::Some(EaseKind::CubicIn)
    } else if t == "cubic_out".spec_bytes() {
        Option::Some(EaseKind::CubicOut)
    } else if t == "cubic_in_out".spec_bytes() {
        Option::Some(EaseKind::CubicInOut)
    } else if t == "quartic_in".spec_bytes() {
        Option::Some(EaseKind::QuarticIn)
    } else if t == "quartic_out".spec_bytes() {
        Option::Some(EaseKind::QuarticOut)
    } else if t == "quartic_in_out".spec_bytes() {
        Option::Some(EaseKind::QuarticInOut)
    } else if t == "quintic_in".spec_bytes() {
        Option::Some(EaseKind::QuinticIn)
    } else if t == "quintic_out".spec_bytes() {
        Option::Some(EaseKind::QuinticOut)
    } else if t == "quintic_in_out".spec_bytes() {
        Option::Some(EaseKind::QuinticInOut)
    } else if t == "sine_in".spec_bytes() {
        Option::Some(EaseKind::SineIn)
    } else if t == "sine_out".spec_bytes() {
        Option::Some(EaseKind::SineOut)
    } else if t == "sine_in_out".spec_bytes() {
        Option::Some(EaseKind::SineInOut)
    } else if t == "circular_in".spec_bytes() {
        Option::Some(EaseKind::CircularIn)
    } else if t == "circular_out".spec_bytes() {
        Option::Some(EaseKind::CircularOut)
    } else if t == "circular_in_out".spec_bytes() {
        Option::Some(EaseKind::CircularInOut)
    } else if t == "exponential_in".spec_bytes() {
        Option::Some(EaseKind::ExponentialIn)
    } else if t == "exponential_out".spec_bytes() {
        Option::Some(EaseKind::ExponentialOut)
    } else if t == "exponential_in_out".spec_bytes() {
        Option::Some(EaseKind::ExponentialInOut)
    } else if t == "elastic_in".spec_bytes() {
        Option::Some(EaseKind::ElasticIn)
    } else if t == "elastic_out".spec_bytes() {
        Option::Some(EaseKind::ElasticOut)
    } else if t == "elastic_in_out".spec_bytes() {
        Option::Some(EaseKind::ElasticInOut)
    } else if t == "back_in".spec_bytes() {
        Option::Some(EaseKind::BackIn)
    } else if t == "back_out".spec_bytes() {
        Option::Some(EaseKind::BackOut)
    } else if t == "back_in_out".spec_bytes() {
        Option::Some(EaseKind::BackInOut)
    } else if t == "bounce_in".spec_bytes() {
        Option::Some(EaseKind::BounceIn)
    } else if t == "bounce_out".spec_bytes() {
        Option::Some(EaseKind::BounceOut)
    } else if t == "bounce_in_out".spec_bytes() {
        Option::Some(EaseKind::BounceInOut)
    } else {
        Option::None
    }
}

/// Executable counterpart of [`spec_kw_easing`].
pub fn kw_easing(t: &[u8]) -> (r: Option<EaseKind>)
    ensures
        r == spec_kw_easing(t@),
{
    if slice_eq_bytes(t, "quadratic_in".as_bytes()) {
        Some(EaseKind::QuadraticIn)
    } else if slice_eq_bytes(t, "quadratic_out".as_bytes()) {
        Some(EaseKind::QuadraticOut)
    } else if slice_eq_bytes(t, "quadratic_in_out".as_bytes()) {
        Some(EaseKind::QuadraticInOut)
    } else if slice_eq_bytes(t, "cubic_in".as_bytes()) {
        Some(EaseKind::CubicIn)
    } else if slice_eq_bytes(t, "cubic_out".as_bytes()) {
        Some(EaseKind::CubicOut)
    } else if slice_eq_bytes(t, "cubic_in_out".as_bytes()) {
        Some(EaseKind::CubicInOut)
    } else if slice_eq_bytes(t, "quartic_in".as_bytes()) {
        Some(EaseKind::QuarticIn)
    } else if slice_eq_bytes(t, "quartic_out".as_bytes()) {
        Some(EaseKind::QuarticOut)
    } else if slice_eq_bytes(t, "quartic_in_out".as_bytes()) {
        Some(EaseKind::QuarticInOut)
    } else if slice_eq_bytes(t, "quintic_in".as_bytes()) {
        Some(EaseKind::QuinticIn)
    } else if slice_eq_bytes(t, "quintic_out".as_bytes()) {
        Some(EaseKind::QuinticOut)
    } else if slice_eq_bytes(t, "quintic_in_out".as_bytes()) {
        Some(EaseKind::QuinticInOut)
    } else if slice_eq_bytes(t, "sine_in".as_bytes()) {
        Some(EaseKind::SineIn)
    } else if slice_eq_bytes(t, "sine_out".as_bytes()) {
        Some(EaseKind::SineOut)
    } else if slice_eq_bytes(t, "sine_in_out".as_bytes()) {
        Some(EaseKind::SineInOut)
    } else if slice_eq_bytes(t, "circular_in".as_bytes()) {
        Some(EaseKind::CircularIn)
    } else if slice_eq_bytes(t, "circular_out".as_bytes()) {
        Some(EaseKind::CircularOut)
    } else if slice_eq_bytes(t, "circular_in_out".as_bytes()) {
        Some(EaseKind::CircularInOut)
    } else if slice_eq_bytes(t, "exponential_in".as_bytes()) {
        Some(EaseKind::ExponentialIn)
    } else if slice_eq_bytes(t, "exponential_out".as_bytes()) {
        Some(EaseKind::ExponentialOut)
    } else if slice_eq_bytes(t, "exponential_in_out".as_bytes()) {
        Some(EaseKind::ExponentialInOut)
    } else if slice_eq_bytes(t, "elastic_in".as_bytes()) {
        Some(EaseKind::ElasticIn)
    } else if slice_eq_bytes(t, "elastic_out".as_bytes()) {
        Some(EaseKind::ElasticOut)
    } else if slice_eq_bytes(t, "elastic_in_out".as_bytes()) {
        Some(EaseKind::ElasticInOut)
    } else if slice_eq_bytes(t, "back_in".as_bytes()) {
        Some(EaseKind::BackIn)
    } else if slice_eq_bytes(t, "back_out".as_bytes()) {
        Some(EaseKind::BackOut)
    } else if slice_eq_bytes(t, "back_in_out".as_bytes()) {
        Some(EaseKind::BackInOut)
    } else if slice_eq_bytes(t, "bounce_in".as_bytes()) {
        Some(EaseKind::BounceIn)
    } else if slice_eq_bytes(t, "bounce_out".as_bytes()) {
        Some(EaseKind::BounceOut)
    } else if slice_eq_bytes(t, "bounce_in_out".as_bytes()) {
        Some(EaseKind::BounceInOut)
    } else {
        None
    }
}

/// The boolean keyword table.
pub open spec fn spec_kw_bool(t: Seq<u8>) -> Option<bool> {
    if t == "true".spec_bytes() {
        Option::Some(true)
    } else if t == "false".spec_bytes() {
        Option::Some(false)
    } else {
        Option::None
    }
}

/// Executable counterpart of [`spec_kw_bool`].
pub fn kw_bool(t: &[u8]) -> (r: Option<bool>)
    ensures
        r == spec_kw_bool(t@),
{
    if slice_eq_bytes(t, "true".as_bytes()) {
        Some(true)
    } else if slice_eq_bytes(t, "false".as_bytes()) {
        Some(false)
    } else {
        None
    }
}

} // verus!
