//! The per-node style state: the computed baseline, the three
//! interaction override lists, the interaction timers, and the
//! stateless-recompute resolution that merges base, hover, pressed, and
//! active every tick.

use vstd::prelude::*;
use crate::style::AlignContent;
use crate::style::AlignItems;
use crate::style::AlignSelf;
use crate::style::AnimationDirection;
use crate::style::Atlas;
use crate::style::BoxShadowStyle;
use crate::style::DisplayMode;
use crate::style::EaseKind;
use crate::style::FlexDirection;
use crate::style::FlexWrap;
use crate::style::GridAutoFlow;
use crate::style::GridPlacement;
use crate::style::GridTrack;
use crate::style::JustifyContent;
use crate::style::JustifyItems;
use crate::style::JustifySelf;
use crate::style::NodeImageMode;
use crate::style::Num;
use crate::style::Outline;
use crate::style::Overflow;
use crate::style::OverflowAxis;
use crate::style::OverflowClipBox;
use crate::style::OverflowClipMargin;
use crate::style::PositionType;
use crate::style::RectRegion;
use crate::style::RepeatedGridTrack;
use crate::style::SpecStyleAttr;
use crate::style::SpecStyleDirective;
use crate::style::StyleAttr;
use crate::style::StyleDirective;
use crate::style::TextLayout;
use crate::style::TextShadowStyle;
use crate::style::UiColor;
use crate::style::UiRect;
use crate::style::Val;
use crate::style::spec_lerp_color;
use crate::style::spec_lerp_rect;
use crate::style::spec_lerp_val;
use crate::style::lerp_color;
use crate::style::lerp_milli;
use crate::style::lerp_rect;
use crate::style::lerp_val;
use crate::style::lerp_int;

verus! {

/// A rectangle of zero-pixel sides.
pub fn zero_rect() -> (r: UiRect)
    ensures
        r == spec_zero_rect(),
{
    UiRect {
        left: Val::Px(Num { milli: 0 }),
        right: Val::Px(Num { milli: 0 }),
        top: Val::Px(Num { milli: 0 }),
        bottom: Val::Px(Num { milli: 0 }),
    }
}

/// The mathematical value of [`zero_rect`].
pub open spec fn spec_zero_rect() -> UiRect {
    UiRect {
        left: Val::Px(Num { milli: 0 }),
        right: Val::Px(Num { milli: 0 }),
        top: Val::Px(Num { milli: 0 }),
        bottom: Val::Px(Num { milli: 0 }),
    }
}

/// The resolved baseline style of one node: every visual field with its
/// default, overwritten by the node's base style directives at build
/// time. The style engine rebuilds the final style from this baseline
/// every tick.
pub struct ComputedStyle {
    pub display: DisplayMode,
    pub position: PositionType,
    pub overflow: Overflow,
    pub overflow_clip_margin: OverflowClipMargin,
    pub left: Val,
    pub right: Val,
    pub top: Val,
    pub bottom: Val,
    pub width: Val,
    pub height: Val,
    pub min_width: Val,
    pub min_height: Val,
    pub max_width: Val,
    pub max_height: Val,
    pub aspect_ratio: Option<Num>,
    pub align_items: AlignItems,
    pub justify_items: JustifyItems,
    pub align_self: AlignSelf,
    pub justify_self: JustifySelf,
    pub align_content: AlignContent,
    pub justify_content: JustifyContent,
    pub margin: UiRect,
    pub padding: UiRect,
    pub border: UiRect,
    pub border_radius: UiRect,
    pub flex_direction: FlexDirection,
    pub flex_wrap: FlexWrap,
    pub flex_grow: Num,
    pub flex_shrink: Num,
    pub flex_basis: Val,
    pub row_gap: Val,
    pub column_gap: Val,
    pub grid_auto_flow: GridAutoFlow,
    pub grid_template_rows: Vec<RepeatedGridTrack>,
    pub grid_template_columns: Vec<RepeatedGridTrack>,
    pub grid_auto_rows: Vec<GridTrack>,
    pub grid_auto_columns: Vec<GridTrack>,
    pub grid_row: GridPlacement,
    pub grid_column: GridPlacement,
    pub border_color: UiColor,
    pub image_color: UiColor,
    pub background: UiColor,
    pub font_color: UiColor,
    pub font_size: Num,
    pub font: Option<Vec<u8>>,
    pub text_layout: Option<TextLayout>,
    pub image_mode: Option<NodeImageMode>,
    pub image_region: Option<RectRegion>,
    pub shadow: Option<BoxShadowStyle>,
    pub text_shadow: Option<TextShadowStyle>,
    pub outline: Option<Outline>,
    pub atlas: Option<Atlas>,
    pub delay: u32,
    pub duration: u32,
    pub iterations: i64,
    pub fps: i64,
    pub frames: Vec<i64>,
    pub direction: AnimationDirection,
    pub easing: Option<EaseKind>,
    pub zindex: Option<i32>,
    pub global_zindex: Option<i32>,
    pub pickable: Option<(bool, bool)>,
}

/// The mathematical value of a [`ComputedStyle`].
pub struct SpecComputedStyle {
    pub display: DisplayMode,
    pub position: PositionType,
    pub overflow: Overflow,
    pub overflow_clip_margin: OverflowClipMargin,
    pub left: Val,
    pub right: Val,
    pub top: Val,
    pub bottom: Val,
    pub width: Val,
    pub height: Val,
    pub min_width: Val,
    pub min_height: Val,
    pub max_width: Val,
    pub max_height: Val,
    pub aspect_ratio: Option<Num>,
    pub align_items: AlignItems,
    pub justify_items: JustifyItems,
    pub align_self: AlignSelf,
    pub justify_self: JustifySelf,
    pub align_content: AlignContent,
    pub justify_content: JustifyContent,
    pub margin: UiRect,
    pub padding: UiRect,
    pub border: UiRect,
    pub border_radius: UiRect,
    pub flex_direction: FlexDirection,
    pub flex_wrap: FlexWrap,
    pub flex_grow: Num,
    pub flex_shrink: Num,
    pub flex_basis: Val,
    pub row_gap: Val,
    pub column_gap: Val,
    pub grid_auto_flow: GridAutoFlow,
    pub grid_template_rows: Seq<RepeatedGridTrack>,
    pub grid_template_columns: Seq<RepeatedGridTrack>,
    pub grid_auto_rows: Seq<GridTrack>,
    pub grid_auto_columns: Seq<GridTrack>,
    pub grid_row: GridPlacement,
    pub grid_column: GridPlacement,
    pub border_color: UiColor,
    pub image_color: UiColor,
    pub background: UiColor,
    pub font_color: UiColor,
    pub font_size: Num,
    pub font: Option<Seq<u8>>,
    pub text_layout: Option<TextLayout>,
    pub image_mode: Option<NodeImageMode>,
    pub image_region: Option<RectRegion>,
    pub shadow: Option<BoxShadowStyle>,
    pub text_shadow: Option<TextShadowStyle>,
    pub outline: Option<Outline>,
    pub atlas: Option<Atlas>,
    pub delay: u32,
    pub duration: u32,
    pub iterations: i64,
    pub fps: i64,
    pub frames: Seq<i64>,
    pub direction: AnimationDirection,
    pub easing: Option<EaseKind>,
    pub zindex: Option<i32>,
    pub global_zindex: Option<i32>,
    pub pickable: Option<(bool, bool)>,
}

impl View for ComputedStyle {
    type V = SpecComputedStyle;

    open spec fn view(&self) -> SpecComputedStyle {
        SpecComputedStyle {
            display: self.display,
            position: self.position,
            overflow: self.overflow,
            overflow_clip_margin: self.overflow_clip_margin,
            left: self.left,
            right: self.right,
            top: self.top,
            bottom: self.bottom,
            width: self.width,
            height: self.height,
            min_width: self.min_width,
            min_height: self.min_height,
            max_width: self.max_width,
            max_height: self.max_height,
            aspect_ratio: self.aspect_ratio,
            align_items: self.align_items,
            justify_items: self.justify_items,
            align_self: self.align_self,
            justify_self: self.justify_self,
            align_content: self.align_content,
            justify_content: self.justify_content,
            margin: self.margin,
            padding: self.padding,
            border: self.border,
            border_radius: self.border_radius,
            flex_direction: self.flex_direction,
            flex_wrap: self.flex_wrap,
            flex_grow: self.flex_grow,
            flex_shrink: self.flex_shrink,
            flex_basis: self.flex_basis,
            row_gap: self.row_gap,
            column_gap: self.column_gap,
            grid_auto_flow: self.grid_auto_flow,
            grid_template_rows: self.grid_template_rows@,
            grid_template_columns: self.grid_template_columns@,
            grid_auto_rows: self.grid_auto_rows@,
            grid_auto_columns: self.grid_auto_columns@,
            grid_row: self.grid_row,
            grid_column: self.grid_column,
            border_color: self.border_color,
            image_color: self.image_color,
            background: self.background,
            font_color: self.font_color,
            font_size: self.font_size,
            font: match self.font {
                Option::Some(ref v) => Option::Some(v@),
                Option::None => Option::None,
            },
            text_layout: self.text_layout,
            image_mode: self.image_mode,
            image_region: self.image_region,
            shadow: self.shadow,
            text_shadow: self.text_shadow,
            outline: self.outline,
            atlas: self.atlas,
            delay: self.delay,
            duration: self.duration,
            iterations: self.iterations,
            fps: self.fps,
            frames: self.frames@,
            direction: self.direction,
            easing: self.easing,
            zindex: self.zindex,
            global_zindex: self.global_zindex,
            pickable: self.pickable,
        }
    }
}

impl Clone for ComputedStyle {
    /// A clone carries the same mathematical value as the original.
    fn clone(&self) -> (r: Self)
        ensures
            r@ == self@,
    {
        ComputedStyle {
            display: self.display,
            position: self.position,
            overflow: self.overflow,
            overflow_clip_margin: self.overflow_clip_margin,
            left: self.left,
            right: self.right,
            top: self.top,
            bottom: self.bottom,
            width: self.width,
            height: self.height,
            min_width: self.min_width,
            min_height: self.min_height,
            max_width: self.max_width,
            max_height: self.max_height,
            aspect_ratio: self.aspect_ratio,
            align_items: self.align_items,
            justify_items: self.justify_items,
            align_self: self.align_self,
            justify_self: self.justify_self,
            align_content: self.align_content,
            justify_content: self.justify_content,
            margin: self.margin,
            padding: self.padding,
            border: self.border,
            border_radius: self.border_radius,
            flex_direction: self.flex_direction,
            flex_wrap: self.flex_wrap,
            flex_grow: self.flex_grow,
            flex_shrink: self.flex_shrink,
            flex_basis: self.flex_basis,
            row_gap: self.row_gap,
            column_gap: self.column_gap,
            grid_auto_flow: self.grid_auto_flow,
            grid_template_rows: crate::util::clone_vec_copy(&self.grid_template_rows),
            grid_template_columns: crate::util::clone_vec_copy(&self.grid_template_columns),
            grid_auto_rows: crate::util::clone_vec_copy(&self.grid_auto_rows),
            grid_auto_columns: crate::util::clone_vec_copy(&self.grid_auto_columns),
            grid_row: self.grid_row,
            grid_column: self.grid_column,
            border_color: self.border_color,
            image_color: self.image_color,
            background: self.background,
            font_color: self.font_color,
            font_size: self.font_size,
            font: match self.font {
                Option::Some(ref v) => Option::Some(crate::util::clone_vec_copy(v)),
                Option::None => Option::None,
            },
            text_layout: self.text_layout,
            image_mode: self.image_mode,
            image_region: self.image_region,
            shadow: self.shadow,
            text_shadow: self.text_shadow,
            outline: self.outline,
            atlas: self.atlas,
            delay: self.delay,
            duration: self.duration,
            iterations: self.iterations,
            fps: self.fps,
            frames: crate::util::clone_vec_copy(&self.frames),
            direction: self.direction,
            easing: self.easing,
            zindex: self.zindex,
            global_zindex: self.global_zindex,
            pickable: self.pickable,
        }
    }
}

/// The default baseline: the values every node starts from.
pub open spec fn spec_default_computed() -> SpecComputedStyle {
    SpecComputedStyle {
            display: DisplayMode::Flex,
            position: PositionType::Relative,
            overflow: Overflow { x: OverflowAxis::Visible, y: OverflowAxis::Visible },
            overflow_clip_margin: OverflowClipMargin { visual_box: OverflowClipBox::ContentBox, margin: Num { milli: 0 } },
            left: Val::Auto,
            right: Val::Auto,
            top: Val::Auto,
            bottom: Val::Auto,
            width: Val::Auto,
            height: Val::Auto,
            min_width: Val::Auto,
            min_height: Val::Auto,
            max_width: Val::Auto,
            max_height: Val::Auto,
            aspect_ratio: Option::None,
            align_items: AlignItems::Unset,
            justify_items: JustifyItems::Unset,
            align_self: AlignSelf::Auto,
            justify_self: JustifySelf::Auto,
            align_content: AlignContent::Unset,
            justify_content: JustifyContent::Unset,
            margin: spec_zero_rect(),
            padding: spec_zero_rect(),
            border: spec_zero_rect(),
            border_radius: spec_zero_rect(),
            flex_direction: FlexDirection::Row,
            flex_wrap: FlexWrap::NoWrap,
            flex_grow: Num { milli: 0 },
            flex_shrink: Num { milli: 1000 },
            flex_basis: Val::Auto,
            row_gap: Val::Px(Num { milli: 0 }),
            column_gap: Val::Px(Num { milli: 0 }),
            grid_auto_flow: GridAutoFlow::Row,
            grid_template_rows: Seq::empty(),
            grid_template_columns: Seq::empty(),
            grid_auto_rows: Seq::empty(),
            grid_auto_columns: Seq::empty(),
            grid_row: GridPlacement::Auto,
            grid_column: GridPlacement::Auto,
            border_color: UiColor { r: 0, g: 0, b: 0, a: 0 },
            image_color: UiColor { r: 255, g: 255, b: 255, a: 255 },
            background: UiColor { r: 0, g: 0, b: 0, a: 0 },
            font_color: UiColor { r: 255, g: 255, b: 255, a: 255 },
            font_size: Num { milli: 12000 },
            font: Option::None,
            text_layout: Option::None,
            image_mode: Option::None,
            image_region: Option::None,
            shadow: Option::None,
            text_shadow: Option::None,
            outline: Option::None,
            atlas: Option::None,
            delay: 0u32,
            duration: 0u32,
            iterations: -1i64,
            fps: 1i64,
            frames: Seq::empty(),
            direction: AnimationDirection::Forward,
            easing: Option::Some(EaseKind::Linear),
            zindex: Option::None,
            global_zindex: Option::None,
            pickable: Option::None,
    }
}

impl ComputedStyle {
    /// The baseline every node starts from.
    pub fn new() -> (r: ComputedStyle)
        ensures
            r@ == spec_default_computed(),
    {
        ComputedStyle {
            display: DisplayMode::Flex,
            position: PositionType::Relative,
            overflow: Overflow { x: OverflowAxis::Visible, y: OverflowAxis::Visible },
            overflow_clip_margin: OverflowClipMargin { visual_box: OverflowClipBox::ContentBox, margin: Num { milli: 0 } },
            left: Val::Auto,
            right: Val::Auto,
            top: Val::Auto,
            bottom: Val::Auto,
            width: Val::Auto,
            height: Val::Auto,
            min_width: Val::Auto,
            min_height: Val::Auto,
            max_width: Val::Auto,
            max_height: Val::Auto,
            aspect_ratio: None,
            align_items: AlignItems::Unset,
            justify_items: JustifyItems::Unset,
            align_self: AlignSelf::Auto,
            justify_self: JustifySelf::Auto,
            align_content: AlignContent::Unset,
            justify_content: JustifyContent::Unset,
            margin: zero_rect(),
            padding: zero_rect(),
            border: zero_rect(),
            border_radius: zero_rect(),
            flex_direction: FlexDirection::Row,
            flex_wrap: FlexWrap::NoWrap,
            flex_grow: Num { milli: 0 },
            flex_shrink: Num { milli: 1000 },
            flex_basis: Val::Auto,
            row_gap: Val::Px(Num { milli: 0 }),
            column_gap: Val::Px(Num { milli: 0 }),
            grid_auto_flow: GridAutoFlow::Row,
            grid_template_rows: Vec::new(),
            grid_template_columns: Vec::new(),
            grid_auto_rows: Vec::new(),
            grid_auto_columns: Vec::new(),
            grid_row: GridPlacement::Auto,
            grid_column: GridPlacement::Auto,
            border_color: UiColor { r: 0, g: 0, b: 0, a: 0 },
            image_color: UiColor { r: 255, g: 255, b: 255, a: 255 },
            background: UiColor { r: 0, g: 0, b: 0, a: 0 },
            font_color: UiColor { r: 255, g: 255, b: 255, a: 255 },
            font_size: Num { milli: 12000 },
            font: None,
            text_layout: None,
            image_mode: None,
            image_region: None,
            shadow: None,
            text_shadow: None,
            outline: None,
            atlas: None,
            delay: 0,
            duration: 0,
            iterations: -1,
            fps: 1,
            frames: Vec::new(),
            direction: AnimationDirection::Forward,
            easing: Some(EaseKind::Linear),
            zindex: None,
            global_zindex: None,
            pickable: None,
        }
    }
}

/// The default drop shadow used when a shadow sub-field arrives before a
/// whole shadow: opaque white with automatic geometry.
pub open spec fn spec_default_shadow() -> BoxShadowStyle {
    BoxShadowStyle {
        color: UiColor { r: 255, g: 255, b: 255, a: 255 },
        x_offset: Val::Auto,
        y_offset: Val::Auto,
        spread_radius: Val::Auto,
        blur_radius: Val::Auto,
    }
}

/// Executable counterpart of [`spec_default_shadow`].
pub fn default_shadow() -> (r: BoxShadowStyle)
    ensures
        r == spec_default_shadow(),
{
    BoxShadowStyle {
        color: UiColor { r: 255, g: 255, b: 255, a: 255 },
        x_offset: Val::Auto,
        y_offset: Val::Auto,
        spread_radius: Val::Auto,
        blur_radius: Val::Auto,
    }
}

/// Scalar interpolation.
pub open spec fn spec_lerp_num(a: Num, b: Num, ratio: int) -> Num {
    Num { milli: lerp_int(a.milli as int, b.milli as int, ratio) as i64 }
}

/// Executable counterpart of [`spec_lerp_num`].
pub fn lerp_num(a: Num, b: Num, ratio: u32) -> (r: Num)
    requires
        ratio <= 1000,
    ensures
        r == spec_lerp_num(a, b, ratio as int),
{
    Num { milli: lerp_milli(a.milli, b.milli, ratio) }
}





/// One part of the directive table (split to keep each dispatch small).
pub open spec fn spec_apply_computed_part_a(c: SpecComputedStyle, a: SpecStyleAttr) -> Option<SpecComputedStyle> {
    match a {
        SpecStyleAttr::Left(v) => Option::Some(SpecComputedStyle { left: v, ..c }),
        SpecStyleAttr::Right(v) => Option::Some(SpecComputedStyle { right: v, ..c }),
        SpecStyleAttr::Top(v) => Option::Some(SpecComputedStyle { top: v, ..c }),
        SpecStyleAttr::Bottom(v) => Option::Some(SpecComputedStyle { bottom: v, ..c }),
        SpecStyleAttr::Width(v) => Option::Some(SpecComputedStyle { width: v, ..c }),
        SpecStyleAttr::Height(v) => Option::Some(SpecComputedStyle { height: v, ..c }),
        SpecStyleAttr::MinWidth(v) => Option::Some(SpecComputedStyle { min_width: v, ..c }),
        SpecStyleAttr::MinHeight(v) => Option::Some(SpecComputedStyle { min_height: v, ..c }),
        SpecStyleAttr::MaxWidth(v) => Option::Some(SpecComputedStyle { max_width: v, ..c }),
        SpecStyleAttr::MaxHeight(v) => Option::Some(SpecComputedStyle { max_height: v, ..c }),
        SpecStyleAttr::Display(v) => Option::Some(SpecComputedStyle { display: v, ..c }),
        SpecStyleAttr::Position(v) => Option::Some(SpecComputedStyle { position: v, ..c }),
        SpecStyleAttr::Overflow(v) => Option::Some(SpecComputedStyle { overflow: v, ..c }),
        SpecStyleAttr::AlignItems(v) => Option::Some(SpecComputedStyle { align_items: v, ..c }),
        SpecStyleAttr::JustifyItems(v) => Option::Some(SpecComputedStyle { justify_items: v, ..c }),
        SpecStyleAttr::AlignSelf(v) => Option::Some(SpecComputedStyle { align_self: v, ..c }),
        SpecStyleAttr::JustifySelf(v) => Option::Some(SpecComputedStyle { justify_self: v, ..c }),
        _ => Option::None,
    }
}

/// One part of the directive table (split to keep each dispatch small).
pub open spec fn spec_apply_computed_part_b(c: SpecComputedStyle, a: SpecStyleAttr) -> Option<SpecComputedStyle> {
    match a {
        SpecStyleAttr::AlignContent(v) => Option::Some(SpecComputedStyle { align_content: v, ..c }),
        SpecStyleAttr::JustifyContent(v) => Option::Some(SpecComputedStyle { justify_content: v, ..c }),
        SpecStyleAttr::FlexDirection(v) => Option::Some(SpecComputedStyle { flex_direction: v, ..c }),
        SpecStyleAttr::FlexWrap(v) => Option::Some(SpecComputedStyle { flex_wrap: v, ..c }),
        SpecStyleAttr::GridAutoFlow(v) => Option::Some(SpecComputedStyle { grid_auto_flow: v, ..c }),
        SpecStyleAttr::GridRow(v) => Option::Some(SpecComputedStyle { grid_row: v, ..c }),
        SpecStyleAttr::GridColumn(v) => Option::Some(SpecComputedStyle { grid_column: v, ..c }),
        SpecStyleAttr::Margin(v) => Option::Some(SpecComputedStyle { margin: v, ..c }),
        SpecStyleAttr::Padding(v) => Option::Some(SpecComputedStyle { padding: v, ..c }),
        SpecStyleAttr::Border(v) => Option::Some(SpecComputedStyle { border: v, ..c }),
        SpecStyleAttr::BorderRadius(v) => Option::Some(SpecComputedStyle { border_radius: v, ..c }),
        SpecStyleAttr::BorderColor(v) => Option::Some(SpecComputedStyle { border_color: v, ..c }),
        SpecStyleAttr::Background(v) => Option::Some(SpecComputedStyle { background: v, ..c }),
        SpecStyleAttr::FontColor(v) => Option::Some(SpecComputedStyle { font_color: v, ..c }),
        SpecStyleAttr::ImageColor(v) => Option::Some(SpecComputedStyle { image_color: v, ..c }),
        SpecStyleAttr::FlexGrow(v) => Option::Some(SpecComputedStyle { flex_grow: v, ..c }),
        SpecStyleAttr::FlexShrink(v) => Option::Some(SpecComputedStyle { flex_shrink: v, ..c }),
        _ => Option::None,
    }
}

/// One part of the directive table (split to keep each dispatch small).
pub open spec fn spec_apply_computed_part_c(c: SpecComputedStyle, a: SpecStyleAttr) -> Option<SpecComputedStyle> {
    match a {
        SpecStyleAttr::FontSize(v) => Option::Some(SpecComputedStyle { font_size: v, ..c }),
        SpecStyleAttr::FlexBasis(v) => Option::Some(SpecComputedStyle { flex_basis: v, ..c }),
        SpecStyleAttr::RowGap(v) => Option::Some(SpecComputedStyle { row_gap: v, ..c }),
        SpecStyleAttr::ColumnGap(v) => Option::Some(SpecComputedStyle { column_gap: v, ..c }),
        SpecStyleAttr::OverflowClipMargin(v) => Option::Some(SpecComputedStyle { overflow_clip_margin: v, ..c }),
        SpecStyleAttr::Delay(v) => Option::Some(SpecComputedStyle { delay: v, ..c }),
        SpecStyleAttr::Duration(v) => Option::Some(SpecComputedStyle { duration: v, ..c }),
        SpecStyleAttr::Iterations(v) => Option::Some(SpecComputedStyle { iterations: v, ..c }),
        SpecStyleAttr::FPS(v) => Option::Some(SpecComputedStyle { fps: v, ..c }),
        SpecStyleAttr::Direction(v) => Option::Some(SpecComputedStyle { direction: v, ..c }),
        SpecStyleAttr::TextLayout(v) => Option::Some(SpecComputedStyle { text_layout: Option::Some(v), ..c }),
        SpecStyleAttr::ImageRegion(v) => Option::Some(SpecComputedStyle { image_region: Option::Some(v), ..c }),
        SpecStyleAttr::ImageScaleMode(v) => Option::Some(SpecComputedStyle { image_mode: Option::Some(v), ..c }),
        SpecStyleAttr::Zindex(v) => Option::Some(SpecComputedStyle { zindex: Option::Some(v), ..c }),
        SpecStyleAttr::GlobalZIndex(v) => Option::Some(SpecComputedStyle { global_zindex: Option::Some(v), ..c }),
        SpecStyleAttr::Easing(v) => Option::Some(SpecComputedStyle { easing: Option::Some(v), ..c }),
        SpecStyleAttr::Outline(v) => Option::Some(SpecComputedStyle { outline: Option::Some(v), ..c }),
        _ => Option::None,
    }
}

/// One part of the directive table (split to keep each dispatch small).
pub open spec fn spec_apply_computed_part_d(c: SpecComputedStyle, a: SpecStyleAttr) -> Option<SpecComputedStyle> {
    match a {
        SpecStyleAttr::TextShadow(v) => Option::Some(SpecComputedStyle { text_shadow: Option::Some(v), ..c }),
        SpecStyleAttr::GridTemplateRows(v) => Option::Some(SpecComputedStyle { grid_template_rows: v, ..c }),
        SpecStyleAttr::GridTemplateColumns(v) => Option::Some(SpecComputedStyle { grid_template_columns: v, ..c }),
        SpecStyleAttr::GridAutoRows(v) => Option::Some(SpecComputedStyle { grid_auto_rows: v, ..c }),
        SpecStyleAttr::GridAutoColumns(v) => Option::Some(SpecComputedStyle { grid_auto_columns: v, ..c }),
        SpecStyleAttr::AspectRatio(v) => Option::Some(SpecComputedStyle { aspect_ratio: Option::Some(v), ..c }),
        SpecStyleAttr::Font(v) => Option::Some(SpecComputedStyle { font: Option::Some(v), ..c }),
        SpecStyleAttr::Atlas(o) => Option::Some(SpecComputedStyle { atlas: o, ..c }),
        SpecStyleAttr::Frames(v) => Option::Some(SpecComputedStyle { frames: v, ..c }),
        SpecStyleAttr::Pickable(a, b) => Option::Some(SpecComputedStyle { pickable: Option::Some((a, b)), ..c }),
        SpecStyleAttr::ShadowColor(v) => Option::Some(SpecComputedStyle {
            shadow: Option::Some(
                match c.shadow {
                    Option::Some(sh) => BoxShadowStyle { color: v, ..sh },
                    Option::None => BoxShadowStyle { color: v, ..spec_default_shadow() },
                },
            ),
            ..c
        }),
        SpecStyleAttr::ShadowBlur(v) => Option::Some(SpecComputedStyle {
            shadow: Option::Some(
                match c.shadow {
                    Option::Some(sh) => BoxShadowStyle { blur_radius: v, ..sh },
                    Option::None => BoxShadowStyle { blur_radius: v, ..spec_default_shadow() },
                },
            ),
            ..c
        }),
        SpecStyleAttr::ShadowSpread(v) => Option::Some(SpecComputedStyle {
            shadow: Option::Some(
                match c.shadow {
                    Option::Some(sh) => BoxShadowStyle { spread_radius: v, ..sh },
                    Option::None => BoxShadowStyle { spread_radius: v, ..spec_default_shadow() },
                },
            ),
            ..c
        }),
        SpecStyleAttr::ShadowOffset(x, y) => Option::Some(SpecComputedStyle {
            shadow: Option::Some(
                match c.shadow {
                    Option::Some(sh) => BoxShadowStyle { x_offset: x, y_offset: y, ..sh },
                    Option::None => BoxShadowStyle {
                        x_offset: x,
                        y_offset: y,
                        ..spec_default_shadow()
                    },
                },
            ),
            ..c
        }),
        _ => Option::None,
    }
}

/// Executable counterpart of [`spec_apply_computed_part_a`].
#[verifier::rlimit(100)]
#[verifier::spinoff_prover]
fn apply_computed_part_a(c: &mut ComputedStyle, a: &StyleAttr) -> (handled: bool)
    ensures
        match spec_apply_computed_part_a(old(c)@, a@) {
            Option::Some(c2) => handled && final(c)@ == c2,
            Option::None => !handled && final(c)@ == old(c)@,
        },
{
    match a {
        StyleAttr::Left(v) => c.left = *v,
            StyleAttr::Right(v) => c.right = *v,
            StyleAttr::Top(v) => c.top = *v,
            StyleAttr::Bottom(v) => c.bottom = *v,
            StyleAttr::Width(v) => c.width = *v,
            StyleAttr::Height(v) => c.height = *v,
            StyleAttr::MinWidth(v) => c.min_width = *v,
            StyleAttr::MinHeight(v) => c.min_height = *v,
            StyleAttr::MaxWidth(v) => c.max_width = *v,
            StyleAttr::MaxHeight(v) => c.max_height = *v,
            StyleAttr::Display(v) => c.display = *v,
            StyleAttr::Position(v) => c.position = *v,
            StyleAttr::Overflow(v) => c.overflow = *v,
            StyleAttr::AlignItems(v) => c.align_items = *v,
            StyleAttr::JustifyItems(v) => c.justify_items = *v,
            StyleAttr::AlignSelf(v) => c.align_self = *v,
            StyleAttr::JustifySelf(v) => c.justify_self = *v,
        _ => {
            return false;
        },
    }
    true
}

/// Executable counterpart of [`spec_apply_computed_part_b`].
#[verifier::rlimit(100)]
#[verifier::spinoff_prover]
fn apply_computed_part_b(c: &mut ComputedStyle, a: &StyleAttr) -> (handled: bool)
    ensures
        match spec_apply_computed_part_b(old(c)@, a@) {
            Option::Some(c2) => handled && final(c)@ == c2,
            Option::None => !handled && final(c)@ == old(c)@,
        },
{
    match a {
        StyleAttr::AlignContent(v) => c.align_content = *v,
            StyleAttr::JustifyContent(v) => c.justify_content = *v,
            StyleAttr::FlexDirection(v) => c.flex_direction = *v,
            StyleAttr::FlexWrap(v) => c.flex_wrap = *v,
            StyleAttr::GridAutoFlow(v) => c.grid_auto_flow = *v,
            StyleAttr::GridRow(v) => c.grid_row = *v,
            StyleAttr::GridColumn(v) => c.grid_column = *v,
            StyleAttr::Margin(v) => c.margin = *v,
            StyleAttr::Padding(v) => c.padding = *v,
            StyleAttr::Border(v) => c.border = *v,
            StyleAttr::BorderRadius(v) => c.border_radius = *v,
            StyleAttr::BorderColor(v) => c.border_color = *v,
            StyleAttr::Background(v) => c.background = *v,
            StyleAttr::FontColor(v) => c.font_color = *v,
            StyleAttr::ImageColor(v) => c.image_color = *v,
            StyleAttr::FlexGrow(v) => c.flex_grow = *v,
            StyleAttr::FlexShrink(v) => c.flex_shrink = *v,
        _ => {
            return false;
        },
    }
    true
}

/// Executable counterpart of [`spec_apply_computed_part_c`].
#[verifier::rlimit(100)]
#[verifier::spinoff_prover]
fn apply_computed_part_c(c: &mut ComputedStyle, a: &StyleAttr) -> (handled: bool)
    ensures
        match spec_apply_computed_part_c(old(c)@, a@) {
            Option::Some(c2) => handled && final(c)@ == c2,
            Option::None => !handled && final(c)@ == old(c)@,
        },
{
    match a {
        StyleAttr::FontSize(v) => c.font_size = *v,
            StyleAttr::FlexBasis(v) => c.flex_basis = *v,
            StyleAttr::RowGap(v) => c.row_gap = *v,
            StyleAttr::ColumnGap(v) => c.column_gap = *v,
            StyleAttr::OverflowClipMargin(v) => c.overflow_clip_margin = *v,
            StyleAttr::Delay(v) => c.delay = *v,
            StyleAttr::Duration(v) => c.duration = *v,
            StyleAttr::Iterations(v) => c.iterations = *v,
            StyleAttr::FPS(v) => c.fps = *v,
            StyleAttr::Direction(v) => c.direction = *v,
            StyleAttr::TextLayout(v) => c.text_layout = Some(*v),
            StyleAttr::ImageRegion(v) => c.image_region = Some(*v),
            StyleAttr::ImageScaleMode(v) => c.image_mode = Some(*v),
            StyleAttr::Zindex(v) => c.zindex = Some(*v),
            StyleAttr::GlobalZIndex(v) => c.global_zindex = Some(*v),
            StyleAttr::Easing(v) => c.easing = Some(*v),
            StyleAttr::Outline(v) => c.outline = Some(*v),
        _ => {
            return false;
        },
    }
    true
}

/// Executable counterpart of [`spec_apply_computed_part_d`].
#[verifier::rlimit(100)]
#[verifier::spinoff_prover]
fn apply_computed_part_d(c: &mut ComputedStyle, a: &StyleAttr) -> (handled: bool)
    ensures
        match spec_apply_computed_part_d(old(c)@, a@) {
            Option::Some(c2) => handled && final(c)@ == c2,
            Option::None => !handled && final(c)@ == old(c)@,
        },
{
    match a {
        StyleAttr::TextShadow(v) => c.text_shadow = Some(*v),
            StyleAttr::GridTemplateRows(v) => c.grid_template_rows = crate::util::clone_vec_copy(v),
            StyleAttr::GridTemplateColumns(v) => c.grid_template_columns = crate::util::clone_vec_copy(v),
            StyleAttr::GridAutoRows(v) => c.grid_auto_rows = crate::util::clone_vec_copy(v),
            StyleAttr::GridAutoColumns(v) => c.grid_auto_columns = crate::util::clone_vec_copy(v),
            StyleAttr::AspectRatio(v) => c.aspect_ratio = Some(*v),
            StyleAttr::Font(v) => c.font = Some(crate::util::clone_vec_copy(v)),
            StyleAttr::Atlas(o) => c.atlas = *o,
            StyleAttr::Frames(v) => c.frames = crate::util::clone_vec_copy(v),
            StyleAttr::Pickable(a, b) => c.pickable = Some((*a, *b)),
            StyleAttr::ShadowColor(v) => {
                c.shadow = Some(
                    match c.shadow {
                        Some(sh) => BoxShadowStyle { color: *v, ..sh },
                        None => BoxShadowStyle { color: *v, ..default_shadow() },
                    },
                );
            },
            StyleAttr::ShadowBlur(v) => {
                c.shadow = Some(
                    match c.shadow {
                        Some(sh) => BoxShadowStyle { blur_radius: *v, ..sh },
                        None => BoxShadowStyle { blur_radius: *v, ..default_shadow() },
                    },
                );
            },
            StyleAttr::ShadowSpread(v) => {
                c.shadow = Some(
                    match c.shadow {
                        Some(sh) => BoxShadowStyle { spread_radius: *v, ..sh },
                        None => BoxShadowStyle { spread_radius: *v, ..default_shadow() },
                    },
                );
            },
            StyleAttr::ShadowOffset(x, y) => {
                c.shadow = Some(
                    match c.shadow {
                        Some(sh) => BoxShadowStyle { x_offset: *x, y_offset: *y, ..sh },
                        None => BoxShadowStyle { x_offset: *x, y_offset: *y, ..default_shadow() },
                    },
                );
            },
        _ => {
            return false;
        },
    }
    true
}

/// How one baseline directive lands in the computed style: every field
/// writes its slot; shadow sub-fields grow a default shadow when none is
/// set yet.
pub open spec fn spec_apply_computed(c: SpecComputedStyle, a: SpecStyleAttr) -> SpecComputedStyle {
    match spec_apply_computed_part_a(c, a) {
        Option::Some(c2) => c2,
        Option::None => match spec_apply_computed_part_b(c, a) {
        Option::Some(c2) => c2,
        Option::None => match spec_apply_computed_part_c(c, a) {
        Option::Some(c2) => c2,
        Option::None => match spec_apply_computed_part_d(c, a) {
        Option::Some(c2) => c2,
        Option::None => c,
    },
    },
    },
    }
}

/// Writes one baseline directive into the computed style; the result is
/// exactly [`spec_apply_computed`].
pub fn apply_computed_attr(c: &mut ComputedStyle, a: &StyleAttr)
    ensures
        final(c)@ == spec_apply_computed(old(c)@, a@),
{
    if apply_computed_part_a(c, a) {
        return ;
    }
    if apply_computed_part_b(c, a) {
        return ;
    }
    if apply_computed_part_c(c, a) {
        return ;
    }
    if apply_computed_part_d(c, a) {
        return ;
    }
}

/// One part of the directive table (split to keep each dispatch small).
pub open spec fn spec_apply_interpolated_part_a(base: SpecComputedStyle, cur: SpecComputedStyle, a: SpecStyleAttr, ratio: int) -> Option<SpecComputedStyle> {
    match a {
        SpecStyleAttr::Display(v) => Option::Some(SpecComputedStyle { display: v, ..cur }),
        SpecStyleAttr::Position(v) => Option::Some(SpecComputedStyle { position: v, ..cur }),
        SpecStyleAttr::Overflow(v) => Option::Some(SpecComputedStyle { overflow: v, ..cur }),
        SpecStyleAttr::AlignItems(v) => Option::Some(SpecComputedStyle { align_items: v, ..cur }),
        SpecStyleAttr::JustifyItems(v) => Option::Some(SpecComputedStyle { justify_items: v, ..cur }),
        SpecStyleAttr::AlignSelf(v) => Option::Some(SpecComputedStyle { align_self: v, ..cur }),
        SpecStyleAttr::JustifySelf(v) => Option::Some(SpecComputedStyle { justify_self: v, ..cur }),
        SpecStyleAttr::AlignContent(v) => Option::Some(SpecComputedStyle { align_content: v, ..cur }),
        SpecStyleAttr::JustifyContent(v) => Option::Some(SpecComputedStyle { justify_content: v, ..cur }),
        SpecStyleAttr::FlexDirection(v) => Option::Some(SpecComputedStyle { flex_direction: v, ..cur }),
        SpecStyleAttr::FlexWrap(v) => Option::Some(SpecComputedStyle { flex_wrap: v, ..cur }),
        SpecStyleAttr::GridAutoFlow(v) => Option::Some(SpecComputedStyle { grid_auto_flow: v, ..cur }),
        SpecStyleAttr::GridRow(v) => Option::Some(SpecComputedStyle { grid_row: v, ..cur }),
        _ => Option::None,
    }
}

/// One part of the directive table (split to keep each dispatch small).
pub open spec fn spec_apply_interpolated_part_b(base: SpecComputedStyle, cur: SpecComputedStyle, a: SpecStyleAttr, ratio: int) -> Option<SpecComputedStyle> {
    match a {
        SpecStyleAttr::GridColumn(v) => Option::Some(SpecComputedStyle { grid_column: v, ..cur }),
        SpecStyleAttr::Left(v) => Option::Some(SpecComputedStyle { left: spec_lerp_val(base.left, v, ratio), ..cur }),
        SpecStyleAttr::Right(v) => Option::Some(SpecComputedStyle { right: spec_lerp_val(base.right, v, ratio), ..cur }),
        SpecStyleAttr::Top(v) => Option::Some(SpecComputedStyle { top: spec_lerp_val(base.top, v, ratio), ..cur }),
        SpecStyleAttr::Bottom(v) => Option::Some(SpecComputedStyle { bottom: spec_lerp_val(base.bottom, v, ratio), ..cur }),
        SpecStyleAttr::Width(v) => Option::Some(SpecComputedStyle { width: spec_lerp_val(base.width, v, ratio), ..cur }),
        SpecStyleAttr::Height(v) => Option::Some(SpecComputedStyle { height: spec_lerp_val(base.height, v, ratio), ..cur }),
        SpecStyleAttr::MinWidth(v) => Option::Some(SpecComputedStyle { min_width: spec_lerp_val(base.min_width, v, ratio), ..cur }),
        SpecStyleAttr::MinHeight(v) => Option::Some(SpecComputedStyle { min_height: spec_lerp_val(base.min_height, v, ratio), ..cur }),
        SpecStyleAttr::MaxWidth(v) => Option::Some(SpecComputedStyle { max_width: spec_lerp_val(base.max_width, v, ratio), ..cur }),
        SpecStyleAttr::MaxHeight(v) => Option::Some(SpecComputedStyle { max_height: spec_lerp_val(base.max_height, v, ratio), ..cur }),
        SpecStyleAttr::FlexBasis(v) => Option::Some(SpecComputedStyle { flex_basis: spec_lerp_val(base.flex_basis, v, ratio), ..cur }),
        SpecStyleAttr::RowGap(v) => Option::Some(SpecComputedStyle { row_gap: spec_lerp_val(base.row_gap, v, ratio), ..cur }),
        _ => Option::None,
    }
}

/// One part of the directive table (split to keep each dispatch small).
pub open spec fn spec_apply_interpolated_part_c(base: SpecComputedStyle, cur: SpecComputedStyle, a: SpecStyleAttr, ratio: int) -> Option<SpecComputedStyle> {
    match a {
        SpecStyleAttr::ColumnGap(v) => Option::Some(SpecComputedStyle { column_gap: spec_lerp_val(base.column_gap, v, ratio), ..cur }),
        SpecStyleAttr::Margin(v) => Option::Some(SpecComputedStyle { margin: spec_lerp_rect(base.margin, v, ratio), ..cur }),
        SpecStyleAttr::Padding(v) => Option::Some(SpecComputedStyle { padding: spec_lerp_rect(base.padding, v, ratio), ..cur }),
        SpecStyleAttr::Border(v) => Option::Some(SpecComputedStyle { border: spec_lerp_rect(base.border, v, ratio), ..cur }),
        SpecStyleAttr::BorderRadius(v) => Option::Some(SpecComputedStyle { border_radius: spec_lerp_rect(base.border_radius, v, ratio), ..cur }),
        SpecStyleAttr::BorderColor(v) => Option::Some(SpecComputedStyle { border_color: spec_lerp_color(base.border_color, v, ratio), ..cur }),
        SpecStyleAttr::Background(v) => Option::Some(SpecComputedStyle { background: spec_lerp_color(base.background, v, ratio), ..cur }),
        SpecStyleAttr::FontColor(v) => Option::Some(SpecComputedStyle { font_color: spec_lerp_color(base.font_color, v, ratio), ..cur }),
        SpecStyleAttr::ImageColor(v) => Option::Some(SpecComputedStyle { image_color: spec_lerp_color(base.image_color, v, ratio), ..cur }),
        SpecStyleAttr::FlexGrow(v) => Option::Some(SpecComputedStyle { flex_grow: spec_lerp_num(base.flex_grow, v, ratio), ..cur }),
        SpecStyleAttr::FlexShrink(v) => Option::Some(SpecComputedStyle { flex_shrink: spec_lerp_num(base.flex_shrink, v, ratio), ..cur }),
        SpecStyleAttr::FontSize(v) => Option::Some(SpecComputedStyle { font_size: spec_lerp_num(base.font_size, v, ratio), ..cur }),
        SpecStyleAttr::GridTemplateRows(v) => Option::Some(SpecComputedStyle { grid_template_rows: v, ..cur }),
        _ => Option::None,
    }
}

/// One part of the directive table (split to keep each dispatch small).
pub open spec fn spec_apply_interpolated_part_d(base: SpecComputedStyle, cur: SpecComputedStyle, a: SpecStyleAttr, ratio: int) -> Option<SpecComputedStyle> {
    match a {
        SpecStyleAttr::GridTemplateColumns(v) => Option::Some(SpecComputedStyle { grid_template_columns: v, ..cur }),
        SpecStyleAttr::GridAutoRows(v) => Option::Some(SpecComputedStyle { grid_auto_rows: v, ..cur }),
        SpecStyleAttr::GridAutoColumns(v) => Option::Some(SpecComputedStyle { grid_auto_columns: v, ..cur }),
        SpecStyleAttr::AspectRatio(v) => Option::Some(SpecComputedStyle {
            aspect_ratio: match base.aspect_ratio {
                Option::Some(a) => Option::Some(spec_lerp_num(a, v, ratio)),
                Option::None => Option::None,
            },
            ..cur
        }),
        SpecStyleAttr::TextLayout(v) => Option::Some(SpecComputedStyle { text_layout: Option::Some(v), ..cur }),
        SpecStyleAttr::Font(v) => Option::Some(SpecComputedStyle { font: Option::Some(v), ..cur }),
        SpecStyleAttr::Outline(v) => Option::Some(match (base.outline, cur.outline) {
            (Option::Some(bo), Option::Some(co)) => SpecComputedStyle {
                outline: Option::Some(
                    crate::style::Outline {
                        width: spec_lerp_val(bo.width, v.width, ratio),
                        offset: spec_lerp_val(bo.offset, v.offset, ratio),
                        color: spec_lerp_color(bo.color, v.color, ratio),
                    },
                ),
                ..cur
            },
            _ => cur,
        }),
        SpecStyleAttr::ShadowColor(v) => Option::Some(match (base.shadow, cur.shadow) {
            (Option::Some(bs), Option::Some(cs)) => SpecComputedStyle {
                shadow: Option::Some(
                    BoxShadowStyle { color: spec_lerp_color(bs.color, v, ratio), ..cs },
                ),
                ..cur
            },
            _ => cur,
        }),
        SpecStyleAttr::ShadowOffset(x, y) => Option::Some(match (base.shadow, cur.shadow) {
            (Option::Some(bs), Option::Some(cs)) => SpecComputedStyle {
                shadow: Option::Some(
                    BoxShadowStyle {
                        x_offset: spec_lerp_val(bs.x_offset, x, ratio),
                        y_offset: spec_lerp_val(bs.y_offset, y, ratio),
                        ..cs
                    },
                ),
                ..cur
            },
            _ => cur,
        }),
        SpecStyleAttr::ShadowBlur(v) => Option::Some(match (base.shadow, cur.shadow) {
            (Option::Some(bs), Option::Some(cs)) => SpecComputedStyle {
                shadow: Option::Some(
                    BoxShadowStyle { blur_radius: spec_lerp_val(bs.blur_radius, v, ratio), ..cs },
                ),
                ..cur
            },
            _ => cur,
        }),
        SpecStyleAttr::ShadowSpread(v) => Option::Some(match (base.shadow, cur.shadow) {
            (Option::Some(bs), Option::Some(cs)) => SpecComputedStyle {
                shadow: Option::Some(
                    BoxShadowStyle { spread_radius: spec_lerp_val(bs.spread_radius, v, ratio), ..cs },
                ),
                ..cur
            },
            _ => cur,
        }),
        SpecStyleAttr::TextShadow(v) => Option::Some(match (base.text_shadow, cur.text_shadow) {
            (Option::Some(bt), Option::Some(_)) => SpecComputedStyle {
                text_shadow: Option::Some(
                    TextShadowStyle {
                        offset: crate::style::Vec2n {
                            x: spec_lerp_num(bt.offset.x, v.offset.x, ratio),
                            y: spec_lerp_num(bt.offset.y, v.offset.y, ratio),
                        },
                        color: spec_lerp_color(bt.color, v.color, ratio),
                    },
                ),
                ..cur
            },
            _ => cur,
        }),
        _ => Option::None,
    }
}

/// Executable counterpart of [`spec_apply_interpolated_part_a`].
#[verifier::rlimit(100)]
#[verifier::spinoff_prover]
fn apply_interpolated_part_a(base: &ComputedStyle, cur: &mut ComputedStyle, a: &StyleAttr, ratio: u32) -> (handled: bool)
    requires
        ratio <= 1000,
    ensures
        match spec_apply_interpolated_part_a(base@, old(cur)@, a@, ratio as int) {
            Option::Some(c2) => handled && final(cur)@ == c2,
            Option::None => !handled && final(cur)@ == old(cur)@,
        },
{
    match a {
        StyleAttr::Display(v) => cur.display = *v,
            StyleAttr::Position(v) => cur.position = *v,
            StyleAttr::Overflow(v) => cur.overflow = *v,
            StyleAttr::AlignItems(v) => cur.align_items = *v,
            StyleAttr::JustifyItems(v) => cur.justify_items = *v,
            StyleAttr::AlignSelf(v) => cur.align_self = *v,
            StyleAttr::JustifySelf(v) => cur.justify_self = *v,
            StyleAttr::AlignContent(v) => cur.align_content = *v,
            StyleAttr::JustifyContent(v) => cur.justify_content = *v,
            StyleAttr::FlexDirection(v) => cur.flex_direction = *v,
            StyleAttr::FlexWrap(v) => cur.flex_wrap = *v,
            StyleAttr::GridAutoFlow(v) => cur.grid_auto_flow = *v,
            StyleAttr::GridRow(v) => cur.grid_row = *v,
        _ => {
            return false;
        },
    }
    true
}

/// Executable counterpart of [`spec_apply_interpolated_part_b`].
#[verifier::rlimit(100)]
#[verifier::spinoff_prover]
fn apply_interpolated_part_b(base: &ComputedStyle, cur: &mut ComputedStyle, a: &StyleAttr, ratio: u32) -> (handled: bool)
    requires
        ratio <= 1000,
    ensures
        match spec_apply_interpolated_part_b(base@, old(cur)@, a@, ratio as int) {
            Option::Some(c2) => handled && final(cur)@ == c2,
            Option::None => !handled && final(cur)@ == old(cur)@,
        },
{
    match a {
        StyleAttr::GridColumn(v) => cur.grid_column = *v,
            StyleAttr::Left(v) => cur.left = lerp_val(&base.left, v, ratio),
            StyleAttr::Right(v) => cur.right = lerp_val(&base.right, v, ratio),
            StyleAttr::Top(v) => cur.top = lerp_val(&base.top, v, ratio),
            StyleAttr::Bottom(v) => cur.bottom = lerp_val(&base.bottom, v, ratio),
            StyleAttr::Width(v) => cur.width = lerp_val(&base.width, v, ratio),
            StyleAttr::Height(v) => cur.height = lerp_val(&base.height, v, ratio),
            StyleAttr::MinWidth(v) => cur.min_width = lerp_val(&base.min_width, v, ratio),
            StyleAttr::MinHeight(v) => cur.min_height = lerp_val(&base.min_height, v, ratio),
            StyleAttr::MaxWidth(v) => cur.max_width = lerp_val(&base.max_width, v, ratio),
            StyleAttr::MaxHeight(v) => cur.max_height = lerp_val(&base.max_height, v, ratio),
            StyleAttr::FlexBasis(v) => cur.flex_basis = lerp_val(&base.flex_basis, v, ratio),
            StyleAttr::RowGap(v) => cur.row_gap = lerp_val(&base.row_gap, v, ratio),
        _ => {
            return false;
        },
    }
    true
}

/// Executable counterpart of [`spec_apply_interpolated_part_c`].
#[verifier::rlimit(100)]
#[verifier::spinoff_prover]
fn apply_interpolated_part_c(base: &ComputedStyle, cur: &mut ComputedStyle, a: &StyleAttr, ratio: u32) -> (handled: bool)
    requires
        ratio <= 1000,
    ensures
        match spec_apply_interpolated_part_c(base@, old(cur)@, a@, ratio as int) {
            Option::Some(c2) => handled && final(cur)@ == c2,
            Option::None => !handled && final(cur)@ == old(cur)@,
        },
{
    match a {
        StyleAttr::ColumnGap(v) => cur.column_gap = lerp_val(&base.column_gap, v, ratio),
            StyleAttr::Margin(v) => cur.margin = lerp_rect(&base.margin, v, ratio),
            StyleAttr::Padding(v) => cur.padding = lerp_rect(&base.padding, v, ratio),
            StyleAttr::Border(v) => cur.border = lerp_rect(&base.border, v, ratio),
            StyleAttr::BorderRadius(v) => cur.border_radius = lerp_rect(&base.border_radius, v, ratio),
            StyleAttr::BorderColor(v) => cur.border_color = lerp_color(&base.border_color, v, ratio),
            StyleAttr::Background(v) => cur.background = lerp_color(&base.background, v, ratio),
            StyleAttr::FontColor(v) => cur.font_color = lerp_color(&base.font_color, v, ratio),
            StyleAttr::ImageColor(v) => cur.image_color = lerp_color(&base.image_color, v, ratio),
            StyleAttr::FlexGrow(v) => cur.flex_grow = lerp_num(base.flex_grow, *v, ratio),
            StyleAttr::FlexShrink(v) => cur.flex_shrink = lerp_num(base.flex_shrink, *v, ratio),
            StyleAttr::FontSize(v) => cur.font_size = lerp_num(base.font_size, *v, ratio),
            StyleAttr::GridTemplateRows(v) => cur.grid_template_rows = crate::util::clone_vec_copy(v),
        _ => {
            return false;
        },
    }
    true
}

/// Executable counterpart of [`spec_apply_interpolated_part_d`].
#[verifier::rlimit(100)]
#[verifier::spinoff_prover]
fn apply_interpolated_part_d(base: &ComputedStyle, cur: &mut ComputedStyle, a: &StyleAttr, ratio: u32) -> (handled: bool)
    requires
        ratio <= 1000,
    ensures
        match spec_apply_interpolated_part_d(base@, old(cur)@, a@, ratio as int) {
            Option::Some(c2) => handled && final(cur)@ == c2,
            Option::None => !handled && final(cur)@ == old(cur)@,
        },
{
    match a {
        StyleAttr::GridTemplateColumns(v) => cur.grid_template_columns = crate::util::clone_vec_copy(v),
            StyleAttr::GridAutoRows(v) => cur.grid_auto_rows = crate::util::clone_vec_copy(v),
            StyleAttr::GridAutoColumns(v) => cur.grid_auto_columns = crate::util::clone_vec_copy(v),
            StyleAttr::AspectRatio(v) => {
                cur.aspect_ratio = match base.aspect_ratio {
                    Some(a) => Some(lerp_num(a, *v, ratio)),
                    None => None,
                };
            },
            StyleAttr::TextLayout(v) => cur.text_layout = Some(*v),
            StyleAttr::Font(v) => cur.font = Some(crate::util::clone_vec_copy(v)),
            StyleAttr::Outline(v) => {
                match (&base.outline, &cur.outline) {
                    (Some(bo), Some(_)) => {
                        cur.outline = Some(
                            crate::style::Outline {
                                width: lerp_val(&bo.width, &v.width, ratio),
                                offset: lerp_val(&bo.offset, &v.offset, ratio),
                                color: lerp_color(&bo.color, &v.color, ratio),
                            },
                        );
                    },
                    _ => {},
                }
            },
            StyleAttr::ShadowColor(v) => {
                match (&base.shadow, &cur.shadow) {
                    (Some(bs), Some(cs)) => {
                        cur.shadow = Some(
                            BoxShadowStyle { color: lerp_color(&bs.color, v, ratio), ..*cs },
                        );
                    },
                    _ => {},
                }
            },
            StyleAttr::ShadowOffset(x, y) => {
                match (&base.shadow, &cur.shadow) {
                    (Some(bs), Some(cs)) => {
                        cur.shadow = Some(
                            BoxShadowStyle {
                                x_offset: lerp_val(&bs.x_offset, x, ratio),
                                y_offset: lerp_val(&bs.y_offset, y, ratio),
                                ..*cs
                            },
                        );
                    },
                    _ => {},
                }
            },
            StyleAttr::ShadowBlur(v) => {
                match (&base.shadow, &cur.shadow) {
                    (Some(bs), Some(cs)) => {
                        cur.shadow = Some(
                            BoxShadowStyle { blur_radius: lerp_val(&bs.blur_radius, v, ratio), ..*cs },
                        );
                    },
                    _ => {},
                }
            },
            StyleAttr::ShadowSpread(v) => {
                match (&base.shadow, &cur.shadow) {
                    (Some(bs), Some(cs)) => {
                        cur.shadow = Some(
                            BoxShadowStyle { spread_radius: lerp_val(&bs.spread_radius, v, ratio), ..*cs },
                        );
                    },
                    _ => {},
                }
            },
            StyleAttr::TextShadow(v) => {
                match (&base.text_shadow, &cur.text_shadow) {
                    (Some(bt), Some(_)) => {
                        cur.text_shadow = Some(
                            TextShadowStyle {
                                offset: crate::style::Vec2n {
                                    x: lerp_num(bt.offset.x, v.offset.x, ratio),
                                    y: lerp_num(bt.offset.y, v.offset.y, ratio),
                                },
                                color: lerp_color(&bt.color, &v.color, ratio),
                            },
                        );
                    },
                    _ => {},
                }
            },
        _ => {
            return false;
        },
    }
    true
}

/// How one override directive lands in the style under a transition
/// ratio: continuous fields interpolate from the baseline value toward
/// the override's target (only between matching units), discrete fields
/// switch unconditionally, and directives with no override meaning are
/// ignored.
pub open spec fn spec_apply_interpolated(
    base: SpecComputedStyle,
    cur: SpecComputedStyle,
    a: SpecStyleAttr,
    ratio: int,
) -> SpecComputedStyle {
    match spec_apply_interpolated_part_a(base, cur, a, ratio) {
        Option::Some(c2) => c2,
        Option::None => match spec_apply_interpolated_part_b(base, cur, a, ratio) {
        Option::Some(c2) => c2,
        Option::None => match spec_apply_interpolated_part_c(base, cur, a, ratio) {
        Option::Some(c2) => c2,
        Option::None => match spec_apply_interpolated_part_d(base, cur, a, ratio) {
        Option::Some(c2) => c2,
        Option::None => cur,
    },
    },
    },
    }
}

/// Applies one override directive; the result is exactly
/// [`spec_apply_interpolated`].
pub fn apply_interpolated(
    base: &ComputedStyle,
    cur: &mut ComputedStyle,
    a: &StyleAttr,
    ratio: u32,
)
    requires
        ratio <= 1000,
    ensures
        final(cur)@ == spec_apply_interpolated(base@, old(cur)@, a@, ratio as int),
{
    if apply_interpolated_part_a(base, cur, a, ratio) {
        return ;
    }
    if apply_interpolated_part_b(base, cur, a, ratio) {
        return ;
    }
    if apply_interpolated_part_c(base, cur, a, ratio) {
        return ;
    }
    if apply_interpolated_part_d(base, cur, a, ratio) {
        return ;
    }
}


/// The kind of a style value: which visual field it writes. Two values
/// of the same kind target the same field.
pub open spec fn spec_attr_kind(a: SpecStyleAttr) -> int {
    match a {
        SpecStyleAttr::Display(..) => 0,
        SpecStyleAttr::Position(..) => 1,
        SpecStyleAttr::Overflow(..) => 2,
        SpecStyleAttr::OverflowClipMargin(..) => 3,
        SpecStyleAttr::Left(..) => 4,
        SpecStyleAttr::Right(..) => 5,
        SpecStyleAttr::Top(..) => 6,
        SpecStyleAttr::Bottom(..) => 7,
        SpecStyleAttr::Width(..) => 8,
        SpecStyleAttr::Height(..) => 9,
        SpecStyleAttr::MinWidth(..) => 10,
        SpecStyleAttr::MinHeight(..) => 11,
        SpecStyleAttr::MaxWidth(..) => 12,
        SpecStyleAttr::MaxHeight(..) => 13,
        SpecStyleAttr::AspectRatio(..) => 14,
        SpecStyleAttr::AlignItems(..) => 15,
        SpecStyleAttr::JustifyItems(..) => 16,
        SpecStyleAttr::AlignSelf(..) => 17,
        SpecStyleAttr::JustifySelf(..) => 18,
        SpecStyleAttr::AlignContent(..) => 19,
        SpecStyleAttr::JustifyContent(..) => 20,
        SpecStyleAttr::Margin(..) => 21,
        SpecStyleAttr::Padding(..) => 22,
        SpecStyleAttr::Border(..) => 23,
        SpecStyleAttr::BorderColor(..) => 24,
        SpecStyleAttr::BorderRadius(..) => 25,
        SpecStyleAttr::FlexDirection(..) => 26,
        SpecStyleAttr::FlexWrap(..) => 27,
        SpecStyleAttr::FlexGrow(..) => 28,
        SpecStyleAttr::FlexShrink(..) => 29,
        SpecStyleAttr::FlexBasis(..) => 30,
        SpecStyleAttr::RowGap(..) => 31,
        SpecStyleAttr::ColumnGap(..) => 32,
        SpecStyleAttr::GridAutoFlow(..) => 33,
        SpecStyleAttr::GridTemplateRows(..) => 34,
        SpecStyleAttr::GridTemplateColumns(..) => 35,
        SpecStyleAttr::GridAutoRows(..) => 36,
        SpecStyleAttr::GridAutoColumns(..) => 37,
        SpecStyleAttr::GridRow(..) => 38,
        SpecStyleAttr::GridColumn(..) => 39,
        SpecStyleAttr::Background(..) => 40,
        SpecStyleAttr::FontSize(..) => 41,
        SpecStyleAttr::FontColor(..) => 42,
        SpecStyleAttr::Font(..) => 43,
        SpecStyleAttr::TextLayout(..) => 44,
        SpecStyleAttr::ImageColor(..) => 45,
        SpecStyleAttr::ImageRegion(..) => 46,
        SpecStyleAttr::ImageScaleMode(..) => 47,
        SpecStyleAttr::Zindex(..) => 48,
        SpecStyleAttr::GlobalZIndex(..) => 49,
        SpecStyleAttr::ShadowColor(..) => 50,
        SpecStyleAttr::ShadowOffset(..) => 51,
        SpecStyleAttr::ShadowSpread(..) => 52,
        SpecStyleAttr::ShadowBlur(..) => 53,
        SpecStyleAttr::TextShadow(..) => 54,
        SpecStyleAttr::Outline(..) => 55,
        SpecStyleAttr::Delay(..) => 56,
        SpecStyleAttr::Easing(..) => 57,
        SpecStyleAttr::Atlas(..) => 58,
        SpecStyleAttr::Duration(..) => 59,
        SpecStyleAttr::Direction(..) => 60,
        SpecStyleAttr::Iterations(..) => 61,
        SpecStyleAttr::FPS(..) => 62,
        SpecStyleAttr::Frames(..) => 63,
        SpecStyleAttr::Pickable(..) => 64,
    }
}

/// Executable counterpart of [`spec_attr_kind`].
#[verifier::rlimit(30)]
pub fn attr_kind(a: &StyleAttr) -> (r: u32)
    ensures
        r as int == spec_attr_kind(a@),
{
    match a {
        StyleAttr::Display(..) => 0,
            StyleAttr::Position(..) => 1,
            StyleAttr::Overflow(..) => 2,
            StyleAttr::OverflowClipMargin(..) => 3,
            StyleAttr::Left(..) => 4,
            StyleAttr::Right(..) => 5,
            StyleAttr::Top(..) => 6,
            StyleAttr::Bottom(..) => 7,
            StyleAttr::Width(..) => 8,
            StyleAttr::Height(..) => 9,
            StyleAttr::MinWidth(..) => 10,
            StyleAttr::MinHeight(..) => 11,
            StyleAttr::MaxWidth(..) => 12,
            StyleAttr::MaxHeight(..) => 13,
            StyleAttr::AspectRatio(..) => 14,
            StyleAttr::AlignItems(..) => 15,
            StyleAttr::JustifyItems(..) => 16,
            StyleAttr::AlignSelf(..) => 17,
            StyleAttr::JustifySelf(..) => 18,
            StyleAttr::AlignContent(..) => 19,
            StyleAttr::JustifyContent(..) => 20,
            StyleAttr::Margin(..) => 21,
            StyleAttr::Padding(..) => 22,
            StyleAttr::Border(..) => 23,
            StyleAttr::BorderColor(..) => 24,
            StyleAttr::BorderRadius(..) => 25,
            StyleAttr::FlexDirection(..) => 26,
            StyleAttr::FlexWrap(..) => 27,
            StyleAttr::FlexGrow(..) => 28,
            StyleAttr::FlexShrink(..) => 29,
            StyleAttr::FlexBasis(..) => 30,
            StyleAttr::RowGap(..) => 31,
            StyleAttr::ColumnGap(..) => 32,
            StyleAttr::GridAutoFlow(..) => 33,
            StyleAttr::GridTemplateRows(..) => 34,
            StyleAttr::GridTemplateColumns(..) => 35,
            StyleAttr::GridAutoRows(..) => 36,
            StyleAttr::GridAutoColumns(..) => 37,
            StyleAttr::GridRow(..) => 38,
            StyleAttr::GridColumn(..) => 39,
            StyleAttr::Background(..) => 40,
            StyleAttr::FontSize(..) => 41,
            StyleAttr::FontColor(..) => 42,
            StyleAttr::Font(..) => 43,
            StyleAttr::TextLayout(..) => 44,
            StyleAttr::ImageColor(..) => 45,
            StyleAttr::ImageRegion(..) => 46,
            StyleAttr::ImageScaleMode(..) => 47,
            StyleAttr::Zindex(..) => 48,
            StyleAttr::GlobalZIndex(..) => 49,
            StyleAttr::ShadowColor(..) => 50,
            StyleAttr::ShadowOffset(..) => 51,
            StyleAttr::ShadowSpread(..) => 52,
            StyleAttr::ShadowBlur(..) => 53,
            StyleAttr::TextShadow(..) => 54,
            StyleAttr::Outline(..) => 55,
            StyleAttr::Delay(..) => 56,
            StyleAttr::Easing(..) => 57,
            StyleAttr::Atlas(..) => 58,
            StyleAttr::Duration(..) => 59,
            StyleAttr::Direction(..) => 60,
            StyleAttr::Iterations(..) => 61,
            StyleAttr::FPS(..) => 62,
            StyleAttr::Frames(..) => 63,
            StyleAttr::Pickable(..) => 64,
    }
}

/// The view of an override list.
pub open spec fn attrs_view(s: Seq<StyleAttr>) -> Seq<SpecStyleAttr> {
    s.map_values(|a: StyleAttr| a@)
}

/// Inserting into an override list replaces the first entry of the same
/// kind, or appends when the kind is new, so a list never carries two
/// directives for one field.
pub open spec fn spec_upsert(list: Seq<SpecStyleAttr>, a: SpecStyleAttr) -> Seq<SpecStyleAttr>
    decreases list.len(),
{
    if list.len() == 0 {
        seq![a]
    } else if spec_attr_kind(list[0]) == spec_attr_kind(a) {
        seq![a] + list.drop_first()
    } else {
        seq![list[0]] + spec_upsert(list.drop_first(), a)
    }
}

/// Replacing at the first matching index realizes [`spec_upsert`].
proof fn lemma_upsert_update(list: Seq<SpecStyleAttr>, a: SpecStyleAttr, i: int)
    requires
        0 <= i < list.len(),
        spec_attr_kind(list[i]) == spec_attr_kind(a),
        forall|k: int| 0 <= k < i ==> spec_attr_kind(#[trigger] list[k]) != spec_attr_kind(a),
    ensures
        spec_upsert(list, a) == list.update(i, a),
    decreases i,
{
    if i == 0 {
        assert(spec_upsert(list, a) =~= list.update(0, a));
    } else {
        lemma_upsert_update(list.drop_first(), a, i - 1);
        assert(list.drop_first().update(i - 1, a) =~= list.update(i, a).drop_first());
        assert(spec_upsert(list, a) =~= list.update(i, a));
    }
}

/// Appending when no kind matches realizes [`spec_upsert`].
proof fn lemma_upsert_push(list: Seq<SpecStyleAttr>, a: SpecStyleAttr)
    requires
        forall|k: int|
            0 <= k < list.len() ==> spec_attr_kind(#[trigger] list[k]) != spec_attr_kind(a),
    ensures
        spec_upsert(list, a) == list.push(a),
    decreases list.len(),
{
    if list.len() == 0 {
        assert(spec_upsert(list, a) =~= list.push(a));
    } else {
        lemma_upsert_push(list.drop_first(), a);
        assert(seq![list[0]] + list.drop_first().push(a) =~= list.push(a));
    }
}

/// Inserts a directive into an override list; the result is exactly
/// [`spec_upsert`].
fn upsert_attr(list: &mut Vec<StyleAttr>, a: StyleAttr)
    ensures
        attrs_view(final(list)@) == spec_upsert(attrs_view(old(list)@), a@),
{
    let kind = attr_kind(&a);
    proof {
        assert(kind as int == spec_attr_kind(a@));
    }
    let mut i: usize = 0;
    while i < list.len()
        invariant
            i <= list@.len(),
            list@ == old(list)@,
            kind as int == spec_attr_kind(a@),
            forall|k: int|
                0 <= k < i ==> spec_attr_kind(attrs_view(list@)[k]) != spec_attr_kind(a@),
        decreases list@.len() - i,
    {
        let ki = attr_kind(&list[i]);
        proof {
            assert(attrs_view(list@)[i as int] == list@[i as int]@);
            assert(ki as int == spec_attr_kind(attrs_view(list@)[i as int]));
        }
        if ki == kind {
            let ghost li = i as int;
            let ghost av = a@;
            let ghost old_view = attrs_view(list@);
            proof {
                assert(spec_attr_kind(old_view[li]) == spec_attr_kind(av));
            }
            list.set(i, a);
            proof {
                lemma_upsert_update(old_view, av, li);
                assert(attrs_view(list@) =~= old_view.update(li, av));
            }
            return ;
        }
        proof {
            assert forall|k: int|
                0 <= k < i + 1 implies spec_attr_kind(attrs_view(list@)[k]) != spec_attr_kind(
                a@,
            ) by {
                assert(attrs_view(list@)[k] == list@[k]@);
            }
        }
        i = i + 1;
    }
    let ghost av = a@;
    let ghost old_view = attrs_view(list@);
    list.push(a);
    proof {
        lemma_upsert_push(old_view, av);
        assert(attrs_view(list@) =~= old_view.push(av));
    }
}

/// The style state one node carries: the computed baseline and the
/// hover, pressed, and active override lists, each holding only plain
/// (non-modifier) style values, at most one per field.
pub struct HtmlStyle {
    pub computed: ComputedStyle,
    pub hover: Vec<StyleAttr>,
    pub pressed: Vec<StyleAttr>,
    pub active: Vec<StyleAttr>,
}

/// The mathematical value of an [`HtmlStyle`].
pub struct SpecHtmlStyle {
    pub computed: SpecComputedStyle,
    pub hover: Seq<SpecStyleAttr>,
    pub pressed: Seq<SpecStyleAttr>,
    pub active: Seq<SpecStyleAttr>,
}

impl View for HtmlStyle {
    type V = SpecHtmlStyle;

    open spec fn view(&self) -> SpecHtmlStyle {
        SpecHtmlStyle {
            computed: self.computed@,
            hover: attrs_view(self.hover@),
            pressed: attrs_view(self.pressed@),
            active: attrs_view(self.active@),
        }
    }
}

/// How one directive lands in the style state: a base directive writes
/// the computed baseline, a modifier directive upserts its payload into
/// the matching override list.
pub open spec fn spec_add_style_attr(h: SpecHtmlStyle, d: SpecStyleDirective) -> SpecHtmlStyle {
    match d {
        SpecStyleDirective::Base(a) => SpecHtmlStyle {
            computed: spec_apply_computed(h.computed, a),
            ..h
        },
        SpecStyleDirective::Hover(a) => SpecHtmlStyle { hover: spec_upsert(h.hover, a), ..h },
        SpecStyleDirective::Pressed(a) => SpecHtmlStyle {
            pressed: spec_upsert(h.pressed, a),
            ..h
        },
        SpecStyleDirective::Active(a) => SpecHtmlStyle { active: spec_upsert(h.active, a), ..h },
    }
}

/// A directive list folded into style state, first to last.
pub open spec fn spec_styles_of(ds: Seq<crate::style::SpecStyleDirective>) -> SpecHtmlStyle
    decreases ds.len(),
{
    if ds.len() == 0 {
        SpecHtmlStyle {
            computed: spec_default_computed(),
            hover: Seq::empty(),
            pressed: Seq::empty(),
            active: Seq::empty(),
        }
    } else {
        spec_add_style_attr(spec_styles_of(ds.drop_last()), ds.last())
    }
}

impl HtmlStyle {
    /// The default style state.
    pub fn new() -> (r: HtmlStyle)
        ensures
            r@ == spec_styles_of(Seq::empty()),
    {
        let r = HtmlStyle {
            computed: ComputedStyle::new(),
            hover: Vec::new(),
            pressed: Vec::new(),
            active: Vec::new(),
        };
        proof {
            assert(attrs_view(Seq::empty()) =~= Seq::<SpecStyleAttr>::empty());
        }
        r
    }

    /// Adds one parsed directive to the style state; the result is
    /// exactly [`spec_add_style_attr`].
    pub fn add_style_attr(&mut self, d: StyleDirective)
        ensures
            final(self)@ == spec_add_style_attr(old(self)@, d@),
    {
        match d {
            StyleDirective::Base(a) => apply_computed_attr(&mut self.computed, &a),
            StyleDirective::Hover(a) => upsert_attr(&mut self.hover, a),
            StyleDirective::Pressed(a) => upsert_attr(&mut self.pressed, a),
            StyleDirective::Active(a) => upsert_attr(&mut self.active, a),
        }
    }

    /// The style state of a node's parsed directive list.
    pub fn from_directives(ds: &Vec<StyleDirective>) -> (r: HtmlStyle)
        ensures
            r@ == spec_styles_of(crate::style::view_directives(ds@)),
    {
        let mut r = HtmlStyle::new();
        let mut i: usize = 0;
        while i < ds.len()
            invariant
                i <= ds@.len(),
                r@ == spec_styles_of(crate::style::view_directives(ds@.subrange(0, i as int))),
            decreases ds@.len() - i,
        {
            r.add_style_attr(ds[i].clone());
            proof {
                let pre = crate::style::view_directives(ds@.subrange(0, i as int));
                let post = crate::style::view_directives(ds@.subrange(0, i as int + 1));
                assert(post.drop_last() =~= pre);
                assert(post.last() == ds@[i as int]@);
            }
            i = i + 1;
        }
        proof {
            assert(ds@.subrange(0, ds@.len() as int) =~= ds@);
        }
        r
    }

    /// The final style of one tick: the baseline overwritten by hover,
    /// pressed, then active overrides at their ratios. The active ratio
    /// is binary: full when the node carries the active marker, zero
    /// otherwise.
    pub fn resolve(&self, hover_ratio: u32, press_ratio: u32, is_active: bool) -> (r:
        ComputedStyle)
        requires
            hover_ratio <= 1000,
            press_ratio <= 1000,
        ensures
            r@ == spec_resolve(self@, hover_ratio as int, press_ratio as int, is_active),
    {
        let mut cur = self.computed.clone();
        apply_override_list(&self.computed, &mut cur, &self.hover, hover_ratio);
        apply_override_list(&self.computed, &mut cur, &self.pressed, press_ratio);
        let active_ratio: u32 = if is_active {
            1000
        } else {
            0
        };
        apply_override_list(&self.computed, &mut cur, &self.active, active_ratio);
        cur
    }
}

/// One override list folded over the style, first to last.
pub open spec fn spec_apply_list(
    base: SpecComputedStyle,
    cur: SpecComputedStyle,
    list: Seq<SpecStyleAttr>,
    ratio: int,
) -> SpecComputedStyle
    decreases list.len(),
{
    if list.len() == 0 {
        cur
    } else {
        spec_apply_list(base, spec_apply_interpolated(base, cur, list[0], ratio), list.drop_first(), ratio)
    }
}

/// The final style of one tick, mathematically: baseline, then the three
/// override lists in hover, pressed, active order.
pub open spec fn spec_resolve(
    h: SpecHtmlStyle,
    hover_ratio: int,
    press_ratio: int,
    is_active: bool,
) -> SpecComputedStyle {
    let c1 = spec_apply_list(h.computed, h.computed, h.hover, hover_ratio);
    let c2 = spec_apply_list(h.computed, c1, h.pressed, press_ratio);
    spec_apply_list(
        h.computed,
        c2,
        h.active,
        if is_active {
            1000
        } else {
            0
        },
    )
}

/// Applies one override list in order; the result is exactly
/// [`spec_apply_list`].
#[verifier::rlimit(60)]
fn apply_override_list(
    base: &ComputedStyle,
    cur: &mut ComputedStyle,
    list: &Vec<StyleAttr>,
    ratio: u32,
)
    requires
        ratio <= 1000,
    ensures
        final(cur)@ == spec_apply_list(base@, old(cur)@, attrs_view(list@), ratio as int),
{
    proof {
        assert(attrs_view(list@).subrange(0, list@.len() as int) =~= attrs_view(list@));
    }
    let mut i: usize = 0;
    while i < list.len()
        invariant
            i <= list@.len(),
            ratio <= 1000,
            spec_apply_list(base@, old(cur)@, attrs_view(list@), ratio as int)
                == spec_apply_list(
                base@,
                cur@,
                attrs_view(list@).subrange(i as int, list@.len() as int),
                ratio as int,
            ),
        decreases list@.len() - i,
    {
        let ghost pre = attrs_view(list@).subrange(i as int, list@.len() as int);
        apply_interpolated(base, cur, &list[i], ratio);
        proof {
            assert(pre[0] == list@[i as int]@);
            assert(pre.drop_first() =~= attrs_view(list@).subrange(
                i as int + 1,
                list@.len() as int,
            ));
        }
        i = i + 1;
    }
    proof {
        assert(attrs_view(list@).subrange(list@.len() as int, list@.len() as int)
            =~= Seq::<SpecStyleAttr>::empty());
    }
}


/// A node's interaction classification for one tick, maintained by the
/// host input layer.
#[derive(Clone, Copy, Debug, PartialEq, Eq, Structural)]
pub enum Interaction {
    /// No pointer contact.
    Idle,
    Hovered,
    Pressed,
}

/// An interpolation timer for interaction transitions: elapsed time never
/// leaves `0 ..= max`, and `max` is at least ten milliseconds so a ratio
/// is always well defined.
#[derive(Clone, Copy, Debug, PartialEq, Eq, Structural)]
pub struct InteractionTimer {
    pub elapsed_ms: u32,
    pub max_ms: u32,
}

impl InteractionTimer {
    /// The timer invariant.
    pub open spec fn wf(self) -> bool {
        self.elapsed_ms <= self.max_ms && self.max_ms >= 10
    }

    /// A fresh timer over the given transition length; lengths under ten
    /// milliseconds are raised to ten.
    pub fn new(max_ms: u32) -> (r: InteractionTimer)
        ensures
            r.wf(),
            r.elapsed_ms == 0,
            max_ms >= 10 ==> r.max_ms == max_ms,
            max_ms < 10 ==> r.max_ms == 10,
    {
        InteractionTimer { elapsed_ms: 0, max_ms: if max_ms < 10 { 10 } else { max_ms } }
    }

    /// Advances toward the full transition, clamped at `max`.
    pub fn forward(&mut self, delta_ms: u32)
        requires
            old(self).wf(),
        ensures
            final(self).wf(),
            final(self).max_ms == old(self).max_ms,
            final(self).elapsed_ms as int == if old(self).elapsed_ms + delta_ms > old(self).max_ms {
                old(self).max_ms as int
            } else {
                old(self).elapsed_ms + delta_ms
            },
    {
        let sum = self.elapsed_ms as u64 + delta_ms as u64;
        if sum > self.max_ms as u64 {
            self.elapsed_ms = self.max_ms;
        } else {
            self.elapsed_ms = sum as u32;
        }
    }

    /// Retreats toward the start, clamped at zero.
    pub fn backward(&mut self, delta_ms: u32)
        requires
            old(self).wf(),
        ensures
            final(self).wf(),
            final(self).max_ms == old(self).max_ms,
            final(self).elapsed_ms as int == if old(self).elapsed_ms >= delta_ms {
                old(self).elapsed_ms - delta_ms
            } else {
                0
            },
    {
        if self.elapsed_ms >= delta_ms {
            self.elapsed_ms = self.elapsed_ms - delta_ms;
        } else {
            self.elapsed_ms = 0;
        }
    }

    /// The transition ratio in thousandths, always in `0 ..= 1000`.
    pub fn fraction(&self) -> (r: u32)
        requires
            self.wf(),
        ensures
            r as int == self.elapsed_ms as int * 1000 / self.max_ms as int,
            r <= 1000,
    {
        let r = ((self.elapsed_ms as u64 * 1000) / (self.max_ms as u64)) as u32;
        proof {
            assert(self.elapsed_ms as int * 1000 / self.max_ms as int <= 1000)
                by (nonlinear_arith)
                requires
                    self.elapsed_ms <= self.max_ms,
                    self.max_ms >= 10,
            ;
        }
        r
    }
}

/// The pressed-transition timer of one node.
#[derive(Clone, Copy, Debug, PartialEq, Eq, Structural)]
pub struct PressedTimer(pub InteractionTimer);

impl PressedTimer {
    pub fn new(max_ms: u32) -> (r: PressedTimer)
        ensures
            r.0.wf(),
            r.0.elapsed_ms == 0,
    {
        PressedTimer(InteractionTimer::new(max_ms))
    }
}

/// The hover-transition timer of one node.
#[derive(Clone, Copy, Debug, PartialEq, Eq, Structural)]
pub struct HoverTimer(pub InteractionTimer);

impl HoverTimer {
    pub fn new(max_ms: u32) -> (r: HoverTimer)
        ensures
            r.0.wf(),
            r.0.elapsed_ms == 0,
    {
        HoverTimer(InteractionTimer::new(max_ms))
    }
}

/// The elapsed time after moving a timer toward the full transition,
/// clamped at its length.
pub open spec fn spec_timer_forward(t: InteractionTimer, delta_ms: u32) -> int {
    if t.elapsed_ms + delta_ms > t.max_ms {
        t.max_ms as int
    } else {
        t.elapsed_ms + delta_ms
    }
}

/// The elapsed time after moving a timer toward the start, clamped at
/// zero.
pub open spec fn spec_timer_backward(t: InteractionTimer, delta_ms: u32) -> int {
    if t.elapsed_ms >= delta_ms {
        t.elapsed_ms - delta_ms
    } else {
        0
    }
}

/// One tick of the interaction timers under a classification: pressing
/// advances both, hovering advances hover and retreats pressed, and no
/// contact retreats both; every move is the exact clamped step of
/// [`spec_timer_forward`] / [`spec_timer_backward`] and the timer
/// lengths never change.
pub fn advance_timers(
    interaction: Interaction,
    hover: &mut HoverTimer,
    pressed: &mut PressedTimer,
    delta_ms: u32,
)
    requires
        old(hover).0.wf(),
        old(pressed).0.wf(),
    ensures
        final(hover).0.wf(),
        final(pressed).0.wf(),
        final(hover).0.max_ms == old(hover).0.max_ms,
        final(pressed).0.max_ms == old(pressed).0.max_ms,
        final(hover).0.elapsed_ms as int == (if interaction == Interaction::Idle {
            spec_timer_backward(old(hover).0, delta_ms)
        } else {
            spec_timer_forward(old(hover).0, delta_ms)
        }),
        final(pressed).0.elapsed_ms as int == (if interaction == Interaction::Pressed {
            spec_timer_forward(old(pressed).0, delta_ms)
        } else {
            spec_timer_backward(old(pressed).0, delta_ms)
        }),
{
    match interaction {
        Interaction::Pressed => {
            hover.0.forward(delta_ms);
            pressed.0.forward(delta_ms);
        },
        Interaction::Hovered => {
            hover.0.forward(delta_ms);
            pressed.0.backward(delta_ms);
        },
        Interaction::Idle => {
            hover.0.backward(delta_ms);
            pressed.0.backward(delta_ms);
        },
    }
}

} // verus!
