//! A declarative UI markup library: a recursive-descent parser that turns
//! markup bytes into a typed template, a template compiler that instantiates
//! runtime node trees and resolves scoped property expressions, a style
//! engine that merges a baseline style with timed hover/pressed/active
//! overlays by per-field interpolation, and a sprite-frame animation state
//! machine.
//!
//! All lengths, colors and ratios are modelled with exact fixed-point
//! integers (thousandths), so every computation here is verified; the host
//! renderer converts to its own float types at the boundary.

pub mod animation;
pub mod attrs;
pub mod compile;
pub mod keywords;
pub mod parse;
pub mod props;
pub mod runtime;
pub mod scan;
pub mod styles;
pub mod template;
pub mod style;
pub mod util;
pub mod values;
