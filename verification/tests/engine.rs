//! Behavioral tests for the style engine, the compiler passes, the
//! instantiation with hot reload, and the animation state machine.

use hui_core::animation::{ActiveAnimation, AnimationConfig};
use hui_core::compile::{compile_content, compile_expression, compile_node, is_templated};
use hui_core::parse::parse_template;
use hui_core::props::TemplateProperties;
use hui_core::runtime::{build_tree, collect_slotted, hotreload};
use hui_core::style::{AnimationDirection, Num, StyleAttr, StyleDirective, UiColor, Val};
use hui_core::styles::{
    advance_timers, HoverTimer, HtmlStyle, Interaction, InteractionTimer, PressedTimer,
};
use hui_core::template::AttrTokens;

fn px(units: i64) -> Val {
    Val::Px(Num { milli: units * 1000 })
}

fn props(pairs: &[(&[u8], &[u8])]) -> TemplateProperties {
    let mut m = TemplateProperties::new();
    for (k, v) in pairs {
        m.set(k.to_vec(), v.to_vec());
    }
    m
}

#[test]
fn baseline_directives_write_computed_fields() {
    let mut style = HtmlStyle::new();
    style.add_style_attr(StyleDirective::Base(StyleAttr::Width(px(20))));
    style.add_style_attr(StyleDirective::Base(StyleAttr::FontSize(Num { milli: 9000 })));
    assert_eq!(style.computed.width, px(20));
    assert_eq!(style.computed.font_size, Num { milli: 9000 });
}

#[test]
fn override_lists_keep_one_directive_per_field() {
    let mut style = HtmlStyle::new();
    style.add_style_attr(StyleDirective::Hover(StyleAttr::Width(px(10))));
    style.add_style_attr(StyleDirective::Hover(StyleAttr::Height(px(5))));
    style.add_style_attr(StyleDirective::Hover(StyleAttr::Width(px(30))));
    assert_eq!(style.hover.len(), 2);
    assert_eq!(style.hover[0], StyleAttr::Width(px(30)));
    assert_eq!(style.hover[1], StyleAttr::Height(px(5)));
}

#[test]
fn resolve_interpolates_matching_units() {
    let mut style = HtmlStyle::new();
    style.add_style_attr(StyleDirective::Base(StyleAttr::Width(px(10))));
    style.add_style_attr(StyleDirective::Hover(StyleAttr::Width(px(20))));
    let at_zero = style.resolve(0, 0, false);
    assert_eq!(at_zero.width, px(10));
    let halfway = style.resolve(500, 0, false);
    assert_eq!(halfway.width, px(15));
    let at_full = style.resolve(1000, 0, false);
    assert_eq!(at_full.width, px(20));
}

#[test]
fn resolve_skips_mismatched_units() {
    let mut style = HtmlStyle::new();
    style.add_style_attr(StyleDirective::Base(StyleAttr::Width(px(10))));
    style.add_style_attr(StyleDirective::Hover(StyleAttr::Width(Val::Percent(Num {
        milli: 50000,
    }))));
    let halfway = style.resolve(500, 0, false);
    assert_eq!(halfway.width, px(10));
}

#[test]
fn resolve_merges_in_hover_pressed_active_order() {
    let mut style = HtmlStyle::new();
    style.add_style_attr(StyleDirective::Base(StyleAttr::Width(px(10))));
    style.add_style_attr(StyleDirective::Hover(StyleAttr::Width(px(20))));
    style.add_style_attr(StyleDirective::Pressed(StyleAttr::Width(px(40))));
    // both transitions complete: pressed wins because it merges later
    let r = style.resolve(1000, 1000, false);
    assert_eq!(r.width, px(40));
}

#[test]
fn active_overrides_are_binary() {
    let white = UiColor { r: 255, g: 255, b: 255, a: 255 };
    let mut style = HtmlStyle::new();
    style.add_style_attr(StyleDirective::Base(StyleAttr::Background(UiColor {
        r: 0,
        g: 0,
        b: 0,
        a: 255,
    })));
    style.add_style_attr(StyleDirective::Active(StyleAttr::Background(white)));
    let idle = style.resolve(0, 0, false);
    assert_eq!(idle.background, UiColor { r: 0, g: 0, b: 0, a: 255 });
    let active = style.resolve(0, 0, true);
    assert_eq!(active.background, white);
}

#[test]
fn interaction_timers_clamp_and_advance() {
    let mut t = InteractionTimer::new(100);
    t.forward(40);
    assert_eq!(t.elapsed_ms, 40);
    assert_eq!(t.fraction(), 400);
    t.forward(1000);
    assert_eq!(t.elapsed_ms, 100);
    assert_eq!(t.fraction(), 1000);
    t.backward(30);
    assert_eq!(t.elapsed_ms, 70);
    t.backward(1000);
    assert_eq!(t.elapsed_ms, 0);
}

#[test]
fn minimum_timer_length_avoids_degenerate_ratios() {
    let t = InteractionTimer::new(0);
    assert_eq!(t.max_ms, 10);
}

#[test]
fn classification_drives_both_timers() {
    let mut hover = HoverTimer::new(100);
    let mut pressed = PressedTimer::new(100);
    advance_timers(Interaction::Pressed, &mut hover, &mut pressed, 50);
    assert_eq!((hover.0.elapsed_ms, pressed.0.elapsed_ms), (50, 50));
    advance_timers(Interaction::Hovered, &mut hover, &mut pressed, 20);
    assert_eq!((hover.0.elapsed_ms, pressed.0.elapsed_ms), (70, 30));
    advance_timers(Interaction::Idle, &mut hover, &mut pressed, 30);
    assert_eq!((hover.0.elapsed_ms, pressed.0.elapsed_ms), (40, 0));
}

#[test]
fn content_substitution_replaces_each_placeholder_once() {
    let m = props(&[(b"who", b"world"), (b"x", b"1")]);
    assert_eq!(compile_content(b"hello { who }!", &m), b"hello world!".to_vec());
    assert_eq!(compile_content(b"{x}+{x}={missing}", &m), b"1+1=".to_vec());
    assert_eq!(compile_content(b"plain", &m), b"plain".to_vec());
    assert_eq!(compile_content(b"open { only", &m), b"open { only".to_vec());
}

#[test]
fn templated_text_detection() {
    assert!(is_templated(b"count: {n}"));
    assert!(!is_templated(b"count: n"));
    assert!(!is_templated(b"empty {} braces"));
}

#[test]
fn scope_resolution_feeds_the_style_engine() {
    // a scope owner binds x; the child's width expression resolves
    // against it and the parsed style lands in the computed width
    let scope = props(&[(b"x", b"10px")]);
    let tokens = AttrTokens { prefix: None, ident: b"width".to_vec(), key: b"x".to_vec() };
    let mut style = HtmlStyle::new();
    let mut tags = TemplateProperties::new();
    let mut listeners = Vec::new();
    let exprs = vec![tokens];
    compile_node(&exprs, &scope, &mut style, &mut tags, &mut listeners);
    assert_eq!(style.computed.width, px(10));
}

#[test]
fn scope_value_rejected_by_the_field_grammar_stays_inert() {
    // a bare number is not a length, so the width keeps its default and
    // the pass reports the expression instead of failing
    let scope = props(&[(b"x", b"1")]);
    let tokens = AttrTokens { prefix: None, ident: b"width".to_vec(), key: b"x".to_vec() };
    let mut style = HtmlStyle::new();
    let mut tags = TemplateProperties::new();
    let mut listeners = Vec::new();
    let exprs = vec![tokens];
    let report = compile_node(&exprs, &scope, &mut style, &mut tags, &mut listeners);
    assert_eq!(style.computed.width, Val::Auto);
    assert_eq!(report.not_dynamic, 1);
}

#[test]
fn unresolved_expressions_stay_inert() {
    let scope = props(&[]);
    let tokens = AttrTokens { prefix: None, ident: b"width".to_vec(), key: b"x".to_vec() };
    assert!(compile_expression(&tokens, &scope).is_none());
}

#[test]
fn slot_receives_attached_children() {
    let t = parse_template(b"<node><slot/></node>").unwrap();
    let attached = vec![10u64, 20, 30];
    let tree = build_tree(&t, &attached);
    assert_eq!(collect_slotted(&tree), vec![10, 20, 30]);
}

#[test]
fn hot_reload_reparents_exactly_the_slotted_children() {
    let t1 = parse_template(b"<node><slot/></node>").unwrap();
    let tree1 = build_tree(&t1, &vec![7u64, 8, 9]);
    // the template changes shape but keeps a slot
    let t2 = parse_template(b"<node padding=\"4px\"><node><slot/></node></node>").unwrap();
    let tree2 = hotreload(&t2, &tree1);
    assert_eq!(collect_slotted(&tree2), vec![7, 8, 9]);
    // reloading again still neither duplicates nor loses children
    let tree3 = hotreload(&t2, &tree2);
    assert_eq!(collect_slotted(&tree3), vec![7, 8, 9]);
}

#[test]
fn reload_without_slot_drops_children() {
    let t1 = parse_template(b"<node><slot/></node>").unwrap();
    let tree1 = build_tree(&t1, &vec![1u64]);
    let t2 = parse_template(b"<node/>").unwrap();
    let tree2 = hotreload(&t2, &tree1);
    assert_eq!(collect_slotted(&tree2), Vec::<u64>::new());
}

#[test]
fn scopes_point_to_the_nearest_owner() {
    let t = parse_template(b"<node><text>t</text><gauge level=\"1\"><text>u</text></gauge></node>")
        .unwrap();
    let tree = build_tree(&t, &vec![]);
    let root = t.root[0];
    let plain_text = t.nodes[root].children[0];
    let gauge = t.nodes[root].children[1];
    let inner_text = t.nodes[gauge].children[0];
    assert_eq!(tree.nodes[root].scope, root);
    assert_eq!(tree.nodes[plain_text].scope, root);
    assert_eq!(tree.nodes[gauge].scope, gauge);
    assert_eq!(tree.nodes[inner_text].scope, gauge);
    assert!(tree.nodes[gauge].properties.is_some());
    assert!(tree.nodes[plain_text].properties.is_none());
}

#[test]
fn alternate_animation_flips_without_repeating_the_boundary() {
    let cfg = AnimationConfig {
        frame_count: 4,
        configured: AnimationDirection::AlternateForward,
        duration_ms: 0,
    };
    let mut a = ActiveAnimation::new(&cfg, 1, 1);
    assert_eq!(a.frame, 0);
    assert_eq!(a.direction, AnimationDirection::Forward);
    let mut visited = vec![a.frame];
    for _ in 0..3 {
        a.tick(&cfg, false, 1000);
        visited.push(a.frame);
    }
    assert_eq!(visited, vec![0, 1, 2, 3]);
    // at the last frame the run flips and steps inward, consuming the
    // one iteration
    a.tick(&cfg, false, 1000);
    assert_eq!(a.direction, AnimationDirection::Reverse);
    assert_eq!(a.frame, 2);
    assert_eq!(a.iterations, 0);
    // frozen: the last frame holds forever
    for _ in 0..5 {
        a.tick(&cfg, false, 1000);
        assert_eq!(a.frame, 2);
    }
}

#[test]
fn unbounded_iterations_never_stop() {
    let cfg = AnimationConfig {
        frame_count: 3,
        configured: AnimationDirection::Forward,
        duration_ms: 0,
    };
    let mut a = ActiveAnimation::new(&cfg, -1, 1);
    let mut changes = 0u32;
    let mut last = a.frame;
    for _ in 0..1000 {
        a.tick(&cfg, false, 1000);
        assert!(a.iterations < 0);
        if a.frame != last {
            changes += 1;
        }
        last = a.frame;
    }
    assert!(changes >= 600);
}

#[test]
fn duration_budget_freezes_the_frame() {
    let cfg = AnimationConfig {
        frame_count: 4,
        configured: AnimationDirection::Forward,
        duration_ms: 2500,
    };
    let mut a = ActiveAnimation::new(&cfg, -1, 1);
    a.tick(&cfg, false, 1000);
    a.tick(&cfg, false, 1000);
    let held = a.frame;
    for _ in 0..5 {
        a.tick(&cfg, false, 1000);
        assert_eq!(a.frame, held);
    }
}

#[test]
fn forward_animation_wraps_and_counts_iterations() {
    let cfg = AnimationConfig {
        frame_count: 3,
        configured: AnimationDirection::Forward,
        duration_ms: 0,
    };
    let mut a = ActiveAnimation::new(&cfg, 2, 1);
    let mut seq = vec![a.frame];
    for _ in 0..5 {
        a.tick(&cfg, false, 1000);
        seq.push(a.frame);
    }
    // 0 1 2 wrap-to-0 1 2; the second boundary exhausts the budget
    assert_eq!(seq, vec![0, 1, 2, 0, 1, 2]);
    a.tick(&cfg, false, 1000);
    assert_eq!(a.iterations, 0);
}
