//! Behavioral tests for the markup parser and the style value grammars.

use hui_core::attrs::{attribute_from_parts, AttrOutcome};
use hui_core::parse::parse_template;
use hui_core::scan::is_hex_digit;
use hui_core::style::{
    Atlas, GridPlacement, GridTrack, Num, RepeatedGridTrack, StyleAttr, StyleDirective, UVec2,
    UiColor, UiRect, Val,
};
use hui_core::template::{Attribute, NodeType, ParseErrorKind};
use hui_core::values::{
    parse_atlas, parse_border_rect, parse_color, parse_delay_ms, parse_frames,
    parse_grid_placement, parse_i64, parse_repeated_tracks, parse_tracks, parse_ui_rect, parse_val,
};

fn px(units: i64) -> Val {
    Val::Px(Num { milli: units * 1000 })
}

fn pct(units: i64) -> Val {
    Val::Percent(Num { milli: units * 1000 })
}

#[test]
fn val_units() {
    assert_eq!(parse_val(b"20px"), Some(px(20)));
    assert_eq!(parse_val(b"20%"), Some(pct(20)));
    assert_eq!(parse_val(b"auto"), Some(Val::Auto));
    assert_eq!(parse_val(b"0"), Some(px(0)));
    assert_eq!(parse_val(b"20vw"), Some(Val::Vw(Num { milli: 20000 })));
    assert_eq!(parse_val(b"20vh"), Some(Val::Vh(Num { milli: 20000 })));
    assert_eq!(parse_val(b"20vmin"), Some(Val::VMin(Num { milli: 20000 })));
    assert_eq!(parse_val(b"20vmax"), Some(Val::VMax(Num { milli: 20000 })));
    assert_eq!(parse_val(b"  12.5px "), Some(Val::Px(Num { milli: 12500 })));
    assert_eq!(parse_val(b"-3px"), Some(px(-3)));
}

#[test]
fn val_rejects() {
    assert_eq!(parse_val(b"20"), None);
    assert_eq!(parse_val(b"px"), None);
    assert_eq!(parse_val(b""), None);
    assert_eq!(parse_val(b"20px 20px"), None);
    assert_eq!(parse_val(b"20qq"), None);
}

#[test]
fn color_forms_agree_on_white() {
    let white = UiColor { r: 255, g: 255, b: 255, a: 255 };
    assert_eq!(parse_color(b"#FFF"), Some(white));
    assert_eq!(parse_color(b"#FFFF"), Some(white));
    assert_eq!(parse_color(b"#FFFFFF"), Some(white));
    assert_eq!(parse_color(b"#FFFFFFFF"), Some(white));
    assert_eq!(parse_color(b"rgb(1,1,1)"), Some(white));
    assert_eq!(parse_color(b"rgba(1,1,1,1)"), Some(white));
}

#[test]
fn color_channels_and_clamping() {
    assert_eq!(
        parse_color(b"#80ff00"),
        Some(UiColor { r: 128, g: 255, b: 0, a: 255 })
    );
    assert_eq!(
        parse_color(b"#1234"),
        Some(UiColor { r: 0x11, g: 0x22, b: 0x33, a: 0x44 })
    );
    // components beyond one clamp to full, negatives to zero
    assert_eq!(
        parse_color(b"rgb(2, -1, 0.5)"),
        Some(UiColor { r: 255, g: 0, b: 127, a: 255 })
    );
    assert_eq!(parse_color(b"#GGG"), None);
    assert_eq!(parse_color(b"#FFFFF"), None);
    assert_eq!(parse_color(b"rgb(1,1)"), None);
}

#[test]
fn rect_arities() {
    assert_eq!(
        parse_ui_rect(b"20px"),
        Some(UiRect { left: px(20), right: px(20), top: px(20), bottom: px(20) })
    );
    assert_eq!(
        parse_ui_rect(b"20px 10px"),
        Some(UiRect { left: px(20), right: px(20), top: px(10), bottom: px(10) })
    );
    assert_eq!(
        parse_ui_rect(b"5px 10px 5% 6px"),
        Some(UiRect { left: px(6), right: px(10), top: px(5), bottom: pct(5) })
    );
    assert_eq!(parse_ui_rect(b"1px 2px 3px"), None);
}

#[test]
fn border_rect_is_pixel_only() {
    let b = parse_border_rect(b"1px 2px 3px 4px").unwrap();
    assert_eq!(b.top, Num { milli: 1000 });
    assert_eq!(b.right, Num { milli: 2000 });
    assert_eq!(b.bottom, Num { milli: 3000 });
    assert_eq!(b.left, Num { milli: 4000 });
    assert_eq!(parse_border_rect(b"10vmax 10%"), None);
    assert_eq!(parse_border_rect(b"100vw"), None);
}

#[test]
fn grid_placements() {
    assert_eq!(parse_grid_placement(b"auto"), Some(GridPlacement::Auto));
    assert_eq!(parse_grid_placement(b"span( 55  )"), Some(GridPlacement::Span(55)));
    assert_eq!(
        parse_grid_placement(b"end_span(5,50)"),
        Some(GridPlacement::EndSpan(5, 50))
    );
    assert_eq!(
        parse_grid_placement(b"start_span(-5, 5)"),
        Some(GridPlacement::StartSpan(-5, 5))
    );
    assert_eq!(parse_grid_placement(b"sideways(1)"), None);
}

#[test]
fn grid_tracks() {
    assert_eq!(
        parse_tracks(b"min max auto"),
        Some(vec![GridTrack::MinContent, GridTrack::MaxContent, GridTrack::Auto])
    );
    assert_eq!(
        parse_tracks(b"50% auto   8fr   "),
        Some(vec![
            GridTrack::Percent(Num { milli: 50000 }),
            GridTrack::Auto,
            GridTrack::Fr(Num { milli: 8000 }),
        ])
    );
    assert_eq!(parse_tracks(b""), Some(vec![]));
    assert_eq!(parse_tracks(b"50zz"), None);
}

#[test]
fn repeated_grid_tracks() {
    assert_eq!(
        parse_repeated_tracks(b"(4, 8flex)(1, 50px)"),
        Some(vec![
            RepeatedGridTrack { repeat: 4, track: GridTrack::Flex(Num { milli: 8000 }) },
            RepeatedGridTrack { repeat: 1, track: GridTrack::Px(Num { milli: 50000 }) },
        ])
    );
    assert_eq!(
        parse_repeated_tracks(b"(1, auto)"),
        Some(vec![RepeatedGridTrack { repeat: 1, track: GridTrack::Auto }])
    );
}

#[test]
fn atlas_forms() {
    assert_eq!(
        parse_atlas(b"(32, 32) 1 7 p(0, 0) o(0, 0)"),
        Some(Atlas {
            size: UVec2 { x: 32, y: 32 },
            columns: 1,
            rows: 7,
            padding: Some(UVec2 { x: 0, y: 0 }),
            offset: Some(UVec2 { x: 0, y: 0 }),
        })
    );
    assert_eq!(
        parse_atlas(b"(8,16) 4 1"),
        Some(Atlas {
            size: UVec2 { x: 8, y: 16 },
            columns: 4,
            rows: 1,
            padding: None,
            offset: None,
        })
    );
    assert_eq!(parse_atlas(b"(8,16)"), None);
}

#[test]
fn delays_in_milliseconds() {
    assert_eq!(parse_delay_ms(b"100ms"), Some(100));
    assert_eq!(parse_delay_ms(b"3s"), Some(3000));
    assert_eq!(parse_delay_ms(b"1.5"), Some(1500));
    assert_eq!(parse_delay_ms(b"-2s"), Some(0));
    assert_eq!(parse_delay_ms(b"2h"), None);
}

#[test]
fn whole_numbers() {
    assert_eq!(parse_i64(b"-1"), Some(-1));
    assert_eq!(parse_i64(b"42"), Some(42));
    assert_eq!(parse_i64(b"1.5"), None);
}

#[test]
fn frame_lists_drop_bad_entries() {
    assert_eq!(parse_frames(b"0,1,2"), vec![0, 1, 2]);
    assert_eq!(parse_frames(b" 0 , x , 2 "), vec![0, 2]);
    assert_eq!(parse_frames(b""), Vec::<i64>::new());
}

#[test]
fn hex_digit_class() {
    assert!(is_hex_digit(b'0'));
    assert!(is_hex_digit(b'a'));
    assert!(is_hex_digit(b'F'));
    assert!(!is_hex_digit(b'g'));
}

#[test]
fn single_node_document_with_background() {
    let t = parse_template(b"<node background=\"#FFFFFF\"/>").unwrap();
    assert_eq!(t.root.len(), 1);
    let root = &t.nodes[t.root[0]];
    assert_eq!(root.node_type, NodeType::Node);
    let white = UiColor { r: 255, g: 255, b: 255, a: 255 };
    assert!(root
        .styles
        .iter()
        .any(|d| *d == StyleDirective::Base(StyleAttr::Background(white))));
}

#[test]
fn template_wrapper_roots_and_reserved_elements() {
    let doc = b"<template>\n  <name>menu</name>\n  <property name=\"primary\">#FF0000</property>\n  <node padding=\"10px\"><text>hi</text></node>\n</template>";
    let t = parse_template(doc).unwrap();
    assert_eq!(t.name.as_deref(), Some(&b"menu"[..]));
    assert_eq!(t.root.len(), 1);
    let v = t.properties.get(b"primary").unwrap();
    assert_eq!(v.as_slice(), b"#FF0000");
    let root = &t.nodes[t.root[0]];
    assert_eq!(root.children.len(), 1);
    let text = &t.nodes[root.children[0]];
    assert_eq!(text.node_type, NodeType::Text);
    let ci = text.content_index.unwrap();
    assert_eq!(t.content[ci].as_slice(), b"hi");
}

#[test]
fn comments_are_trivia() {
    let t = parse_template(b"   <!-- hello <tag/> world -->\n<node/>").unwrap();
    assert_eq!(t.root.len(), 1);
    let t2 = parse_template(b"<node><!-- between --><text>x</text></node>").unwrap();
    assert_eq!(t2.nodes[t2.root[0]].children.len(), 1);
}

#[test]
fn processing_instruction_header() {
    let t = parse_template(b"<?xml version=\"1.0\"?><node/>").unwrap();
    assert_eq!(t.root.len(), 1);
}

#[test]
fn unclosed_tag_is_fatal() {
    let e = match parse_template(b"<node><text>x</text></nod>") {
        Err(e) => e,
        Ok(_) => panic!("a mismatched closing tag must be fatal"),
    };
    assert_eq!(e.kind, ParseErrorKind::UnclosedTag);
}

#[test]
fn unknown_style_is_fatal_outside_custom_elements() {
    let e = match parse_template(b"<node sparkle=\"much\"/>") {
        Err(e) => e,
        Ok(_) => panic!("an unknown style name must be fatal"),
    };
    assert_eq!(e.kind, ParseErrorKind::UnknownStyle);
}

#[test]
fn bad_style_value_is_fatal() {
    let e = match parse_template(b"<node width=\"abc\"/>") {
        Err(e) => e,
        Ok(_) => panic!("a rejected style value must be fatal"),
    };
    assert_eq!(e.kind, ParseErrorKind::BadStyleValue);
}

#[test]
fn custom_elements_take_unknown_attributes_as_defaults() {
    let t = parse_template(b"<gauge level=\"0.5\" width=\"10px\"/>").unwrap();
    let root = &t.nodes[t.root[0]];
    assert_eq!(root.node_type, NodeType::Custom(b"gauge".to_vec()));
    let v = root.defs.get(b"level").unwrap();
    assert_eq!(v.as_slice(), b"0.5");
    assert!(root
        .styles
        .iter()
        .any(|d| *d == StyleDirective::Base(StyleAttr::Width(px(10)))));
}

#[test]
fn structural_attributes_and_listeners() {
    let doc = b"<node id=\"a\" target=\"b\" watch=\"a\" on_press=\"f,g\"><image src=\"img.png\" id=\"b\"/></node>";
    let t = parse_template(doc).unwrap();
    let root = &t.nodes[t.root[0]];
    assert_eq!(root.id.as_deref(), Some(&b"a"[..]));
    assert_eq!(root.target.as_deref(), Some(&b"b"[..]));
    assert_eq!(root.watch.as_deref(), Some(&b"a"[..]));
    assert_eq!(root.event_listener.len(), 1);
    assert_eq!(root.event_listener[0].handlers.len(), 2);
    let img = &t.nodes[root.children[0]];
    assert_eq!(img.node_type, NodeType::Image);
    assert_eq!(img.src.as_deref(), Some(&b"img.png"[..]));
}

#[test]
fn expression_placeholders_take_priority() {
    let t = parse_template(b"<node width=\"{ w }\"/>").unwrap();
    let root = &t.nodes[t.root[0]];
    assert_eq!(root.uncompiled.len(), 1);
    assert_eq!(root.uncompiled[0].ident.as_slice(), b"width");
    assert_eq!(root.uncompiled[0].key.as_slice(), b"w");
    assert!(root.styles.is_empty());
}

#[test]
fn interaction_prefixes_wrap_directives() {
    let t = parse_template(b"<node hover:width=\"10%\" pressed:height=\"4px\" active:background=\"#000\"/>")
        .unwrap();
    let root = &t.nodes[t.root[0]];
    assert!(root
        .styles
        .iter()
        .any(|d| *d == StyleDirective::Hover(StyleAttr::Width(pct(10)))));
    assert!(root
        .styles
        .iter()
        .any(|d| *d == StyleDirective::Pressed(StyleAttr::Height(px(4)))));
    assert!(root.styles.iter().any(|d| matches!(
        d,
        StyleDirective::Active(StyleAttr::Background(_))
    )));
}

#[test]
fn tag_attributes_are_free_form() {
    let out = attribute_from_parts(Some(b"tag"), b"value", b"42", false);
    match out {
        AttrOutcome::Accepted(Attribute::Tag(k, v)) => {
            assert_eq!(k.as_slice(), b"value");
            assert_eq!(v.as_slice(), b"42");
        }
        _ => panic!("tag attribute should be accepted"),
    }
}
