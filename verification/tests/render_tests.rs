use dxf2svg::bounds::{calculate_bounds, Bounds};
use dxf2svg::entity::{Entity, EntityKind, Point};
use dxf2svg::escape_xml_text;
use dxf2svg::geom::{is_angle_in_arc, large_arc_flag, sweep_flag};
use dxf2svg::numfmt::fmt_milli;
use dxf2svg::{dxf_to_svg, SvgOptions};

fn plain(kind: EntityKind) -> Entity {
    Entity { color_name: String::new(), layer: "0".to_string(), specific: kind }
}

const DEFAULT_DOC: &str = "<svg xmlns=\"http://www.w3.org/2000/svg\" viewBox=\"0 0 100 100\" xmlns:xlink=\"http://www.w3.org/1999/xlink\"></svg>";

#[test]
fn test_basic_entities() {
    let empty_svg = dxf_to_svg(
        &vec![],
        Some(SvgOptions {
            use_bounds: false,
            padding: 1000,
            background_color: "white".to_string(),
            stroke_width: 1000,
            default_color: "black".to_string(),
        }),
    );
    assert!(empty_svg.contains("viewBox=\"0 0 100 100\""));
    assert!(empty_svg.starts_with("<svg"));
    assert!(empty_svg.ends_with("</svg>"));

    let entities = vec![plain(EntityKind::Line {
        p1: Point { x: 0, y: 0 },
        p2: Point { x: 1000, y: 1000 },
    })];
    let result = dxf_to_svg(&entities, Some(SvgOptions::default()));
    assert!(result.contains("viewBox"));
    assert!(result.contains("<line"));
    assert!(result.contains("stroke=\"black\""));
}

#[test]
fn test_text_escaping() {
    assert_eq!(escape_xml_text("Test & <example>"), "Test &amp; &lt;example&gt;");
}

#[test]
fn test_escaping_all_five_characters() {
    assert_eq!(escape_xml_text("&<>\"'"), "&amp;&lt;&gt;&quot;&apos;");
    assert_eq!(escape_xml_text("plain"), "plain");
    assert_eq!(escape_xml_text(""), "");
}

#[test]
fn test_escaping_is_not_idempotent() {
    let once = escape_xml_text("Test & <example>");
    let twice = escape_xml_text(&once);
    assert_ne!(once, twice);
    assert_eq!(twice, "Test &amp;amp; &amp;lt;example&amp;gt;");
}

#[test]
fn test_empty_input_use_bounds_true_has_no_infinite_viewbox() {
    let svg = dxf_to_svg(&vec![], None);
    assert_eq!(svg, DEFAULT_DOC);
}

#[test]
fn test_empty_input_use_bounds_false_default_viewbox() {
    let svg = dxf_to_svg(
        &vec![],
        Some(SvgOptions { use_bounds: false, ..SvgOptions::default() }),
    );
    assert_eq!(svg, DEFAULT_DOC);
}

#[test]
fn test_line_element_values() {
    let entities = vec![plain(EntityKind::Line {
        p1: Point { x: 0, y: 0 },
        p2: Point { x: 1000, y: 1000 },
    })];
    let svg = dxf_to_svg(&entities, Some(SvgOptions::default()));
    assert!(svg.contains(
        "<line x1=\"0.000\" y1=\"0.000\" x2=\"1.000\" y2=\"1.000\" stroke=\"black\" stroke-width=\"1.000\" fill=\"none\" />"
    ));
}

#[test]
fn test_line_scaled_header_values() {
    let entities = vec![plain(EntityKind::Line {
        p1: Point { x: 0, y: 0 },
        p2: Point { x: 1000, y: 1000 },
    })];
    let svg = dxf_to_svg(&entities, Some(SvgOptions::default()));
    assert!(svg.contains("viewBox=\"0 0 1000 1000.000\""));
    assert!(svg.contains("<g transform=\"scale(833.333, -833.333) translate(0.100, -1.100)\">"));
    assert!(svg.contains(
        "<rect x=\"-0.100\" y=\"-1.100\" width=\"1.200\" height=\"1.200\" fill=\"white\"/>"
    ));
    assert!(svg.ends_with("</g></svg>"));
}

#[test]
fn test_arc_quarter_turn_flags() {
    assert_eq!(sweep_flag(0, 1571), 1);
    assert_eq!(large_arc_flag(0, 1571), 0);
    let entities = vec![plain(EntityKind::Arc {
        center: Point { x: 0, y: 0 },
        radius: 5000,
        start_angle: 0,
        end_angle: 1571,
        start_point: Point { x: 5000, y: 0 },
        end_point: Point { x: 0, y: 5000 },
    })];
    let svg = dxf_to_svg(&entities, Some(SvgOptions::default()));
    assert!(svg.contains("M 5.000,0.000 A 5.000,5.000 0 0 1 0.000,5.000"));
}

#[test]
fn test_arc_large_and_reversed_flags() {
    // More than half a turn: large-arc set, sweep set.
    assert_eq!(large_arc_flag(0, 4712), 1);
    assert_eq!(sweep_flag(0, 4712), 1);
    // End angle below start angle: sweep cleared.
    assert_eq!(sweep_flag(1571, 0), 0);
}

#[test]
fn test_is_angle_in_arc_wraps_zero() {
    // An arc from 3pi/2 to pi/2 crosses the zero direction.
    assert!(is_angle_in_arc(0, 4712, 1571));
    assert!(!is_angle_in_arc(3142, 4712, 1571));
}

#[test]
fn test_is_angle_in_arc_plain_span() {
    assert!(is_angle_in_arc(1571, 0, 3142));
    assert!(!is_angle_in_arc(4712, 0, 3142));
}

#[test]
fn test_bounds_padding() {
    let b = Bounds { nonempty: true, min_x: 0, min_y: 0, max_x: 10000, max_y: 10000 };
    let p = b.with_padding(1000);
    assert!(p.nonempty);
    assert_eq!(p.min_x, -10000);
    assert_eq!(p.min_y, -10000);
    assert_eq!(p.max_x, 20000);
    assert_eq!(p.max_y, 20000);
}

#[test]
fn test_bounds_padding_empty_stays_empty() {
    let b = Bounds::new();
    let p = b.with_padding(1000);
    assert!(!p.nonempty);
}

#[test]
fn test_calculate_bounds_empty_is_degenerate() {
    let b = calculate_bounds(&vec![]);
    assert!(!b.nonempty);
}

#[test]
fn test_arc_bounds_include_axis_extreme() {
    // An arc from -45 to 45 degrees crosses the zero direction, so its
    // extent reaches the full radius on the x axis, beyond the chord of
    // its endpoints.
    let entities = vec![plain(EntityKind::Arc {
        center: Point { x: 0, y: 0 },
        radius: 1000,
        start_angle: -785,
        end_angle: 785,
        start_point: Point { x: 707, y: -707 },
        end_point: Point { x: 707, y: 707 },
    })];
    let b = calculate_bounds(&entities);
    assert!(b.nonempty);
    assert_eq!(b.min_x, 707);
    assert_eq!(b.max_x, 1000);
    assert_eq!(b.min_y, -707);
    assert_eq!(b.max_y, 707);
}

#[test]
fn test_circle_bounds() {
    let entities = vec![plain(EntityKind::Circle {
        center: Point { x: 1000, y: 2000 },
        radius: 500,
    })];
    let b = calculate_bounds(&entities);
    assert_eq!(b.min_x, 500);
    assert_eq!(b.max_x, 1500);
    assert_eq!(b.min_y, 1500);
    assert_eq!(b.max_y, 2500);
}

#[test]
fn test_rendering_is_deterministic() {
    let entities = vec![
        plain(EntityKind::Circle { center: Point { x: 2000, y: 3000 }, radius: 1500 }),
        plain(EntityKind::Line { p1: Point { x: 0, y: 0 }, p2: Point { x: 1000, y: 1000 } }),
    ];
    let first = dxf_to_svg(&entities, Some(SvgOptions::default()));
    let second = dxf_to_svg(&entities, Some(SvgOptions::default()));
    assert_eq!(first, second);
}

#[test]
fn test_circle_and_point_elements() {
    let entities = vec![
        plain(EntityKind::Circle { center: Point { x: 0, y: 0 }, radius: 5000 }),
        plain(EntityKind::ModelPoint { location: Point { x: 1000, y: -2000 } }),
    ];
    let svg = dxf_to_svg(
        &entities,
        Some(SvgOptions { use_bounds: false, ..SvgOptions::default() }),
    );
    assert!(svg.contains(
        "<circle cx=\"0.000\" cy=\"0.000\" r=\"5.000\" stroke=\"black\" stroke-width=\"1.000\" />"
    ));
    assert!(svg.contains(
        "<circle cx=\"1.000\" cy=\"-2.000\" r=\"1\" stroke=\"black\" stroke-width=\"1.000\" />"
    ));
}

#[test]
fn test_entity_color_overrides_default() {
    let mut e = plain(EntityKind::Line {
        p1: Point { x: 0, y: 0 },
        p2: Point { x: 1000, y: 0 },
    });
    e.color_name = "red".to_string();
    let svg = dxf_to_svg(&vec![e], Some(SvgOptions::default()));
    assert!(svg.contains("stroke=\"red\""));
    assert!(!svg.contains("stroke=\"black\""));
}

#[test]
fn test_whitespace_color_falls_back_to_default() {
    let mut e = plain(EntityKind::Line {
        p1: Point { x: 0, y: 0 },
        p2: Point { x: 1000, y: 0 },
    });
    e.color_name = "  \t ".to_string();
    let svg = dxf_to_svg(&vec![e], Some(SvgOptions::default()));
    assert!(svg.contains("stroke=\"black\""));
}

#[test]
fn test_single_vertex_polylines_and_leader_are_skipped() {
    let entities = vec![
        plain(EntityKind::LwPolyline { vertices: vec![Point { x: 0, y: 0 }] }),
        plain(EntityKind::Polyline { vertices: vec![Point { x: 1000, y: 1000 }] }),
        plain(EntityKind::Leader { vertices: vec![Point { x: 2000, y: 2000 }] }),
    ];
    let svg = dxf_to_svg(&entities, None);
    assert!(!svg.contains("<polyline"));
    assert!(!svg.contains("<defs>"));
}

#[test]
fn test_single_vertex_leader_does_not_claim_marker() {
    // The lone-vertex leader is skipped, so the marker definition still
    // comes with the first leader that actually renders.
    let entities = vec![
        plain(EntityKind::Leader { vertices: vec![Point { x: 0, y: 0 }] }),
        plain(EntityKind::Leader {
            vertices: vec![Point { x: 0, y: 0 }, Point { x: 1000, y: 1000 }],
        }),
    ];
    let svg = dxf_to_svg(
        &entities,
        Some(SvgOptions { use_bounds: false, ..SvgOptions::default() }),
    );
    assert_eq!(svg.matches("<polyline").count(), 1);
    assert_eq!(svg.matches("<defs>").count(), 1);
}

#[test]
fn test_unicode_whitespace_color_falls_back_to_default() {
    // Vertical tab, form feed, next line, and no-break space are all
    // trimmed whitespace.
    for ws in ["\u{000B}\u{000C}", "\u{0085}", "\u{00A0}", "\u{2003}\u{3000}"] {
        let mut e = plain(EntityKind::Line {
            p1: Point { x: 0, y: 0 },
            p2: Point { x: 1000, y: 0 },
        });
        e.color_name = ws.to_string();
        let svg = dxf_to_svg(&vec![e], Some(SvgOptions::default()));
        assert!(svg.contains("stroke=\"black\""));
    }
    // A zero-width space is not White_Space, so it is a color of its own.
    let mut e = plain(EntityKind::Line {
        p1: Point { x: 0, y: 0 },
        p2: Point { x: 1000, y: 0 },
    });
    e.color_name = "\u{200B}".to_string();
    let svg = dxf_to_svg(&vec![e], Some(SvgOptions::default()));
    assert!(svg.contains("stroke=\"\u{200B}\""));
}

#[test]
fn test_polyline_points_and_empty_skip() {
    let entities = vec![
        plain(EntityKind::LwPolyline {
            vertices: vec![Point { x: 0, y: 0 }, Point { x: 2000, y: 3000 }],
        }),
        plain(EntityKind::Polyline { vertices: vec![] }),
    ];
    let svg = dxf_to_svg(
        &entities,
        Some(SvgOptions { use_bounds: false, ..SvgOptions::default() }),
    );
    assert!(svg.contains("<polyline points=\"0.000,0.000 2.000,3.000\""));
    assert_eq!(svg.matches("<polyline").count(), 1);
}

#[test]
fn test_spline_too_short_is_skipped() {
    let entities = vec![plain(EntityKind::Spline {
        control_points: vec![Point { x: 0, y: 0 }],
    })];
    let svg = dxf_to_svg(&entities, None);
    assert_eq!(svg, DEFAULT_DOC);
}

#[test]
fn test_spline_groups_of_three() {
    let entities = vec![plain(EntityKind::Spline {
        control_points: vec![
            Point { x: 0, y: 0 },
            Point { x: 1000, y: 0 },
            Point { x: 2000, y: 1000 },
            Point { x: 3000, y: 1000 },
            Point { x: 4000, y: 2000 },
        ],
    })];
    let svg = dxf_to_svg(
        &entities,
        Some(SvgOptions { use_bounds: false, ..SvgOptions::default() }),
    );
    // One full group of three; the trailing lone point starts no curve.
    assert!(svg.contains(
        "<path d=\"M 0.000,0.000 C 1.000,0.000 2.000,1.000 3.000,1.000\""
    ));
    assert_eq!(svg.matches(" C ").count(), 1);
}

#[test]
fn test_text_content_is_escaped() {
    let entities = vec![plain(EntityKind::Text {
        location: Point { x: 0, y: 0 },
        value: "a<b & c".to_string(),
    })];
    let svg = dxf_to_svg(
        &entities,
        Some(SvgOptions { use_bounds: false, ..SvgOptions::default() }),
    );
    assert!(svg.contains(">a&lt;b &amp; c</text>"));
}

#[test]
fn test_ellipse_axes_and_rotation() {
    let entities = vec![plain(EntityKind::Ellipse {
        center: Point { x: 0, y: 0 },
        major_len: 2000,
        minor_ratio: 500,
        rotation: 30000,
    })];
    let svg = dxf_to_svg(
        &entities,
        Some(SvgOptions { use_bounds: false, ..SvgOptions::default() }),
    );
    assert!(svg.contains(
        "<ellipse cx=\"0.000\" cy=\"0.000\" rx=\"2.000\" ry=\"1.000\" transform=\"rotate(30.000 0.000 0.000)\""
    ));
}

#[test]
fn test_leader_marker_defined_once() {
    let leader = || plain(EntityKind::Leader {
        vertices: vec![Point { x: 0, y: 0 }, Point { x: 1000, y: 1000 }],
    });
    let svg = dxf_to_svg(
        &vec![leader(), leader()],
        Some(SvgOptions { use_bounds: false, ..SvgOptions::default() }),
    );
    assert_eq!(svg.matches("marker-end=\"url(#arrowhead)\"").count(), 2);
    assert_eq!(svg.matches("<defs>").count(), 1);
    assert_eq!(svg.matches("id=\"arrowhead\"").count(), 1);
}

#[test]
fn test_helix_spiral_samples() {
    let entities = vec![plain(EntityKind::Helix {
        axis_base_point: Point { x: 0, y: 0 },
        start_point: Point { x: 1000, y: 0 },
        radius: 1000,
        number_of_turns: 1,
    })];
    let svg = dxf_to_svg(
        &entities,
        Some(SvgOptions { use_bounds: false, ..SvgOptions::default() }),
    );
    assert!(svg.contains("<path d=\"M 1.000,0.000 L "));
    // The final sample reaches the full radius on the x axis.
    assert!(svg.contains(" L 1.000,0.000\""));
    assert_eq!(svg.matches(" L ").count(), 16);
}

#[test]
fn test_unsupported_kind_is_skipped() {
    let entities = vec![plain(EntityKind::Unsupported)];
    let svg = dxf_to_svg(&entities, None);
    assert_eq!(svg, DEFAULT_DOC);
}

#[test]
fn test_insert_reference() {
    let entities = vec![plain(EntityKind::Insert {
        name: "block1".to_string(),
        location: Point { x: 1000, y: 2000 },
        x_scale: 1000,
        y_scale: 1000,
    })];
    let svg = dxf_to_svg(
        &entities,
        Some(SvgOptions { use_bounds: false, ..SvgOptions::default() }),
    );
    assert!(svg.contains(
        "<use href=\"#block1\" x=\"1.000\" y=\"2.000\" width=\"1.000\" height=\"1.000\" />"
    ));
}

#[test]
fn test_solid_corners() {
    let entities = vec![plain(EntityKind::Solid {
        first_corner: Point { x: 0, y: 0 },
        second_corner: Point { x: 1000, y: 0 },
        third_corner: Point { x: 1000, y: 1000 },
        fourth_corner: Point { x: 0, y: 1000 },
    })];
    let svg = dxf_to_svg(
        &entities,
        Some(SvgOptions { use_bounds: false, ..SvgOptions::default() }),
    );
    assert!(svg.contains(
        "<polygon points=\"0.000,0.000 1.000,0.000 1.000,1.000 0.000,1.000\""
    ));
}

#[test]
fn test_background_none_is_transparent() {
    let entities = vec![plain(EntityKind::Line {
        p1: Point { x: 0, y: 0 },
        p2: Point { x: 1000, y: 1000 },
    })];
    let svg = dxf_to_svg(
        &entities,
        Some(SvgOptions { background_color: "none".to_string(), ..SvgOptions::default() }),
    );
    assert!(!svg.contains("<rect"));
}

#[test]
fn test_single_point_bounds_fall_back_to_default_canvas() {
    // Zero-size bounds cannot be scaled; the default canvas is used instead.
    let entities = vec![plain(EntityKind::ModelPoint { location: Point { x: 5000, y: 5000 } })];
    let svg = dxf_to_svg(
        &entities,
        Some(SvgOptions { background_color: "none".to_string(), ..SvgOptions::default() }),
    );
    assert!(svg.contains("viewBox=\"0 0 100 100\""));
    assert!(!svg.contains("<g transform"));
}

#[test]
fn test_fmt_milli_values() {
    assert_eq!(fmt_milli(0), "0.000");
    assert_eq!(fmt_milli(1), "0.001");
    assert_eq!(fmt_milli(-1234), "-1.234");
    assert_eq!(fmt_milli(1000000), "1000.000");
    assert_eq!(fmt_milli(-999), "-0.999");
}

#[test]
fn test_rotated_dimension_line_and_text() {
    let entities = vec![plain(EntityKind::RotatedDimension {
        definition_point_2: Point { x: 0, y: 0 },
        definition_point_3: Point { x: 10000, y: 0 },
        insertion_point: Point { x: 5000, y: 1000 },
        text: "10".to_string(),
    })];
    let svg = dxf_to_svg(
        &entities,
        Some(SvgOptions { use_bounds: false, ..SvgOptions::default() }),
    );
    assert!(svg.contains("<line x1=\"0.000\" y1=\"0.000\" x2=\"10.000\" y2=\"0.000\""));
    assert!(svg.contains(" font-size=\"12\" text-anchor=\"middle\">10</text>"));
}
