//! The markup fragment each entity contributes to the document: one SVG
//! element per supported, non-degenerate entity, with the effective stroke
//! style, or nothing for a skipped entity.

use vstd::prelude::*;
use crate::entity::{COORD_MAX, Entity, EntityKind, Point, entity_ok};
use crate::escape::{escape_xml_text, spec_escape};
use crate::geom::{
    div1000, div1000_exec, div_trunc, div_trunc_exec, large_arc_flag, lemma_div1000_in_range,
    lemma_div_trunc_in_range, lemma_mul_bound, spec_large_arc, spec_sweep, sweep_flag,
};
use crate::numfmt::{fmt_milli, spec_milli};
use crate::options::{OptView, SvgOptions, opt_ok};

verus! {

/// The characters a color name is trimmed of: the Unicode White_Space
/// set, as `str::trim` uses it.
pub open spec fn spec_is_space(c: char) -> bool {
    let u = c as u32;
    u == 0x9 || u == 0xA || u == 0xB || u == 0xC || u == 0xD || u == 0x20 || u == 0x85 || u == 0xA0
        || u == 0x1680 || (0x2000 <= u && u <= 0x200A) || u == 0x2028 || u == 0x2029 || u == 0x202F
        || u == 0x205F || u == 0x3000
}

/// A string that is empty or all whitespace.
pub open spec fn spec_is_blank(s: Seq<char>) -> bool {
    forall|i: int| 0 <= i < s.len() ==> spec_is_space(#[trigger] s[i])
}

/// The effective stroke color of an entity: its own color name when that
/// is not blank, else the configured default color.
pub open spec fn spec_color(e: Entity, o: OptView) -> Seq<char> {
    if spec_is_blank(e.color_name@) {
        o.default_color
    } else {
        e.color_name@
    }
}

/// The stroke style attributes shared by every element of one entity.
pub open spec fn spec_stroke_attr(e: Entity, o: OptView) -> Seq<char> {
    "stroke=\""@ + spec_color(e, o) + "\" stroke-width=\""@ + spec_milli(o.stroke_width) + "\""@
}

/// A coordinate pair, comma separated.
pub open spec fn spec_point_pair(p: Point) -> Seq<char> {
    spec_milli(p.x as int) + ","@ + spec_milli(p.y as int)
}

/// The space-separated coordinate pairs of the vertices from index `i` on,
/// each with its leading space.
pub open spec fn spec_points_rest(vs: Seq<Point>, i: int) -> Seq<char>
    decreases vs.len() - i,
{
    if i < 0 || i >= vs.len() {
        Seq::empty()
    } else {
        " "@ + spec_point_pair(vs[i]) + spec_points_rest(vs, i + 1)
    }
}

/// The space-separated coordinate pairs of a nonempty vertex list.
pub open spec fn spec_points(vs: Seq<Point>) -> Seq<char>
    recommends
        vs.len() > 0,
{
    spec_point_pair(vs[0]) + spec_points_rest(vs, 1)
}

/// The cubic-curve commands of a spline path from control-point index `i`
/// on: one command per non-overlapping group of three, stopping once fewer
/// than three points remain.
pub open spec fn spec_spline_curves(pts: Seq<Point>, i: int) -> Seq<char>
    decreases pts.len() - i,
{
    if 0 <= i && i + 2 < pts.len() {
        " C "@ + spec_point_pair(pts[i]) + " "@ + spec_point_pair(pts[i + 1]) + " "@
            + spec_point_pair(pts[i + 2]) + spec_spline_curves(pts, i + 3)
    } else {
        Seq::empty()
    }
}

/// Cosine of `k` sixteenths of a turn, in thousandths.
pub open spec fn cos16(k: int) -> int {
    if k == 0 {
        1000
    } else if k == 1 {
        924
    } else if k == 2 {
        707
    } else if k == 3 {
        383
    } else if k == 4 {
        0
    } else if k == 5 {
        -383
    } else if k == 6 {
        -707
    } else if k == 7 {
        -924
    } else if k == 8 {
        -1000
    } else if k == 9 {
        -924
    } else if k == 10 {
        -707
    } else if k == 11 {
        -383
    } else if k == 12 {
        0
    } else if k == 13 {
        383
    } else if k == 14 {
        707
    } else {
        924
    }
}

/// Sine of `k` sixteenths of a turn, in thousandths.
pub open spec fn sin16(k: int) -> int {
    if k == 0 {
        0
    } else if k == 1 {
        383
    } else if k == 2 {
        707
    } else if k == 3 {
        924
    } else if k == 4 {
        1000
    } else if k == 5 {
        924
    } else if k == 6 {
        707
    } else if k == 7 {
        383
    } else if k == 8 {
        0
    } else if k == 9 {
        -383
    } else if k == 10 {
        -707
    } else if k == 11 {
        -924
    } else if k == 12 {
        -1000
    } else if k == 13 {
        -924
    } else if k == 14 {
        -707
    } else {
        -383
    }
}

/// The x coordinate of the `i`-th sample of a helix spiral of `total`
/// samples: the radius grows linearly with `i` while the angle steps a
/// sixteenth of a turn per sample.
pub open spec fn spec_helix_x(base: Point, radius: i64, total: int, i: int) -> int {
    base.x + div1000(div_trunc(radius * i, total) * cos16(i % 16))
}

/// The y coordinate of the `i`-th sample of a helix spiral.
pub open spec fn spec_helix_y(base: Point, radius: i64, total: int, i: int) -> int {
    base.y + div1000(div_trunc(radius * i, total) * sin16(i % 16))
}

/// The line commands of a helix path from sample `i` to sample `total`.
pub open spec fn spec_helix_pieces(base: Point, radius: i64, total: int, i: int) -> Seq<char>
    decreases total + 1 - i,
{
    if i < 1 || i > total {
        Seq::empty()
    } else {
        " L "@ + spec_milli(spec_helix_x(base, radius, total, i)) + ","@ + spec_milli(
            spec_helix_y(base, radius, total, i),
        ) + spec_helix_pieces(base, radius, total, i + 1)
    }
}

/// The arrowhead marker definition emitted once per document, together
/// with the first rendered leader.
pub open spec fn spec_marker_defs() -> Seq<char> {
    "<defs>"@ + "<marker "@
        + "id=\"arrowhead\" markerWidth=\"10\" markerHeight=\"7\" refX=\"9\" refY=\"3.5\" orient=\"auto\">"@
        + "<polygon "@ + "points=\"0 0, 10 3.5, 0 7\" fill=\"black\"/>"@ + "</marker>"@
        + "</defs>"@
}

/// Whether an entity renders as a leader polyline (and so wants the
/// arrowhead marker definition present).
pub open spec fn spec_renders_leader(e: Entity) -> bool {
    match e.specific {
        EntityKind::Leader { vertices } => vertices@.len() >= 2,
        _ => false,
    }
}

/// The markup one entity contributes, given whether the arrowhead marker
/// definition has already been emitted: one element per supported,
/// non-degenerate entity; polylines and splines with too few points, and
/// kinds without a defined translation, contribute nothing.
pub open spec fn spec_frag(e: Entity, o: OptView, marker_emitted: bool) -> Seq<char> {
    let sa = spec_stroke_attr(e, o);
    match e.specific {
        EntityKind::Line { p1, p2 } => {
            "<line x1=\""@ + spec_milli(p1.x as int) + "\" y1=\""@ + spec_milli(p1.y as int)
                + "\" x2=\""@ + spec_milli(p2.x as int) + "\" y2=\""@ + spec_milli(p2.y as int)
                + "\" "@ + sa + " fill=\"none\" />"@
        },
        EntityKind::Insert { name, location, x_scale, y_scale } => {
            "<use href=\"#"@ + name@ + "\" x=\""@ + spec_milli(location.x as int) + "\" y=\""@
                + spec_milli(location.y as int) + "\" width=\""@ + spec_milli(x_scale as int)
                + "\" height=\""@ + spec_milli(y_scale as int) + "\" />"@
        },
        EntityKind::LwPolyline { vertices } => {
            if vertices@.len() < 2 {
                Seq::empty()
            } else {
                "<polyline points=\""@ + spec_points(vertices@) + "\" "@ + sa + " />"@
            }
        },
        EntityKind::Polyline { vertices } => {
            if vertices@.len() < 2 {
                Seq::empty()
            } else {
                "<polyline points=\""@ + spec_points(vertices@) + "\" "@ + sa + " />"@
            }
        },
        EntityKind::Circle { center, radius } => {
            "<circle cx=\""@ + spec_milli(center.x as int) + "\" cy=\""@ + spec_milli(
                center.y as int,
            ) + "\" r=\""@ + spec_milli(radius as int) + "\" "@ + sa + " />"@
        },
        EntityKind::Arc { center, radius, start_angle, end_angle, start_point, end_point } => {
            "<path d=\"M "@ + spec_point_pair(start_point) + " A "@ + spec_milli(radius as int)
                + ","@ + spec_milli(radius as int) + " 0 "@ + (if spec_large_arc(
                start_angle as int,
                end_angle as int,
            ) == 1 {
                "1"@
            } else {
                "0"@
            }) + " "@ + (if spec_sweep(start_angle as int, end_angle as int) == 1 {
                "1"@
            } else {
                "0"@
            }) + " "@ + spec_point_pair(end_point) + "\" "@ + sa + " />"@
        },
        EntityKind::Ellipse { center, major_len, minor_ratio, rotation } => {
            let minor = div1000(major_len * minor_ratio);
            "<ellipse cx=\""@ + spec_milli(center.x as int) + "\" cy=\""@ + spec_milli(
                center.y as int,
            ) + "\" rx=\""@ + spec_milli(major_len as int) + "\" ry=\""@ + spec_milli(minor)
                + "\" transform=\"rotate("@ + spec_milli(rotation as int) + " "@ + spec_milli(
                center.x as int,
            ) + " "@ + spec_milli(center.y as int) + ")\" "@ + sa + " />"@
        },
        EntityKind::Spline { control_points } => {
            if control_points@.len() < 2 {
                Seq::empty()
            } else {
                "<path d=\"M "@ + spec_point_pair(control_points@[0]) + spec_spline_curves(
                    control_points@,
                    1,
                ) + "\" "@ + sa + " />"@
            }
        },
        EntityKind::Text { location, value } => {
            "<text x=\""@ + spec_milli(location.x as int) + "\" y=\""@ + spec_milli(
                location.y as int,
            ) + "\" "@ + sa + ">"@ + spec_escape(value@) + "</text>"@
        },
        EntityKind::ModelPoint { location } => {
            "<circle cx=\""@ + spec_milli(location.x as int) + "\" cy=\""@ + spec_milli(
                location.y as int,
            ) + "\" r=\"1\" "@ + sa + " />"@
        },
        EntityKind::Face3D { first_corner, second_corner, third_corner, fourth_corner } => {
            "<polygon points=\""@ + spec_point_pair(first_corner) + " "@ + spec_point_pair(
                second_corner,
            ) + " "@ + spec_point_pair(third_corner) + " "@ + spec_point_pair(fourth_corner)
                + "\" "@ + sa + " />"@
        },
        EntityKind::Solid { first_corner, second_corner, third_corner, fourth_corner } => {
            "<polygon points=\""@ + spec_point_pair(first_corner) + " "@ + spec_point_pair(
                second_corner,
            ) + " "@ + spec_point_pair(third_corner) + " "@ + spec_point_pair(fourth_corner)
                + "\" "@ + sa + " />"@
        },
        EntityKind::Trace { first_corner, second_corner, third_corner, fourth_corner } => {
            "<polygon points=\""@ + spec_point_pair(first_corner) + " "@ + spec_point_pair(
                second_corner,
            ) + " "@ + spec_point_pair(third_corner) + " "@ + spec_point_pair(fourth_corner)
                + "\" "@ + sa + " />"@
        },
        EntityKind::Leader { vertices } => {
            if vertices@.len() < 2 {
                Seq::empty()
            } else {
                "<polyline points=\""@ + spec_points(vertices@) + "\" "@ + sa
                    + " marker-end=\"url(#arrowhead)\" />"@ + (if !marker_emitted {
                    spec_marker_defs()
                } else {
                    Seq::empty()
                })
            }
        },
        EntityKind::Helix { axis_base_point, start_point, radius, number_of_turns } => {
            "<path d=\"M "@ + spec_point_pair(start_point) + spec_helix_pieces(
                axis_base_point,
                radius,
                16 * (number_of_turns as int),
                1,
            ) + "\" "@ + sa + " />"@
        },
        EntityKind::Shape { location, size, rotation_angle } => {
            let half = div_trunc(size as int, 2);
            "<rect x=\""@ + spec_milli(location.x - half) + "\" y=\""@ + spec_milli(
                location.y - half,
            ) + "\" width=\""@ + spec_milli(size as int) + "\" height=\""@ + spec_milli(size as int)
                + "\" transform=\"rotate("@ + spec_milli(rotation_angle as int) + " "@ + spec_milli(
                location.x as int,
            ) + " "@ + spec_milli(location.y as int) + ")\" "@ + sa + " />"@
        },
        EntityKind::RotatedDimension {
            definition_point_2,
            definition_point_3,
            insertion_point,
            text,
        } => {
            "<line x1=\""@ + spec_milli(definition_point_2.x as int) + "\" y1=\""@ + spec_milli(
                definition_point_2.y as int,
            ) + "\" x2=\""@ + spec_milli(definition_point_3.x as int) + "\" y2=\""@ + spec_milli(
                definition_point_3.y as int,
            ) + "\" "@ + sa + " />"@ + "<text x=\""@ + spec_milli(insertion_point.x as int)
                + "\" y=\""@ + spec_milli(insertion_point.y as int) + "\" "@ + sa
                + " font-size=\"12\" text-anchor=\"middle\">"@ + text@ + "</text>"@
        },
        EntityKind::Unsupported => Seq::empty(),
    }
}

/// Whether a color name is empty or all whitespace.
fn is_blank(s: &str) -> (res: bool)
    ensures
        res == spec_is_blank(s@),
{
    let len = s.unicode_len();
    let mut i: usize = 0;
    while i < len
        invariant
            i <= len,
            len == s@.len(),
            forall|j: int| 0 <= j < i ==> spec_is_space(#[trigger] s@[j]),
        decreases len - i,
    {
        let c = s.get_char(i);
        let u = c as u32;
        let ws = u == 0x9 || u == 0xA || u == 0xB || u == 0xC || u == 0xD || u == 0x20 || u == 0x85
            || u == 0xA0 || u == 0x1680 || (0x2000 <= u && u <= 0x200A) || u == 0x2028
            || u == 0x2029 || u == 0x202F || u == 0x205F || u == 0x3000;
        if !ws {
            return false;
        }
        i = i + 1;
    }
    true
}

/// The stroke style attributes for one entity under one configuration.
fn stroke_attr(e: &Entity, opts: &SvgOptions) -> (res: String)
    requires
        opt_ok(opts@),
    ensures
        res@ == spec_stroke_attr(*e, opts@),
{
    let mut s = String::from_str("stroke=\"");
    if is_blank(e.color_name.as_str()) {
        s.append(opts.default_color.as_str());
    } else {
        s.append(e.color_name.as_str());
    }
    s.append("\" stroke-width=\"");
    s.append(fmt_milli(opts.stroke_width as i128).as_str());
    s.append("\"");
    proof {
        assert(s@ =~= spec_stroke_attr(*e, opts@));
    }
    s
}

/// A coordinate pair, comma separated.
fn pair_str(p: Point) -> (res: String)
    ensures
        res@ == spec_point_pair(p),
{
    let mut s = fmt_milli(p.x as i128);
    s.append(",");
    s.append(fmt_milli(p.y as i128).as_str());
    proof {
        assert(s@ =~= spec_point_pair(p));
    }
    s
}

/// The space-separated coordinate pairs of a nonempty vertex list.
fn points_string(vs: &Vec<Point>) -> (res: String)
    requires
        vs@.len() > 0,
    ensures
        res@ == spec_points(vs@),
{
    let mut s = pair_str(vs[0]);
    let n = vs.len();
    let mut i: usize = 1;
    while i < n
        invariant
            1 <= i <= n,
            n == vs@.len(),
            s@ + spec_points_rest(vs@, i as int) == spec_points(vs@),
        decreases n - i,
    {
        s.append(" ");
        s.append(pair_str(vs[i]).as_str());
        proof {
            assert(s@ + spec_points_rest(vs@, i + 1) =~= spec_points(vs@));
        }
        i = i + 1;
    }
    s
}

/// The cubic-curve commands of a spline path over its control points.
#[verifier::rlimit(100)]
fn spline_curves(pts: &Vec<Point>) -> (res: String)
    requires
        pts@.len() >= 2,
    ensures
        res@ == spec_spline_curves(pts@, 1),
{
    let mut s = String::new();
    let n = pts.len();
    let stop: usize = if n >= 3 {
        n - 3
    } else {
        0
    };
    let mut i: usize = 1;
    proof {
        assert(s@ + spec_spline_curves(pts@, 1) =~= spec_spline_curves(pts@, 1));
    }
    while i <= stop
        invariant
            1 <= i <= n,
            n == pts@.len(),
            stop == if n >= 3 { (n - 3) as usize } else { 0 as usize },
            s@ + spec_spline_curves(pts@, i as int) == spec_spline_curves(pts@, 1),
        decreases n - i,
    {
        let ghost pre = s@;
        s.append(" C ");
        s.append(pair_str(pts[i]).as_str());
        s.append(" ");
        s.append(pair_str(pts[i + 1]).as_str());
        s.append(" ");
        s.append(pair_str(pts[i + 2]).as_str());
        proof {
            let piece = " C "@ + spec_point_pair(pts@[i as int]) + " "@ + spec_point_pair(
                pts@[i as int + 1],
            ) + " "@ + spec_point_pair(pts@[i as int + 2]);
            assert(spec_spline_curves(pts@, i as int) == piece + spec_spline_curves(
                pts@,
                i as int + 3,
            ));
            assert(s@ =~= pre + piece);
            assert(s@ + spec_spline_curves(pts@, i as int + 3) =~= pre + spec_spline_curves(
                pts@,
                i as int,
            ));
        }
        i = i + 3;
    }
    s
}

/// Cosine of `k` sixteenths of a turn, in thousandths.
fn cos16_exec(k: u32) -> (r: i64)
    requires
        k < 16,
    ensures
        r as int == cos16(k as int),
{
    if k == 0 {
        1000
    } else if k == 1 {
        924
    } else if k == 2 {
        707
    } else if k == 3 {
        383
    } else if k == 4 {
        0
    } else if k == 5 {
        -383
    } else if k == 6 {
        -707
    } else if k == 7 {
        -924
    } else if k == 8 {
        -1000
    } else if k == 9 {
        -924
    } else if k == 10 {
        -707
    } else if k == 11 {
        -383
    } else if k == 12 {
        0
    } else if k == 13 {
        383
    } else if k == 14 {
        707
    } else {
        924
    }
}

/// Sine of `k` sixteenths of a turn, in thousandths.
fn sin16_exec(k: u32) -> (r: i64)
    requires
        k < 16,
    ensures
        r as int == sin16(k as int),
{
    if k == 0 {
        0
    } else if k == 1 {
        383
    } else if k == 2 {
        707
    } else if k == 3 {
        924
    } else if k == 4 {
        1000
    } else if k == 5 {
        924
    } else if k == 6 {
        707
    } else if k == 7 {
        383
    } else if k == 8 {
        0
    } else if k == 9 {
        -383
    } else if k == 10 {
        -707
    } else if k == 11 {
        -924
    } else if k == 12 {
        -1000
    } else if k == 13 {
        -924
    } else if k == 14 {
        -707
    } else {
        -383
    }
}

/// The line commands of the helix spiral path after its starting point.
fn helix_pieces(base: Point, radius: i64, turns: u32) -> (res: String)
    requires
        crate::entity::point_ok(base),
        crate::entity::scalar_ok(radius),
        turns <= crate::entity::TURNS_MAX,
    ensures
        res@ == spec_helix_pieces(base, radius, 16 * (turns as int), 1),
{
    let total: u32 = 16 * turns;
    let mut s = String::new();
    let mut i: u32 = 1;
    proof {
        assert(s@ + spec_helix_pieces(base, radius, total as int, 1) =~= spec_helix_pieces(
            base,
            radius,
            total as int,
            1,
        ));
    }
    while i <= total
        invariant
            1 <= i,
            i <= total + 1,
            total == 16 * turns,
            turns <= crate::entity::TURNS_MAX,
            crate::entity::point_ok(base),
            crate::entity::scalar_ok(radius),
            s@ + spec_helix_pieces(base, radius, total as int, i as int) == spec_helix_pieces(
                base,
                radius,
                total as int,
                1,
            ),
        decreases total + 1 - i,
    {
        proof {
            lemma_mul_bound(radius as int, COORD_MAX as int, i as int, total as int);
            lemma_div_trunc_in_range(
                (radius as int) * (i as int),
                total as int,
                COORD_MAX as int,
            );
        }
        let r_i: i128 = div_trunc_exec((radius as i128) * (i as i128), total as i128);
        let k: u32 = i % 16;
        let c = cos16_exec(k);
        let sn = sin16_exec(k);
        proof {
            lemma_mul_bound(r_i as int, COORD_MAX as int, c as int, 1000);
            lemma_div1000_in_range((r_i as int) * (c as int), COORD_MAX as int);
            lemma_mul_bound(r_i as int, COORD_MAX as int, sn as int, 1000);
            lemma_div1000_in_range((r_i as int) * (sn as int), COORD_MAX as int);
        }
        let x: i128 = (base.x as i128) + div1000_exec(r_i * (c as i128));
        let y: i128 = (base.y as i128) + div1000_exec(r_i * (sn as i128));
        s.append(" L ");
        s.append(fmt_milli(x).as_str());
        s.append(",");
        s.append(fmt_milli(y).as_str());
        proof {
            assert(x as int == spec_helix_x(base, radius, total as int, i as int));
            assert(y as int == spec_helix_y(base, radius, total as int, i as int));
            assert(s@ + spec_helix_pieces(base, radius, total as int, i + 1) =~= spec_helix_pieces(
                base,
                radius,
                total as int,
                1,
            ));
        }
        i = i + 1;
    }
    s
}

/// Render one entity as its markup fragment.
#[verifier::rlimit(100)]
pub fn entity_frag(e: &Entity, opts: &SvgOptions, marker_emitted: bool) -> (res: String)
    requires
        entity_ok(*e),
        opt_ok(opts@),
    ensures
        res@ == spec_frag(*e, opts@, marker_emitted),
{
    let sa = stroke_attr(e, opts);
    let mut s = String::new();
    match &e.specific {
        EntityKind::Line { p1, p2 } => {
            s.append("<line x1=\"");
            s.append(fmt_milli(p1.x as i128).as_str());
            s.append("\" y1=\"");
            s.append(fmt_milli(p1.y as i128).as_str());
            s.append("\" x2=\"");
            s.append(fmt_milli(p2.x as i128).as_str());
            s.append("\" y2=\"");
            s.append(fmt_milli(p2.y as i128).as_str());
            s.append("\" ");
            s.append(sa.as_str());
            s.append(" fill=\"none\" />");
        },
        EntityKind::Insert { name, location, x_scale, y_scale } => {
            s.append("<use href=\"#");
            s.append(name.as_str());
            s.append("\" x=\"");
            s.append(fmt_milli(location.x as i128).as_str());
            s.append("\" y=\"");
            s.append(fmt_milli(location.y as i128).as_str());
            s.append("\" width=\"");
            s.append(fmt_milli(*x_scale as i128).as_str());
            s.append("\" height=\"");
            s.append(fmt_milli(*y_scale as i128).as_str());
            s.append("\" />");
        },
        EntityKind::LwPolyline { vertices } => {
            if vertices.len() >= 2 {
                s.append("<polyline points=\"");
                s.append(points_string(vertices).as_str());
                s.append("\" ");
                s.append(sa.as_str());
                s.append(" />");
            }
        },
        EntityKind::Polyline { vertices } => {
            if vertices.len() >= 2 {
                s.append("<polyline points=\"");
                s.append(points_string(vertices).as_str());
                s.append("\" ");
                s.append(sa.as_str());
                s.append(" />");
            }
        },
        EntityKind::Circle { center, radius } => {
            s.append("<circle cx=\"");
            s.append(fmt_milli(center.x as i128).as_str());
            s.append("\" cy=\"");
            s.append(fmt_milli(center.y as i128).as_str());
            s.append("\" r=\"");
            s.append(fmt_milli(*radius as i128).as_str());
            s.append("\" ");
            s.append(sa.as_str());
            s.append(" />");
        },
        EntityKind::Arc { center, radius, start_angle, end_angle, start_point, end_point } => {
            let la = large_arc_flag(*start_angle, *end_angle);
            let sw = sweep_flag(*start_angle, *end_angle);
            s.append("<path d=\"M ");
            s.append(pair_str(*start_point).as_str());
            s.append(" A ");
            s.append(fmt_milli(*radius as i128).as_str());
            s.append(",");
            s.append(fmt_milli(*radius as i128).as_str());
            s.append(" 0 ");
            if la == 1 {
                s.append("1");
            } else {
                s.append("0");
            }
            s.append(" ");
            if sw == 1 {
                s.append("1");
            } else {
                s.append("0");
            }
            s.append(" ");
            s.append(pair_str(*end_point).as_str());
            s.append("\" ");
            s.append(sa.as_str());
            s.append(" />");
        },
        EntityKind::Ellipse { center, major_len, minor_ratio, rotation } => {
            proof {
                lemma_mul_bound(
                    *major_len as int,
                    COORD_MAX as int,
                    *minor_ratio as int,
                    COORD_MAX as int,
                );
                lemma_div1000_in_range(
                    (*major_len as int) * (*minor_ratio as int),
                    1_000_000_000_000_000_000_000,
                );
            }
            let minor = div1000_exec((*major_len as i128) * (*minor_ratio as i128));
            s.append("<ellipse cx=\"");
            s.append(fmt_milli(center.x as i128).as_str());
            s.append("\" cy=\"");
            s.append(fmt_milli(center.y as i128).as_str());
            s.append("\" rx=\"");
            s.append(fmt_milli(*major_len as i128).as_str());
            s.append("\" ry=\"");
            s.append(fmt_milli(minor).as_str());
            s.append("\" transform=\"rotate(");
            s.append(fmt_milli(*rotation as i128).as_str());
            s.append(" ");
            s.append(fmt_milli(center.x as i128).as_str());
            s.append(" ");
            s.append(fmt_milli(center.y as i128).as_str());
            s.append(")\" ");
            s.append(sa.as_str());
            s.append(" />");
        },
        EntityKind::Spline { control_points } => {
            if control_points.len() >= 2 {
                s.append("<path d=\"M ");
                s.append(pair_str(control_points[0]).as_str());
                s.append(spline_curves(control_points).as_str());
                s.append("\" ");
                s.append(sa.as_str());
                s.append(" />");
            }
        },
        EntityKind::Text { location, value } => {
            s.append("<text x=\"");
            s.append(fmt_milli(location.x as i128).as_str());
            s.append("\" y=\"");
            s.append(fmt_milli(location.y as i128).as_str());
            s.append("\" ");
            s.append(sa.as_str());
            s.append(">");
            s.append(escape_xml_text(value.as_str()).as_str());
            s.append("</text>");
        },
        EntityKind::ModelPoint { location } => {
            s.append("<circle cx=\"");
            s.append(fmt_milli(location.x as i128).as_str());
            s.append("\" cy=\"");
            s.append(fmt_milli(location.y as i128).as_str());
            s.append("\" r=\"1\" ");
            s.append(sa.as_str());
            s.append(" />");
        },
        EntityKind::Face3D { first_corner, second_corner, third_corner, fourth_corner } => {
            s.append("<polygon points=\"");
            s.append(pair_str(*first_corner).as_str());
            s.append(" ");
            s.append(pair_str(*second_corner).as_str());
            s.append(" ");
            s.append(pair_str(*third_corner).as_str());
            s.append(" ");
            s.append(pair_str(*fourth_corner).as_str());
            s.append("\" ");
            s.append(sa.as_str());
            s.append(" />");
        },
        EntityKind::Solid { first_corner, second_corner, third_corner, fourth_corner } => {
            s.append("<polygon points=\"");
            s.append(pair_str(*first_corner).as_str());
            s.append(" ");
            s.append(pair_str(*second_corner).as_str());
            s.append(" ");
            s.append(pair_str(*third_corner).as_str());
            s.append(" ");
            s.append(pair_str(*fourth_corner).as_str());
            s.append("\" ");
            s.append(sa.as_str());
            s.append(" />");
        },
        EntityKind::Trace { first_corner, second_corner, third_corner, fourth_corner } => {
            s.append("<polygon points=\"");
            s.append(pair_str(*first_corner).as_str());
            s.append(" ");
            s.append(pair_str(*second_corner).as_str());
            s.append(" ");
            s.append(pair_str(*third_corner).as_str());
            s.append(" ");
            s.append(pair_str(*fourth_corner).as_str());
            s.append("\" ");
            s.append(sa.as_str());
            s.append(" />");
        },
        EntityKind::Leader { vertices } => {
            if vertices.len() >= 2 {
                s.append("<polyline points=\"");
                s.append(points_string(vertices).as_str());
                s.append("\" ");
                s.append(sa.as_str());
                s.append(" marker-end=\"url(#arrowhead)\" />");
                if !marker_emitted {
                    s.append("<defs>");
                    s.append("<marker ");
                    s.append(
                        "id=\"arrowhead\" markerWidth=\"10\" markerHeight=\"7\" refX=\"9\" refY=\"3.5\" orient=\"auto\">",
                    );
                    s.append("<polygon ");
                    s.append("points=\"0 0, 10 3.5, 0 7\" fill=\"black\"/>");
                    s.append("</marker>");
                    s.append("</defs>");
                }
            }
        },
        EntityKind::Helix { axis_base_point, start_point, radius, number_of_turns } => {
            s.append("<path d=\"M ");
            s.append(pair_str(*start_point).as_str());
            s.append(helix_pieces(*axis_base_point, *radius, *number_of_turns).as_str());
            s.append("\" ");
            s.append(sa.as_str());
            s.append(" />");
        },
        EntityKind::Shape { location, size, rotation_angle } => {
            let half = div_trunc_exec(*size as i128, 2);
            s.append("<rect x=\"");
            s.append(fmt_milli((location.x as i128) - half).as_str());
            s.append("\" y=\"");
            s.append(fmt_milli((location.y as i128) - half).as_str());
            s.append("\" width=\"");
            s.append(fmt_milli(*size as i128).as_str());
            s.append("\" height=\"");
            s.append(fmt_milli(*size as i128).as_str());
            s.append("\" transform=\"rotate(");
            s.append(fmt_milli(*rotation_angle as i128).as_str());
            s.append(" ");
            s.append(fmt_milli(location.x as i128).as_str());
            s.append(" ");
            s.append(fmt_milli(location.y as i128).as_str());
            s.append(")\" ");
            s.append(sa.as_str());
            s.append(" />");
        },
        EntityKind::RotatedDimension {
            definition_point_2,
            definition_point_3,
            insertion_point,
            text,
        } => {
            s.append("<line x1=\"");
            s.append(fmt_milli(definition_point_2.x as i128).as_str());
            s.append("\" y1=\"");
            s.append(fmt_milli(definition_point_2.y as i128).as_str());
            s.append("\" x2=\"");
            s.append(fmt_milli(definition_point_3.x as i128).as_str());
            s.append("\" y2=\"");
            s.append(fmt_milli(definition_point_3.y as i128).as_str());
            s.append("\" ");
            s.append(sa.as_str());
            s.append(" />");
            s.append("<text x=\"");
            s.append(fmt_milli(insertion_point.x as i128).as_str());
            s.append("\" y=\"");
            s.append(fmt_milli(insertion_point.y as i128).as_str());
            s.append("\" ");
            s.append(sa.as_str());
            s.append(" font-size=\"12\" text-anchor=\"middle\">");
            s.append(text.as_str());
            s.append("</text>");
        },
        EntityKind::Unsupported => {},
    }
    proof {
        assert(s@ =~= spec_frag(*e, opts@, marker_emitted));
    }
    s
}

} // verus!
