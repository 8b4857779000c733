//! The drawing-entity model the renderer works on.
//!
//! Every length, coordinate and angle is a fixed-point integer:
//! coordinates and lengths in milliunits (thousandths of a drawing unit),
//! angles in milliradians, rotations in millidegrees, and ratios and scale
//! factors in thousandths. Values that only a floating-point library can
//! produce (a cosine, a vector norm, an arctangent) are evaluated by the
//! caller and carried here as plain fields; everything the renderer then
//! does with them is exact integer arithmetic.

use vstd::prelude::*;

verus! {

/// Largest magnitude, in milliunits, of any coordinate, length, angle or
/// ratio field of an entity (one billion drawing units).
pub const COORD_MAX: i64 = 1_000_000_000_000;

/// Largest number of turns a helix may carry.
pub const TURNS_MAX: u32 = 1_000_000;

/// A point of the drawing plane, in milliunits.
#[derive(Clone, Copy, Debug)]
pub struct Point {
    pub x: i64,
    pub y: i64,
}

/// The geometry-specific payload of one entity, discriminated by kind.
///
/// For an `Arc`, `start_point` and `end_point` are the Cartesian start and
/// end of the arc, evaluated by the caller from the parametric form
/// (center + radius·(cos, sin) of the angle); the angles themselves are in
/// milliradians. For an `Ellipse`, `major_len` is the length of the major
/// axis vector and `rotation` its direction in millidegrees, both evaluated
/// by the caller.
#[derive(Clone, Debug)]
pub enum EntityKind {
    Line { p1: Point, p2: Point },
    Circle { center: Point, radius: i64 },
    Arc {
        center: Point,
        radius: i64,
        start_angle: i64,
        end_angle: i64,
        start_point: Point,
        end_point: Point,
    },
    LwPolyline { vertices: Vec<Point> },
    Polyline { vertices: Vec<Point> },
    Ellipse { center: Point, major_len: i64, minor_ratio: i64, rotation: i64 },
    Spline { control_points: Vec<Point> },
    Text { location: Point, value: String },
    ModelPoint { location: Point },
    Insert { name: String, location: Point, x_scale: i64, y_scale: i64 },
    Face3D {
        first_corner: Point,
        second_corner: Point,
        third_corner: Point,
        fourth_corner: Point,
    },
    Solid {
        first_corner: Point,
        second_corner: Point,
        third_corner: Point,
        fourth_corner: Point,
    },
    Trace {
        first_corner: Point,
        second_corner: Point,
        third_corner: Point,
        fourth_corner: Point,
    },
    Leader { vertices: Vec<Point> },
    Helix { axis_base_point: Point, start_point: Point, radius: i64, number_of_turns: u32 },
    Shape { location: Point, size: i64, rotation_angle: i64 },
    RotatedDimension {
        definition_point_2: Point,
        definition_point_3: Point,
        insertion_point: Point,
        text: String,
    },
    /// A kind with no defined translation: skipped by bounds and rendering.
    Unsupported,
}

/// One drawing entity: the common header (color name, layer name) plus the
/// kind-specific geometry.
#[derive(Clone, Debug)]
pub struct Entity {
    /// Color name; blank or whitespace-only means "use the default color".
    pub color_name: String,
    /// Layer name, carried for diagnostics only.
    pub layer: String,
    pub specific: EntityKind,
}

/// A scalar within the model's magnitude limit.
pub open spec fn scalar_ok(v: i64) -> bool {
    -COORD_MAX <= v <= COORD_MAX
}

pub open spec fn point_ok(p: Point) -> bool {
    scalar_ok(p.x) && scalar_ok(p.y)
}

pub open spec fn points_ok(vs: Seq<Point>) -> bool {
    forall|i: int| 0 <= i < vs.len() ==> point_ok(#[trigger] vs[i])
}

/// Well-formedness of one entity: every scalar field within the model's
/// magnitude limit. Constructors in this range make all later arithmetic
/// exact and free of overflow.
pub open spec fn entity_ok(e: Entity) -> bool {
    match e.specific {
        EntityKind::Line { p1, p2 } => point_ok(p1) && point_ok(p2),
        EntityKind::Circle { center, radius } => point_ok(center) && scalar_ok(radius),
        EntityKind::Arc { center, radius, start_angle, end_angle, start_point, end_point } => {
            point_ok(center) && scalar_ok(radius) && scalar_ok(start_angle) && scalar_ok(end_angle)
                && point_ok(start_point) && point_ok(end_point)
        },
        EntityKind::LwPolyline { vertices } => points_ok(vertices@),
        EntityKind::Polyline { vertices } => points_ok(vertices@),
        EntityKind::Ellipse { center, major_len, minor_ratio, rotation } => {
            point_ok(center) && scalar_ok(major_len) && scalar_ok(minor_ratio) && scalar_ok(
                rotation,
            )
        },
        EntityKind::Spline { control_points } => points_ok(control_points@),
        EntityKind::Text { location, value } => point_ok(location),
        EntityKind::ModelPoint { location } => point_ok(location),
        EntityKind::Insert { name, location, x_scale, y_scale } => {
            point_ok(location) && scalar_ok(x_scale) && scalar_ok(y_scale)
        },
        EntityKind::Face3D { first_corner, second_corner, third_corner, fourth_corner } => {
            point_ok(first_corner) && point_ok(second_corner) && point_ok(third_corner)
                && point_ok(fourth_corner)
        },
        EntityKind::Solid { first_corner, second_corner, third_corner, fourth_corner } => {
            point_ok(first_corner) && point_ok(second_corner) && point_ok(third_corner)
                && point_ok(fourth_corner)
        },
        EntityKind::Trace { first_corner, second_corner, third_corner, fourth_corner } => {
            point_ok(first_corner) && point_ok(second_corner) && point_ok(third_corner)
                && point_ok(fourth_corner)
        },
        EntityKind::Leader { vertices } => points_ok(vertices@),
        EntityKind::Helix { axis_base_point, start_point, radius, number_of_turns } => {
            point_ok(axis_base_point) && point_ok(start_point) && scalar_ok(radius)
                && number_of_turns <= TURNS_MAX
        },
        EntityKind::Shape { location, size, rotation_angle } => {
            point_ok(location) && scalar_ok(size) && scalar_ok(rotation_angle)
        },
        EntityKind::RotatedDimension {
            definition_point_2,
            definition_point_3,
            insertion_point,
            text,
        } => {
            point_ok(definition_point_2) && point_ok(definition_point_3) && point_ok(
                insertion_point,
            )
        },
        EntityKind::Unsupported => true,
    }
}

pub open spec fn entities_ok(es: Seq<Entity>) -> bool {
    forall|i: int| 0 <= i < es.len() ==> entity_ok(#[trigger] es[i])
}

} // verus!
