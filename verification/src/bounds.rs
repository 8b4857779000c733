//! The bounding-rectangle calculator: scans all entities and folds every
//! point that bounds an entity's visual extent into a running min/max,
//! then optionally pads the rectangle by a fraction of its own size.

use vstd::prelude::*;
use crate::entity::{COORD_MAX, Entity, EntityKind, Point, entities_ok, entity_ok};
use crate::geom::{
    THREE_QUARTER_MRAD, QUARTER_MRAD, PI_MRAD, div1000, div1000_exec, is_angle_in_arc,
    lemma_div1000_in_range, lemma_mul_bound, spec_in_arc,
};

verus! {

/// Largest magnitude a raw bound can take: a coordinate plus an ellipse
/// half-extent, with slack.
pub const BOUND_MAX: i128 = 2_000_000_000_000_000_000_000;

/// Largest magnitude a padded bound can take.
pub const PADDED_MAX: i128 = 5_000_000_000_000_000_000_000_000;

/// Largest magnitude of a padding fraction, in thousandths (a thousandfold
/// enlargement).
pub const PAD_MAX: i64 = 1_000_000;

/// An axis-aligned bounding rectangle over milliunit coordinates.
///
/// `nonempty` is false until a first point has been folded in; an empty
/// rectangle is an explicit degenerate state the normalizer substitutes a
/// default canvas for, and its numeric fields are all zero.
#[derive(Clone, Copy, Debug)]
pub struct Bounds {
    pub nonempty: bool,
    pub min_x: i128,
    pub min_y: i128,
    pub max_x: i128,
    pub max_y: i128,
}

/// The rectangle before any point: empty, all fields zero.
pub open spec fn spec_empty_bounds() -> Bounds {
    Bounds { nonempty: false, min_x: 0, min_y: 0, max_x: 0, max_y: 0 }
}

/// Folding one point into the rectangle: the first point pins all four
/// edges; every later one widens min and max as needed.
pub open spec fn spec_update(b: Bounds, x: int, y: int) -> Bounds {
    if !b.nonempty {
        Bounds { nonempty: true, min_x: x as i128, min_y: y as i128, max_x: x as i128, max_y: y as i128 }
    } else {
        Bounds {
            nonempty: true,
            min_x: if x < b.min_x { x as i128 } else { b.min_x },
            min_y: if y < b.min_y { y as i128 } else { b.min_y },
            max_x: if x > b.max_x { x as i128 } else { b.max_x },
            max_y: if y > b.max_y { y as i128 } else { b.max_y },
        }
    }
}

/// All four edges within magnitude `m`.
pub open spec fn bounds_in_range(b: Bounds, m: int) -> bool {
    -m <= b.min_x <= m && -m <= b.min_y <= m && -m <= b.max_x <= m && -m <= b.max_y <= m
}

/// Rectangle invariant: once nonempty, min does not exceed max on either
/// axis.
pub open spec fn bounds_wf(b: Bounds) -> bool {
    b.nonempty ==> b.min_x <= b.max_x && b.min_y <= b.max_y
}

/// Folding a point preserves the rectangle invariant.
pub proof fn lemma_update_wf(b: Bounds, x: int, y: int)
    requires
        bounds_wf(b),
        i128::MIN <= x <= i128::MAX,
        i128::MIN <= y <= i128::MAX,
    ensures
        bounds_wf(spec_update(b, x, y)),
{
}

/// Folding a vertex list preserves the rectangle invariant.
pub proof fn lemma_fold_pts_wf(b: Bounds, vs: Seq<Point>)
    requires
        bounds_wf(b),
    ensures
        bounds_wf(spec_fold_pts(b, vs)),
    decreases vs.len(),
{
    if vs.len() > 0 {
        lemma_fold_pts_wf(b, vs.drop_last());
    }
}

/// One entity's contribution preserves the rectangle invariant.
#[verifier::rlimit(100)]
pub proof fn lemma_entity_fold_wf(b: Bounds, e: Entity)
    requires
        bounds_wf(b),
        entity_ok(e),
    ensures
        bounds_wf(spec_entity_fold(b, e)),
{
    match e.specific {
        EntityKind::LwPolyline { vertices } => {
            lemma_fold_pts_wf(b, vertices@);
        },
        EntityKind::Polyline { vertices } => {
            lemma_fold_pts_wf(b, vertices@);
        },
        EntityKind::Leader { vertices } => {
            lemma_fold_pts_wf(b, vertices@);
        },
        EntityKind::Ellipse { center, major_len, minor_ratio, rotation } => {
            lemma_mul_bound(major_len as int, COORD_MAX as int, minor_ratio as int, COORD_MAX as int);
            lemma_div1000_in_range(
                (major_len as int) * (minor_ratio as int),
                1_000_000_000_000_000_000_000,
            );
        },
        _ => {},
    }
}

/// The computed bounding rectangle always satisfies its invariant: once
/// any point has been folded in, min does not exceed max on either axis.
pub proof fn lemma_calc_bounds_wf(es: Seq<Entity>)
    requires
        entities_ok(es),
    ensures
        bounds_wf(spec_calc_bounds(es)),
{
    lemma_calc_bounds_from_wf(spec_empty_bounds(), es);
}

/// The fold from any well-formed rectangle stays well-formed.
pub proof fn lemma_calc_bounds_from_wf(b: Bounds, es: Seq<Entity>)
    requires
        bounds_wf(b),
        entities_ok(es),
    ensures
        bounds_wf(spec_calc_bounds_from(b, es)),
    decreases es.len(),
{
    if es.len() > 0 {
        assert(entities_ok(es.drop_last())) by {
            assert(forall|i: int|
                0 <= i < es.drop_last().len() ==> es.drop_last()[i] == es[i] && entity_ok(
                    #[trigger] es[i],
                ));
        }
        lemma_calc_bounds_from_wf(b, es.drop_last());
        assert(entity_ok(es.last())) by {
            assert(es.last() == es[es.len() - 1]);
        }
        lemma_entity_fold_wf(spec_calc_bounds_from(b, es.drop_last()), es.last());
    }
}

/// Folding a vertex list into the rectangle, in order.
pub open spec fn spec_fold_pts(b: Bounds, vs: Seq<Point>) -> Bounds
    decreases vs.len(),
{
    if vs.len() == 0 {
        b
    } else {
        spec_update(spec_fold_pts(b, vs.drop_last()), vs.last().x as int, vs.last().y as int)
    }
}

/// The bounding points one entity contributes, folded into the rectangle.
///
/// Kinds with no defined extent policy (among them `Insert`, `Spline` and
/// dimensions) leave the rectangle unchanged.
pub open spec fn spec_entity_fold(b: Bounds, e: Entity) -> Bounds {
    match e.specific {
        EntityKind::Line { p1, p2 } => spec_update(
            spec_update(b, p1.x as int, p1.y as int),
            p2.x as int,
            p2.y as int,
        ),
        EntityKind::Circle { center, radius } => spec_update(
            spec_update(b, center.x - radius, center.y - radius),
            center.x + radius,
            center.y + radius,
        ),
        EntityKind::Arc { center, radius, start_angle, end_angle, start_point, end_point } => {
            let b1 = spec_update(b, start_point.x as int, start_point.y as int);
            let b2 = spec_update(b1, end_point.x as int, end_point.y as int);
            let b3 = if spec_in_arc(0, start_angle as int, end_angle as int) {
                spec_update(b2, center.x + radius, center.y as int)
            } else {
                b2
            };
            let b4 = if spec_in_arc(QUARTER_MRAD as int, start_angle as int, end_angle as int) {
                spec_update(b3, center.x as int, center.y + radius)
            } else {
                b3
            };
            let b5 = if spec_in_arc(PI_MRAD as int, start_angle as int, end_angle as int) {
                spec_update(b4, center.x - radius, center.y as int)
            } else {
                b4
            };
            if spec_in_arc(THREE_QUARTER_MRAD as int, start_angle as int, end_angle as int) {
                spec_update(b5, center.x as int, center.y - radius)
            } else {
                b5
            }
        },
        EntityKind::LwPolyline { vertices } => spec_fold_pts(b, vertices@),
        EntityKind::Polyline { vertices } => spec_fold_pts(b, vertices@),
        EntityKind::Ellipse { center, major_len, minor_ratio, rotation } => {
            let minor = div1000(major_len * minor_ratio);
            spec_update(
                spec_update(b, center.x - major_len, center.y - minor),
                center.x + major_len,
                center.y + minor,
            )
        },
        EntityKind::Text { location, value } => spec_update(b, location.x as int, location.y as int),
        EntityKind::ModelPoint { location } => spec_update(b, location.x as int, location.y as int),
        EntityKind::Face3D { first_corner, second_corner, third_corner, fourth_corner } => {
            spec_update(
                spec_update(
                    spec_update(
                        spec_update(b, first_corner.x as int, first_corner.y as int),
                        second_corner.x as int,
                        second_corner.y as int,
                    ),
                    third_corner.x as int,
                    third_corner.y as int,
                ),
                fourth_corner.x as int,
                fourth_corner.y as int,
            )
        },
        EntityKind::Solid { first_corner, second_corner, third_corner, fourth_corner } => {
            spec_update(
                spec_update(
                    spec_update(
                        spec_update(b, first_corner.x as int, first_corner.y as int),
                        second_corner.x as int,
                        second_corner.y as int,
                    ),
                    third_corner.x as int,
                    third_corner.y as int,
                ),
                fourth_corner.x as int,
                fourth_corner.y as int,
            )
        },
        EntityKind::Trace { first_corner, second_corner, third_corner, fourth_corner } => {
            spec_update(
                spec_update(
                    spec_update(
                        spec_update(b, first_corner.x as int, first_corner.y as int),
                        second_corner.x as int,
                        second_corner.y as int,
                    ),
                    third_corner.x as int,
                    third_corner.y as int,
                ),
                fourth_corner.x as int,
                fourth_corner.y as int,
            )
        },
        EntityKind::Leader { vertices } => spec_fold_pts(b, vertices@),
        EntityKind::Helix { axis_base_point, start_point, radius, number_of_turns } => {
            spec_update(
                spec_update(
                    spec_update(
                        spec_update(b, axis_base_point.x as int, axis_base_point.y as int),
                        start_point.x as int,
                        start_point.y as int,
                    ),
                    axis_base_point.x + radius,
                    axis_base_point.y + radius,
                ),
                axis_base_point.x - radius,
                axis_base_point.y - radius,
            )
        },
        EntityKind::Shape { location, size, rotation_angle } => {
            spec_update(
                spec_update(
                    spec_update(b, location.x as int, location.y as int),
                    location.x + size,
                    location.y + size,
                ),
                location.x - size,
                location.y - size,
            )
        },
        EntityKind::Spline { .. } => b,
        EntityKind::Insert { .. } => b,
        EntityKind::RotatedDimension { .. } => b,
        EntityKind::Unsupported => b,
    }
}

/// The bounding rectangle of a whole entity list: the fold of every
/// entity's contribution, in order, starting from the empty rectangle.
pub open spec fn spec_calc_bounds_from(b: Bounds, es: Seq<Entity>) -> Bounds
    decreases es.len(),
{
    if es.len() == 0 {
        b
    } else {
        spec_entity_fold(spec_calc_bounds_from(b, es.drop_last()), es.last())
    }
}

pub open spec fn spec_calc_bounds(es: Seq<Entity>) -> Bounds {
    spec_calc_bounds_from(spec_empty_bounds(), es)
}

/// The rectangle enlarged by `padding` thousandths of its own width and
/// height, symmetric on both sides; an empty rectangle stays empty.
pub open spec fn spec_pad(b: Bounds, padding: int) -> Bounds {
    if !b.nonempty {
        b
    } else {
        let px = div1000((b.max_x - b.min_x) * padding);
        let py = div1000((b.max_y - b.min_y) * padding);
        Bounds {
            nonempty: true,
            min_x: (b.min_x - px) as i128,
            min_y: (b.min_y - py) as i128,
            max_x: (b.max_x + px) as i128,
            max_y: (b.max_y + py) as i128,
        }
    }
}

impl Bounds {
    /// A fresh, empty rectangle.
    pub fn new() -> (res: Bounds)
        ensures
            res == spec_empty_bounds(),
    {
        Bounds { nonempty: false, min_x: 0, min_y: 0, max_x: 0, max_y: 0 }
    }

    /// Fold one point into the running min/max.
    pub fn update(&mut self, x: i128, y: i128)
        ensures
            *final(self) == spec_update(*old(self), x as int, y as int),
    {
        if !self.nonempty {
            self.nonempty = true;
            self.min_x = x;
            self.min_y = y;
            self.max_x = x;
            self.max_y = y;
        } else {
            if x < self.min_x {
                self.min_x = x;
            }
            if y < self.min_y {
                self.min_y = y;
            }
            if x > self.max_x {
                self.max_x = x;
            }
            if y > self.max_y {
                self.max_y = y;
            }
        }
    }

    /// The rectangle enlarged by `padding` thousandths of its own width
    /// and height on each side.
    pub fn with_padding(&self, padding: i64) -> (res: Bounds)
        requires
            bounds_in_range(*self, BOUND_MAX as int),
            -PAD_MAX <= padding <= PAD_MAX,
        ensures
            res == spec_pad(*self, padding as int),
            bounds_in_range(res, PADDED_MAX as int),
    {
        if !self.nonempty {
            *self
        } else {
            let w: i128 = self.max_x - self.min_x;
            let h: i128 = self.max_y - self.min_y;
            let p: i128 = padding as i128;
            proof {
                lemma_mul_bound(w as int, 4_000_000_000_000_000_000_000, p as int, 1_000_000);
                lemma_mul_bound(h as int, 4_000_000_000_000_000_000_000, p as int, 1_000_000);
                lemma_div1000_in_range(
                    (w as int) * (p as int),
                    4_000_000_000_000_000_000_000_000,
                );
                lemma_div1000_in_range(
                    (h as int) * (p as int),
                    4_000_000_000_000_000_000_000_000,
                );
            }
            let px = div1000_exec(w * p);
            let py = div1000_exec(h * p);
            Bounds {
                nonempty: true,
                min_x: self.min_x - px,
                min_y: self.min_y - py,
                max_x: self.max_x + px,
                max_y: self.max_y + py,
            }
        }
    }
}

/// Scan all entities and return the axis-aligned rectangle bounding their
/// visual extent.
pub fn calculate_bounds(entities: &Vec<Entity>) -> (res: Bounds)
    requires
        entities_ok(entities@),
    ensures
        res == spec_calc_bounds(entities@),
        bounds_in_range(res, BOUND_MAX as int),
{
    let mut bounds = Bounds::new();
    let n = entities.len();
    let mut i: usize = 0;
    proof {
        assert(entities@.take(0) =~= Seq::<Entity>::empty());
    }
    while i < n
        invariant
            i <= n,
            n == entities@.len(),
            entities_ok(entities@),
            bounds == spec_calc_bounds(entities@.take(i as int)),
            bounds_in_range(bounds, BOUND_MAX as int),
        decreases n - i,
    {
        let e = &entities[i];
        proof {
            assert(entity_ok(entities@[i as int]));
        }
        fold_entity(&mut bounds, e);
        proof {
            assert(entities@.take(i + 1).drop_last() =~= entities@.take(i as int));
            assert(entities@.take(i + 1).last() == entities@[i as int]);
            assert(bounds == spec_calc_bounds(entities@.take(i + 1)));
        }
        i = i + 1;
    }
    proof {
        assert(entities@.take(n as int) =~= entities@);
    }
    bounds
}

/// Fold the bounding points of one entity into the rectangle.
#[verifier::rlimit(100)]
fn fold_entity(bounds: &mut Bounds, e: &Entity)
    requires
        entity_ok(*e),
        bounds_in_range(*old(bounds), BOUND_MAX as int),
    ensures
        *final(bounds) == spec_entity_fold(*old(bounds), *e),
        bounds_in_range(*final(bounds), BOUND_MAX as int),
{
    match &e.specific {
            EntityKind::Line { p1, p2 } => {
                bounds.update(p1.x as i128, p1.y as i128);
                bounds.update(p2.x as i128, p2.y as i128);
            },
            EntityKind::Circle { center, radius } => {
                bounds.update(
                    (center.x as i128) - (*radius as i128),
                    (center.y as i128) - (*radius as i128),
                );
                bounds.update(
                    (center.x as i128) + (*radius as i128),
                    (center.y as i128) + (*radius as i128),
                );
            },
            EntityKind::Arc { center, radius, start_angle, end_angle, start_point, end_point } => {
                bounds.update(start_point.x as i128, start_point.y as i128);
                bounds.update(end_point.x as i128, end_point.y as i128);
                if is_angle_in_arc(0, *start_angle, *end_angle) {
                    bounds.update((center.x as i128) + (*radius as i128), center.y as i128);
                }
                if is_angle_in_arc(QUARTER_MRAD, *start_angle, *end_angle) {
                    bounds.update(center.x as i128, (center.y as i128) + (*radius as i128));
                }
                if is_angle_in_arc(PI_MRAD, *start_angle, *end_angle) {
                    bounds.update((center.x as i128) - (*radius as i128), center.y as i128);
                }
                if is_angle_in_arc(THREE_QUARTER_MRAD, *start_angle, *end_angle) {
                    bounds.update(center.x as i128, (center.y as i128) - (*radius as i128));
                }
            },
            EntityKind::LwPolyline { vertices } => {
                fold_vertices(bounds, vertices);
            },
            EntityKind::Polyline { vertices } => {
                fold_vertices(bounds, vertices);
            },
            EntityKind::Ellipse { center, major_len, minor_ratio, rotation } => {
                proof {
                    lemma_mul_bound(
                        *major_len as int,
                        COORD_MAX as int,
                        *minor_ratio as int,
                        COORD_MAX as int,
                    );
                    lemma_div1000_in_range(
                        (*major_len as int) * (*minor_ratio as int),
                        1_000_000_000_000_000_000_000,
                    );
                }
                let minor = div1000_exec((*major_len as i128) * (*minor_ratio as i128));
                bounds.update((center.x as i128) - (*major_len as i128), (center.y as i128) - minor);
                bounds.update((center.x as i128) + (*major_len as i128), (center.y as i128) + minor);
            },
            EntityKind::Text { location, value } => {
                bounds.update(location.x as i128, location.y as i128);
            },
            EntityKind::ModelPoint { location } => {
                bounds.update(location.x as i128, location.y as i128);
            },
            EntityKind::Face3D { first_corner, second_corner, third_corner, fourth_corner } => {
                bounds.update(first_corner.x as i128, first_corner.y as i128);
                bounds.update(second_corner.x as i128, second_corner.y as i128);
                bounds.update(third_corner.x as i128, third_corner.y as i128);
                bounds.update(fourth_corner.x as i128, fourth_corner.y as i128);
            },
            EntityKind::Solid { first_corner, second_corner, third_corner, fourth_corner } => {
                bounds.update(first_corner.x as i128, first_corner.y as i128);
                bounds.update(second_corner.x as i128, second_corner.y as i128);
                bounds.update(third_corner.x as i128, third_corner.y as i128);
                bounds.update(fourth_corner.x as i128, fourth_corner.y as i128);
            },
            EntityKind::Trace { first_corner, second_corner, third_corner, fourth_corner } => {
                bounds.update(first_corner.x as i128, first_corner.y as i128);
                bounds.update(second_corner.x as i128, second_corner.y as i128);
                bounds.update(third_corner.x as i128, third_corner.y as i128);
                bounds.update(fourth_corner.x as i128, fourth_corner.y as i128);
            },
            EntityKind::Leader { vertices } => {
                fold_vertices(bounds, vertices);
            },
            EntityKind::Helix { axis_base_point, start_point, radius, number_of_turns } => {
                bounds.update(axis_base_point.x as i128, axis_base_point.y as i128);
                bounds.update(start_point.x as i128, start_point.y as i128);
                bounds.update(
                    (axis_base_point.x as i128) + (*radius as i128),
                    (axis_base_point.y as i128) + (*radius as i128),
                );
                bounds.update(
                    (axis_base_point.x as i128) - (*radius as i128),
                    (axis_base_point.y as i128) - (*radius as i128),
                );
            },
            EntityKind::Shape { location, size, rotation_angle } => {
                bounds.update(location.x as i128, location.y as i128);
                bounds.update(
                    (location.x as i128) + (*size as i128),
                    (location.y as i128) + (*size as i128),
                );
                bounds.update(
                    (location.x as i128) - (*size as i128),
                    (location.y as i128) - (*size as i128),
                );
            },
            EntityKind::Spline { .. } => {},
            EntityKind::Insert { .. } => {},
            EntityKind::RotatedDimension { .. } => {},
            EntityKind::Unsupported => {},
    }
}

/// Fold every vertex of a list into the rectangle, in order.
fn fold_vertices(bounds: &mut Bounds, vertices: &Vec<Point>)
    requires
        crate::entity::points_ok(vertices@),
        bounds_in_range(*old(bounds), BOUND_MAX as int),
    ensures
        *final(bounds) == spec_fold_pts(*old(bounds), vertices@),
        bounds_in_range(*final(bounds), BOUND_MAX as int),
{
    let m = vertices.len();
    let mut j: usize = 0;
    proof {
        assert(vertices@.take(0) =~= Seq::<Point>::empty());
    }
    while j < m
        invariant
            j <= m,
            m == vertices@.len(),
            crate::entity::points_ok(vertices@),
            *bounds == spec_fold_pts(*old(bounds), vertices@.take(j as int)),
            bounds_in_range(*bounds, BOUND_MAX as int),
        decreases m - j,
    {
        let v = vertices[j];
        bounds.update(v.x as i128, v.y as i128);
        proof {
            assert(vertices@.take(j + 1).drop_last() =~= vertices@.take(j as int));
            assert(vertices@.take(j + 1).last() == vertices@[j as int]);
        }
        j = j + 1;
    }
    proof {
        assert(vertices@.take(m as int) =~= vertices@);
    }
}

} // verus!
