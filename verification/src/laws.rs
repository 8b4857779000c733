//! Document-level laws: what the whole rendering pipeline guarantees,
//! stated over the output model and proved once and for all.

use vstd::prelude::*;
use crate::entity::Entity;
use crate::options::OptView;
use crate::render::{spec_svg, spec_scaled, spec_header, spec_background, spec_body_from};
use crate::bounds::{spec_calc_bounds, spec_empty_bounds, spec_pad};

verus! {

/// An empty entity list yields the fixed default canvas, whatever the
/// configuration: the document is exactly the default root element (with
/// viewBox "0 0 100 100") and its closing tag. In particular, with
/// `use_bounds` set, the degenerate empty bounds are never propagated into
/// a data-driven viewBox, and no background rectangle or group is emitted.
pub proof fn lemma_empty_input_default_canvas(o: OptView)
    ensures
        spec_svg(Seq::<Entity>::empty(), o) == "<svg"@
            + " xmlns=\"http://www.w3.org/2000/svg\" viewBox=\"0 0 100 100\" xmlns:xlink=\"http://www.w3.org/1999/xlink\">"@
            + "</svg>"@,
{
    let es = Seq::<Entity>::empty();
    assert(spec_calc_bounds(es) == spec_empty_bounds());
    let b = spec_pad(spec_calc_bounds(es), o.padding);
    assert(b == spec_empty_bounds());
    assert(!spec_scaled(b, o));
    assert(spec_background(b, o) == Seq::<char>::empty());
    assert(spec_body_from(es, o, 0, false) == Seq::<char>::empty());
    assert(spec_svg(es, o) =~= spec_header(b, o) + "</svg>"@);
}

/// Rendering is deterministic: two results of the same entity list under
/// the same configuration are the same document. This is immediate from
/// the renderer's contract, which pins its output to `spec_svg` of the
/// inputs alone.
pub proof fn lemma_render_deterministic(
    es: Seq<Entity>,
    o: OptView,
    r1: Seq<char>,
    r2: Seq<char>,
)
    requires
        r1 == spec_svg(es, o),
        r2 == spec_svg(es, o),
    ensures
        r1 == r2,
{
}

} // verus!
