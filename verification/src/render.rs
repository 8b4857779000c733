//! Document assembly: the root element with its viewBox, the optional
//! background rectangle and transform group, every entity's fragment in
//! input order, and the closing tags — with the whole output pinned down
//! as one sequence of characters.

use vstd::prelude::*;
use crate::bounds::{Bounds, calculate_bounds, spec_calc_bounds, spec_pad};
use crate::entity::{Entity, EntityKind, entities_ok};
use crate::fragments::{entity_frag, spec_frag, spec_renders_leader};
use crate::numfmt::{fmt_milli, spec_milli};
use crate::options::{OptView, SvgOptions, opt_ok, spec_default_options};

verus! {

/// Whether a data-driven viewBox and transform group are emitted: only
/// when asked for, and only over a rectangle with positive width and
/// height — degenerate bounds fall back to the fixed default canvas
/// rather than emit unusable values.
pub open spec fn spec_scaled(b: Bounds, o: OptView) -> bool {
    o.use_bounds && b.nonempty && b.min_x < b.max_x && b.min_y < b.max_y
}

/// The height of the logical canvas: the fixed width of 1000 units scaled
/// by the rectangle's own height-to-width ratio.
pub open spec fn spec_view_height(b: Bounds) -> int {
    1000000int * (b.max_y - b.min_y) / (b.max_x - b.min_x)
}

/// The scale factor mapping the rectangle's width onto 1000 canvas units,
/// in thousandths.
pub open spec fn spec_scale(b: Bounds) -> int {
    1000000000int / (b.max_x - b.min_x)
}

/// The opening of the document: either the data-driven root element with
/// its transform group (Y axis flipped, same magnitude as the horizontal
/// scale, translated so the drawing starts at the origin), or the fixed
/// default canvas.
pub open spec fn spec_header(b: Bounds, o: OptView) -> Seq<char> {
    if spec_scaled(b, o) {
        "<svg"@
            + " xmlns=\"http://www.w3.org/2000/svg\" xmlns:xlink=\"http://www.w3.org/1999/xlink\" viewBox=\"0 0 1000 "@
            + spec_milli(spec_view_height(b))
            + "\" width=\"100%\" height=\"100%\" preserveAspectRatio=\"xMidYMid meet\">"@
            + "<g transform=\"scale("@
            + spec_milli(spec_scale(b)) + ", "@ + spec_milli(-spec_scale(b)) + ") translate("@
            + spec_milli(-b.min_x) + ", "@ + spec_milli(-b.max_y) + ")\">"@
    } else {
        "<svg"@
            + " xmlns=\"http://www.w3.org/2000/svg\" viewBox=\"0 0 100 100\" xmlns:xlink=\"http://www.w3.org/1999/xlink\">"@
    }
}

/// The background rectangle covering the (unscaled) bounds extent, when a
/// background is asked for and there is an extent to cover.
pub open spec fn spec_background(b: Bounds, o: OptView) -> Seq<char> {
    if o.background_color != "none"@ && b.nonempty {
        "<rect x=\""@ + spec_milli(b.min_x as int) + "\" y=\""@ + spec_milli(-b.max_y) + "\" width=\""@
            + spec_milli(b.max_x - b.min_x) + "\" height=\""@ + spec_milli(b.max_y - b.min_y)
            + "\" fill=\""@ + o.background_color + "\"/>"@
    } else {
        Seq::empty()
    }
}

/// The fragments of the entities from index `i` on, threading through
/// whether the arrowhead marker definition has been emitted yet.
pub open spec fn spec_body_from(es: Seq<Entity>, o: OptView, i: int, marker_emitted: bool) -> Seq<
    char,
>
    decreases es.len() - i,
{
    if i < 0 || i >= es.len() {
        Seq::empty()
    } else {
        spec_frag(es[i], o, marker_emitted) + spec_body_from(
            es,
            o,
            i + 1,
            marker_emitted || spec_renders_leader(es[i]),
        )
    }
}

/// The whole document for an entity list under a configuration: header,
/// optional background, every entity's fragment in input order, and the
/// closing tags in reverse order of opening.
pub open spec fn spec_svg(es: Seq<Entity>, o: OptView) -> Seq<char> {
    let b = spec_pad(spec_calc_bounds(es), o.padding);
    spec_header(b, o) + spec_background(b, o) + spec_body_from(es, o, 0, false) + (if spec_scaled(
        b,
        o,
    ) {
        "</g>"@
    } else {
        Seq::empty()
    }) + "</svg>"@
}

/// The configuration a conversion call runs under: the one supplied, or
/// the default.
pub open spec fn spec_eff_options(options: Option<SvgOptions>) -> OptView {
    match options {
        Some(o) => o@,
        None => spec_default_options(),
    }
}

/// Whether an entity renders as a leader polyline.
fn renders_leader(e: &Entity) -> (res: bool)
    ensures
        res == spec_renders_leader(*e),
{
    match &e.specific {
        EntityKind::Leader { vertices } => vertices.len() >= 2,
        _ => false,
    }
}

/// Render a list of entities as one SVG document string.
///
/// Every supported, non-degenerate entity contributes one element, in
/// input order; unsupported kinds are skipped. The output is exactly
/// `spec_svg` of the inputs, so two calls on the same input give the same
/// document.
#[verifier::rlimit(100)]
pub fn dxf_to_svg(entities: &Vec<Entity>, options: Option<SvgOptions>) -> (res: String)
    requires
        entities_ok(entities@),
        match options {
            Some(o) => opt_ok(o@),
            None => true,
        },
    ensures
        res@ == spec_svg(entities@, spec_eff_options(options)),
{
    let ghost goptions = options;
    let opts: SvgOptions = match options {
        Some(o) => o,
        None => SvgOptions::default(),
    };
    proof {
        assert(opts@ == spec_eff_options(goptions));
    }
    let bounds = calculate_bounds(entities);
    let padded = bounds.with_padding(opts.padding);
    let scaled = opts.use_bounds && padded.nonempty && padded.min_x < padded.max_x && padded.min_y
        < padded.max_y;
    proof {
        assert(scaled == spec_scaled(padded, opts@));
    }
    let mut svg = String::new();
    if scaled {
        let w: i128 = padded.max_x - padded.min_x;
        let h: i128 = padded.max_y - padded.min_y;
        let vh: i128 = (1_000_000 * h) / w;
        let sx: i128 = 1_000_000_000 / w;
        svg.append("<svg");
        svg.append(
            " xmlns=\"http://www.w3.org/2000/svg\" xmlns:xlink=\"http://www.w3.org/1999/xlink\" viewBox=\"0 0 1000 ",
        );
        svg.append(fmt_milli(vh).as_str());
        svg.append(
            "\" width=\"100%\" height=\"100%\" preserveAspectRatio=\"xMidYMid meet\">",
        );
        svg.append("<g transform=\"scale(");
        svg.append(fmt_milli(sx).as_str());
        svg.append(", ");
        svg.append(fmt_milli(-sx).as_str());
        svg.append(") translate(");
        svg.append(fmt_milli(-padded.min_x).as_str());
        svg.append(", ");
        svg.append(fmt_milli(-padded.max_y).as_str());
        svg.append(")\">");
    } else {
        svg.append("<svg");
        svg.append(
            " xmlns=\"http://www.w3.org/2000/svg\" viewBox=\"0 0 100 100\" xmlns:xlink=\"http://www.w3.org/1999/xlink\">",
        );
    }
    proof {
        assert(svg@ =~= spec_header(padded, opts@));
    }
    let none_str = String::from_str("none");
    if !(opts.background_color == none_str) && padded.nonempty {
        svg.append("<rect x=\"");
        svg.append(fmt_milli(padded.min_x).as_str());
        svg.append("\" y=\"");
        svg.append(fmt_milli(-padded.max_y).as_str());
        svg.append("\" width=\"");
        svg.append(fmt_milli(padded.max_x - padded.min_x).as_str());
        svg.append("\" height=\"");
        svg.append(fmt_milli(padded.max_y - padded.min_y).as_str());
        svg.append("\" fill=\"");
        svg.append(opts.background_color.as_str());
        svg.append("\"/>");
    }
    proof {
        assert(svg@ =~= spec_header(padded, opts@) + spec_background(padded, opts@));
    }
    let ghost pre = svg@;
    let n = entities.len();
    let mut marker = false;
    let mut i: usize = 0;
    proof {
        assert(svg@ + spec_body_from(entities@, opts@, 0, false) =~= pre + spec_body_from(
            entities@,
            opts@,
            0,
            false,
        ));
    }
    while i < n
        invariant
            i <= n,
            n == entities@.len(),
            entities_ok(entities@),
            opt_ok(opts@),
            svg@ + spec_body_from(entities@, opts@, i as int, marker) == pre + spec_body_from(
                entities@,
                opts@,
                0,
                false,
            ),
        decreases n - i,
    {
        let ghost before = svg@;
        let e = &entities[i];
        let frag = entity_frag(e, &opts, marker);
        svg.append(frag.as_str());
        let lead = renders_leader(e);
        proof {
            assert(spec_body_from(entities@, opts@, i as int, marker) == spec_frag(
                entities@[i as int],
                opts@,
                marker,
            ) + spec_body_from(entities@, opts@, i as int + 1, marker || lead));
            assert(svg@ + spec_body_from(entities@, opts@, i as int + 1, marker || lead)
                =~= before + spec_body_from(entities@, opts@, i as int, marker));
        }
        marker = marker || lead;
        i = i + 1;
    }
    proof {
        assert(spec_body_from(entities@, opts@, n as int, marker) =~= Seq::<char>::empty());
        assert(svg@ =~= pre + spec_body_from(entities@, opts@, 0, false));
    }
    if scaled {
        svg.append("</g>");
    }
    svg.append("</svg>");
    proof {
        assert(svg@ =~= spec_header(padded, opts@) + spec_background(padded, opts@)
            + spec_body_from(entities@, opts@, 0, false) + (if spec_scaled(padded, opts@) {
            "</g>"@
        } else {
            Seq::<char>::empty()
        }) + "</svg>"@);
        assert(svg@ =~= spec_svg(entities@, spec_eff_options(goptions)));
    }
    svg
}

} // verus!
