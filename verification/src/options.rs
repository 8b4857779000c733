//! The configuration of one conversion call.

use vstd::prelude::*;
use crate::bounds::PAD_MAX;
use crate::entity::COORD_MAX;

verus! {

/// The mathematical model of a configuration: the same fields with the
/// strings as character sequences and the fixed-point numbers as integers.
pub ghost struct OptView {
    pub use_bounds: bool,
    pub padding: int,
    pub background_color: Seq<char>,
    pub stroke_width: int,
    pub default_color: Seq<char>,
}

/// Options for one conversion call.
///
/// `padding` is a fraction in thousandths of the bounding rectangle's own
/// width and height (100 means ten percent on each side); `stroke_width`
/// is in milliunits (1000 means one drawing unit).
pub struct SvgOptions {
    /// If true, derive a viewBox and transform from the bounding rectangle;
    /// otherwise use the fixed default canvas.
    pub use_bounds: bool,
    /// Padding added around the bounding rectangle, in thousandths of its
    /// own size per side.
    pub padding: i64,
    /// The background color of the document. "none" means transparent.
    pub background_color: String,
    /// The stroke width for entities, in milliunits.
    pub stroke_width: i64,
    /// The color used when an entity's own color name is blank.
    pub default_color: String,
}

impl View for SvgOptions {
    type V = OptView;

    open spec fn view(&self) -> OptView {
        OptView {
            use_bounds: self.use_bounds,
            padding: self.padding as int,
            background_color: self.background_color@,
            stroke_width: self.stroke_width as int,
            default_color: self.default_color@,
        }
    }
}

/// The default configuration: data-driven viewBox, ten percent padding,
/// white background, unit stroke, black default color.
pub open spec fn spec_default_options() -> OptView {
    OptView {
        use_bounds: true,
        padding: 100,
        background_color: "white"@,
        stroke_width: 1000,
        default_color: "black"@,
    }
}

/// Well-formedness of a configuration: the fixed-point fields within the
/// model's magnitude limits.
pub open spec fn opt_ok(o: OptView) -> bool {
    -(PAD_MAX as int) <= o.padding <= PAD_MAX as int && -(COORD_MAX as int) <= o.stroke_width
        <= COORD_MAX as int
}

impl Default for SvgOptions {
    fn default() -> (res: SvgOptions)
        ensures
            res@ == spec_default_options(),
            opt_ok(res@),
    {
        SvgOptions {
            use_bounds: true,
            padding: 100,
            background_color: String::from_str("white"),
            stroke_width: 1000,
            default_color: String::from_str("black"),
        }
    }
}

} // verus!
