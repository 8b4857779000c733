//! Rendering of CAD drawing entities into a single SVG document string.
//!
//! Geometry is carried in fixed-point milliunits (one thousandth of a drawing
//! unit), matching the three-decimal coordinate precision of the emitted
//! markup; every public function states its output exactly over that model.

pub mod bounds;
pub mod entity;
pub mod escape;
pub mod fragments;
pub mod geom;
pub mod laws;
pub mod numfmt;
pub mod options;
pub mod render;
pub mod wellformed;

pub use escape::escape_xml_text;
pub use options::SvgOptions;
pub use render::dxf_to_svg;
