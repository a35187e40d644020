//! Interactive pan-and-zoom behaviour for inline SVG documents.
//!
//! The crate holds the verified core of the widget: exact rational
//! geometry (points, rectangles, affine matrices), the drag/zoom view
//! controller that maintains the SVG `viewBox`, the listener registry
//! that publishes view updates, the host-event binding model with its
//! teardown guarantees, and the zoom-region visibility evaluator.
//! Host-DOM plumbing (fetching, inlining, event wiring) lives outside
//! the verified core and drives it with plain values.

pub mod bindings;
pub mod events;
pub mod laws;
pub mod matrix;
pub mod ratio;
pub mod svg_view_controller;
pub mod visibility;
