//! Viewport/navigation engine for an interactive vector-graphics viewer.
//!
//! The library owns the view state of a document shown in a resizable
//! window: the zoom factor, the pan offset, the viewport size and the
//! document extent. It converts abstract input events (pointer, wheel,
//! key, resize) into view mutations, builds the document-to-screen and
//! screen-to-document mappings, coalesces redraw requests, and maps a
//! screen point back to the topmost document path under it.
//!
//! All geometry is carried in signed 64-bit fixed-point numbers with one
//! million subunits per pixel or document unit, so every operation is
//! exact integer arithmetic with proved bounds. A host adapter translates
//! the window system's events into [`input::InputEvent`] values and hands
//! the current transform to a rasterizer; the library never touches a
//! windowing or graphics API.

pub mod fixedpoint;
pub mod viewport;
pub mod transform;
pub mod scheduler;
pub mod input;
pub mod hittest;
