//! Core of an interactive 2D vector-drawing surface.
//!
//! Users create, select, move, resize and rotate shapes on a canvas.
//! This crate holds the manipulation engine: coordinate transforms and
//! hit-testing, the draw list with its picking order, selection-box and
//! handle geometry, the resize algorithm with its anchor/moving-edge
//! swap, and the hover/drag state machine that turns pointer events into
//! shape mutations and cursor requests.
//!
//! All geometry is exact fixed-point integer arithmetic: pixel
//! coordinates are `i64`, a shape's local unit square is scaled by
//! `MODEL_ONE`, and trigonometry uses whole degrees with a rational
//! sine approximation scaled by `TRIG_ONE`.  Rendering, windowing and
//! text layout are outside collaborators: the engine hands them final
//! transformed geometry and never calls them.

pub mod angle;
pub mod assoc;
pub mod drawlist;
pub mod geom;
pub mod response;
pub mod select;
pub mod state;
pub mod shapes;
pub mod transform;

pub use geom::Point;
pub use geom::Rect;
pub use shapes::Shape;
pub use state::AppState;
pub use state::CursorIcon;
pub use state::Key;
pub use state::PointerEventKind;
pub use transform::RotateRect;
