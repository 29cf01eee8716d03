//! Interactive rectangular screen-capture engine.
//!
//! The verified core: converting the display server's native BGRX pixel
//! stream into packed RGB, validating capture-reply sizes against the
//! requested geometry, normalizing drag rectangles, driving the selection
//! state machine, modelling the double-buffered overlay redraw, and the
//! teardown plan that releases server resources on every exit path.
//! The display-server transport itself (sockets, blocking event waits) is
//! ordinary I/O and lives outside the library.

pub mod errors;
pub mod geometry;
pub mod pixel;
pub mod selection;
pub mod session;
pub mod capture;
pub mod overlay;
pub mod teardown;
