//! Shared state of a collaborative drawing canvas: live cursors, the points
//! drawn on the canvas, and named snapshots of the canvas that can be
//! restored or discarded.
//!
//! Every operation is one function on a [`store::Db`], which holds the four
//! tables and one id counter per keyed table. An operation either applies all
//! of its row changes or, where it returns an error, changes nothing (the one
//! documented exception is `load_canvas_state` on a missing snapshot, which
//! still clears the live canvas).

pub mod schema;
pub mod store;
pub mod cursor;
pub mod canvas;
pub mod snapshot;
pub mod laws;

pub use schema::{CanvasError, CanvasPoint, CanvasState, Ctx, Cursor, SavedCanvasPoint, Scalar, UserId};
pub use store::Db;
pub use cursor::{identity_connected, identity_disconnected, update_cursor};
pub use canvas::{add_drawing_point, clear_canvas, erase_points};
pub use snapshot::{delete_canvas_state, load_canvas_state, save_canvas_state};
