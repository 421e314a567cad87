use vstd::prelude::*;

verus! {

/// An opaque user identity: the 256-bit value that the host platform assigns
/// to a connection, kept as its high and low 128-bit halves.
#[derive(Clone, Copy, Debug, PartialEq, Eq, Hash, Structural)]
pub struct UserId {
    pub hi: u128,
    pub lo: u128,
}

/// A single-precision IEEE-754 number kept as its bit pattern. The store
/// copies such values from row to row and never computes with them, so the
/// bit pattern keeps every value exactly (signed zeros and NaNs included).
#[derive(Clone, Copy, Debug, PartialEq, Eq, Structural)]
pub struct Scalar {
    pub bits: u32,
}

/// Bit pattern of `0.0`.
pub const ZERO_BITS: u32 = 0;

/// Bit pattern of `3.0`, the brush size of a fresh cursor.
pub const DEFAULT_SIZE_BITS: u32 = 0x4040_0000;

/// The context of one operation: the acting identity and the server time of
/// the transaction, in microseconds since the Unix epoch.
#[derive(Clone, Copy, Debug, PartialEq, Eq, Structural)]
pub struct Ctx {
    pub sender: UserId,
    pub timestamp: i64,
}

/// Why an operation applied no change (or, for a load of a missing
/// snapshot, only the clear).
#[derive(Clone, Copy, Debug, PartialEq, Eq, Structural)]
pub enum CanvasError {
    /// A cursor row for the identity exists already.
    AlreadyConnected,
    /// No row has the key that was asked for.
    NotFound,
    /// The acting identity did not create the snapshot.
    Forbidden,
    /// A table's id counter cannot hand out the ids the operation needs.
    IdsExhausted,
}

/// The live cursor and brush of one connected user, keyed by `identity`.
#[derive(Clone, Debug, PartialEq, Eq)]
pub struct Cursor {
    pub identity: UserId,
    pub x: Scalar,
    pub y: Scalar,
    pub color: String,
    pub size: Scalar,
    pub last_updated: i64,
}

/// One point of the live canvas, keyed by `id`.
#[derive(Clone, Debug, PartialEq, Eq)]
pub struct CanvasPoint {
    pub id: u64,
    pub identity: UserId,
    pub x: Scalar,
    pub y: Scalar,
    pub color: String,
    pub size: Scalar,
    pub timestamp: i64,
}

/// Metadata of one saved snapshot, keyed by `id`.
#[derive(Clone, Debug, PartialEq, Eq)]
pub struct CanvasState {
    pub id: u64,
    pub name: String,
    pub created_by: UserId,
    pub created_at: i64,
}

/// One point of a saved snapshot, keyed by `id`; `state_id` names the
/// snapshot it belongs to.
#[derive(Clone, Debug, PartialEq, Eq)]
pub struct SavedCanvasPoint {
    pub id: u64,
    pub state_id: u64,
    pub x: Scalar,
    pub y: Scalar,
    pub color: String,
    pub size: Scalar,
}

} // verus!
