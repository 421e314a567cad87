use vstd::prelude::*;
use crate::schema::{CanvasError, Ctx, Cursor, Scalar, UserId, DEFAULT_SIZE_BITS, ZERO_BITS};
use crate::store::{canvas_unchanged, identities_unique, ids_advance, snapshots_unchanged, Db};

verus! {

/// Whether `cs` holds a cursor of `who`.
pub open spec fn has_cursor(cs: Seq<Cursor>, who: UserId) -> bool {
    exists|i: int| 0 <= i < cs.len() && cs[i].identity == who
}

/// The position of `who`'s cursor in `cs`, where there is one.
pub open spec fn cursor_index(cs: Seq<Cursor>, who: UserId) -> int {
    choose|i: int| 0 <= i < cs.len() && cs[i].identity == who
}

/// Whether `cs` holds exactly one cursor of `who`.
pub open spec fn exactly_one_cursor(cs: Seq<Cursor>, who: UserId) -> bool {
    exists|i: int|
        0 <= i < cs.len() && cs[i].identity == who && forall|j: int|
            0 <= j < cs.len() && cs[j].identity == who ==> j == i
}

/// The cursor that a new connection starts with: at the origin, black, of
/// size three.
pub open spec fn is_fresh_cursor(c: Cursor, ctx: Ctx) -> bool {
    &&& c.identity == ctx.sender
    &&& c.x.bits == ZERO_BITS
    &&& c.y.bits == ZERO_BITS
    &&& c.color@ == "#000000"@
    &&& c.size.bits == DEFAULT_SIZE_BITS
    &&& c.last_updated == ctx.timestamp
}

/// What `identity_connected` does.
pub open spec fn connect_post(pre: Db, post: Db, ctx: Ctx, r: Result<(), CanvasError>) -> bool {
    &&& canvas_unchanged(pre, post)
    &&& snapshots_unchanged(pre, post)
    &&& if has_cursor(pre.cursors@, ctx.sender) {
        r == Err::<(), CanvasError>(CanvasError::AlreadyConnected) && post.cursors == pre.cursors
    } else {
        &&& r == Ok::<(), CanvasError>(())
        &&& post.cursors@.len() == pre.cursors@.len() + 1
        &&& post.cursors@.drop_last() == pre.cursors@
        &&& is_fresh_cursor(post.cursors@.last(), ctx)
    }
}

/// What `identity_disconnected` does.
pub open spec fn disconnect_post(pre: Db, post: Db, ctx: Ctx, r: Result<(), CanvasError>) -> bool {
    &&& canvas_unchanged(pre, post)
    &&& snapshots_unchanged(pre, post)
    &&& if has_cursor(pre.cursors@, ctx.sender) {
        &&& r == Ok::<(), CanvasError>(())
        &&& post.cursors@ == pre.cursors@.remove(cursor_index(pre.cursors@, ctx.sender))
    } else {
        r == Err::<(), CanvasError>(CanvasError::NotFound) && post.cursors == pre.cursors
    }
}

/// The cursor row that `update_cursor` writes.
pub open spec fn moved_cursor(ctx: Ctx, x: Scalar, y: Scalar, color: String, size: Scalar) -> Cursor {
    Cursor { identity: ctx.sender, x, y, color, size, last_updated: ctx.timestamp }
}

/// What `update_cursor` does.
pub open spec fn update_cursor_post(
    pre: Db,
    post: Db,
    ctx: Ctx,
    x: Scalar,
    y: Scalar,
    color: String,
    size: Scalar,
    r: Result<(), CanvasError>,
) -> bool {
    &&& canvas_unchanged(pre, post)
    &&& snapshots_unchanged(pre, post)
    &&& if has_cursor(pre.cursors@, ctx.sender) {
        &&& r == Ok::<(), CanvasError>(())
        &&& post.cursors@ == pre.cursors@.update(
            cursor_index(pre.cursors@, ctx.sender),
            moved_cursor(ctx, x, y, color, size),
        )
    } else {
        r == Err::<(), CanvasError>(CanvasError::NotFound) && post.cursors == pre.cursors
    }
}

/// Finds the position of `who`'s cursor.
fn find_cursor(cs: &Vec<Cursor>, who: UserId) -> (r: Option<usize>)
    requires
        identities_unique(cs@),
    ensures
        r is None <==> !has_cursor(cs@, who),
        r matches Some(i) ==> i < cs@.len() && cs@[i as int].identity == who && i == cursor_index(cs@, who),
{
    let mut i: usize = 0;
    while i < cs.len()
        invariant
            i <= cs@.len(),
            identities_unique(cs@),
            forall|k: int| 0 <= k < i ==> cs@[k].identity != who,
        decreases cs@.len() - i,
    {
        if cs[i].identity == who {
            proof {
                let c = cursor_index(cs@, who);
                assert(0 <= c < cs@.len() && cs@[c].identity == who);
                assert(cs@[i as int].identity == who);
                if c > i as int {
                    assert(cs@[i as int].identity != cs@[c].identity);
                }
            }
            return Some(i);
        }
        i += 1;
    }
    None
}

/// Opens a cursor for the acting identity: at the origin, black, of size
/// three. Fails, changing nothing, if the identity has a cursor already.
pub fn identity_connected(db: &mut Db, ctx: &Ctx) -> (r: Result<(), CanvasError>)
    requires
        old(db).wf(),
    ensures
        final(db).wf(),
        ids_advance(*old(db), *final(db)),
        connect_post(*old(db), *final(db), *ctx, r),
{
    match find_cursor(&db.cursors, ctx.sender) {
        Some(_) => Err(CanvasError::AlreadyConnected),
        None => {
            let c = Cursor {
                identity: ctx.sender,
                x: Scalar { bits: ZERO_BITS },
                y: Scalar { bits: ZERO_BITS },
                color: "#000000".to_owned(),
                size: Scalar { bits: DEFAULT_SIZE_BITS },
                last_updated: ctx.timestamp,
            };
            proof {
                reveal_strlit("#000000");
            }
            db.cursors.push(c);
            assert(db.cursors@.drop_last() == old(db).cursors@);
            Ok(())
        },
    }
}

/// Removes the acting identity's cursor; `NotFound`, changing nothing, if
/// it has none.
pub fn identity_disconnected(db: &mut Db, ctx: &Ctx) -> (r: Result<(), CanvasError>)
    requires
        old(db).wf(),
    ensures
        final(db).wf(),
        ids_advance(*old(db), *final(db)),
        disconnect_post(*old(db), *final(db), *ctx, r),
{
    match find_cursor(&db.cursors, ctx.sender) {
        None => Err(CanvasError::NotFound),
        Some(i) => {
            db.cursors.remove(i);
            Ok(())
        },
    }
}

/// Overwrites the acting identity's cursor with the given position, color
/// and size, stamped with the operation's time; `NotFound`, changing
/// nothing, if it has no cursor.
pub fn update_cursor(db: &mut Db, ctx: &Ctx, x: Scalar, y: Scalar, color: String, size: Scalar) -> (r: Result<(), CanvasError>)
    requires
        old(db).wf(),
    ensures
        final(db).wf(),
        ids_advance(*old(db), *final(db)),
        update_cursor_post(*old(db), *final(db), *ctx, x, y, color, size, r),
{
    match find_cursor(&db.cursors, ctx.sender) {
        None => Err(CanvasError::NotFound),
        Some(i) => {
            let c = Cursor { identity: ctx.sender, x, y, color, size, last_updated: ctx.timestamp };
            db.cursors.set(i, c);
            Ok(())
        },
    }
}

} // verus!
