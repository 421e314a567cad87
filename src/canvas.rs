use vstd::prelude::*;
use crate::schema::{CanvasError, CanvasPoint, Ctx, Scalar};
use crate::store::{ids_advance, point_ids_ascending, snapshots_unchanged, Db};

verus! {

/// The point that `add_drawing_point` inserts under id `id`.
pub open spec fn drawn_point(id: u64, ctx: Ctx, x: Scalar, y: Scalar, color: String, size: Scalar) -> CanvasPoint {
    CanvasPoint { id, identity: ctx.sender, x, y, color, size, timestamp: ctx.timestamp }
}

/// What `add_drawing_point` does.
pub open spec fn add_point_post(
    pre: Db,
    post: Db,
    ctx: Ctx,
    x: Scalar,
    y: Scalar,
    color: String,
    size: Scalar,
    r: Result<u64, CanvasError>,
) -> bool {
    &&& post.cursors == pre.cursors
    &&& snapshots_unchanged(pre, post)
    &&& if pre.next_point_id == u64::MAX {
        &&& r == Err::<u64, CanvasError>(CanvasError::IdsExhausted)
        &&& post.points == pre.points
        &&& post.next_point_id == pre.next_point_id
    } else {
        &&& r == Ok::<u64, CanvasError>(pre.next_point_id)
        &&& post.points@ == pre.points@.push(drawn_point(pre.next_point_id, ctx, x, y, color, size))
        &&& post.next_point_id == pre.next_point_id + 1
    }
}

/// The points that an erase keeps: those whose id is not in `doomed`, in
/// their order.
pub open spec fn points_kept(ps: Seq<CanvasPoint>, doomed: Seq<u64>) -> Seq<CanvasPoint> {
    ps.filter(|p: CanvasPoint| !doomed.contains(p.id))
}

/// What `erase_points` does.
pub open spec fn erase_post(pre: Db, post: Db, doomed: Seq<u64>) -> bool {
    &&& post.cursors == pre.cursors
    &&& snapshots_unchanged(pre, post)
    &&& post.next_point_id == pre.next_point_id
    &&& post.points@ == points_kept(pre.points@, doomed)
}

/// What `clear_canvas` does.
pub open spec fn clear_post(pre: Db, post: Db) -> bool {
    &&& post.cursors == pre.cursors
    &&& snapshots_unchanged(pre, post)
    &&& post.next_point_id == pre.next_point_id
    &&& post.points@.len() == 0
}

/// Whether `ids` holds `id`.
pub fn holds_id(ids: &Vec<u64>, id: u64) -> (r: bool)
    ensures
        r == ids@.contains(id),
{
    let mut i: usize = 0;
    while i < ids.len()
        invariant
            i <= ids@.len(),
            forall|k: int| 0 <= k < i ==> ids@[k] != id,
        decreases ids@.len() - i,
    {
        if ids[i] == id {
            assert(ids@[i as int] == id);
            return true;
        }
        i += 1;
    }
    false
}

/// A copy of `p` that verified code can reason about.
pub fn copy_point(p: &CanvasPoint) -> (r: CanvasPoint)
    ensures
        r == *p,
{
    CanvasPoint {
        id: p.id,
        identity: p.identity,
        x: p.x,
        y: p.y,
        color: p.color.clone(),
        size: p.size,
        timestamp: p.timestamp,
    }
}

/// Draws one point for the acting identity under a fresh id, which it
/// returns; `IdsExhausted`, changing nothing, if the point counter is spent.
pub fn add_drawing_point(
    db: &mut Db,
    ctx: &Ctx,
    x: Scalar,
    y: Scalar,
    color: String,
    size: Scalar,
) -> (r: Result<u64, CanvasError>)
    requires
        old(db).wf(),
    ensures
        final(db).wf(),
        ids_advance(*old(db), *final(db)),
        add_point_post(*old(db), *final(db), *ctx, x, y, color, size, r),
{
    if db.next_point_id == u64::MAX {
        return Err(CanvasError::IdsExhausted);
    }
    let id = db.next_point_id;
    let p = CanvasPoint { id, identity: ctx.sender, x, y, color, size, timestamp: ctx.timestamp };
    db.points.push(p);
    db.next_point_id = id + 1;
    proof {
        let ps = db.points@;
        assert forall|i: int| 0 <= i < ps.len() implies
            old(db).points@.contains(#[trigger] ps[i]) || ps[i].id >= old(db).next_point_id by {
            if i < ps.len() - 1 {
                assert(ps[i] == old(db).points@[i]);
            }
        }
    }
    Ok(id)
}

/// Removes every live point whose id is in `doomed` and keeps the others,
/// in their order. The caller decides which points the eraser reaches.
pub fn erase_points(db: &mut Db, doomed: &Vec<u64>)
    requires
        old(db).wf(),
    ensures
        final(db).wf(),
        ids_advance(*old(db), *final(db)),
        erase_post(*old(db), *final(db), doomed@),
{
    let ghost pre = db.points@;
    let ghost pred = |p: CanvasPoint| !doomed@.contains(p.id);
    let mut kept: Vec<CanvasPoint> = Vec::new();
    let mut i: usize = 0;
    while i < db.points.len()
        invariant
            db.points@ == pre,
            i <= pre.len(),
            point_ids_ascending(pre, db.next_point_id),
            pred == (|p: CanvasPoint| !doomed@.contains(p.id)),
            kept@ == pre.take(i as int).filter(pred),
            forall|k: int| 0 <= k < kept@.len() ==> pre.contains(#[trigger] kept@[k]),
            forall|k1: int, k2: int| 0 <= k1 < k2 < kept@.len() ==> kept@[k1].id < kept@[k2].id,
            forall|k: int| 0 <= k < kept@.len() && i < pre.len() ==> #[trigger] kept@[k].id < pre[i as int].id,
        decreases pre.len() - i,
    {
        let p = copy_point(&db.points[i]);
        let keep = !holds_id(doomed, p.id);
        proof {
            assert(pre.take(i + 1).drop_last() == pre.take(i as int));
            assert(pre.take(i + 1).last() == pre[i as int]);
            reveal(Seq::filter);
        }
        if keep {
            kept.push(p);
        }
        i += 1;
        proof {
            assert forall|k: int| 0 <= k < kept@.len() && i < pre.len() implies #[trigger] kept@[k].id < pre[i as int].id by {
                assert(pre[i - 1].id < pre[i as int].id);
            }
            assert forall|k: int| 0 <= k < kept@.len() implies pre.contains(#[trigger] kept@[k]) by {
                if k == kept@.len() - 1 && keep {
                    assert(kept@[k] == pre[i - 1]);
                }
            }
        }
    }
    proof {
        assert(pre.take(pre.len() as int) == pre);
    }
    db.points = kept;
}

/// Removes every live point.
pub fn clear_canvas(db: &mut Db)
    requires
        old(db).wf(),
    ensures
        final(db).wf(),
        ids_advance(*old(db), *final(db)),
        clear_post(*old(db), *final(db)),
{
    db.points = Vec::new();
}

} // verus!
