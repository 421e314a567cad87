use vstd::prelude::*;
use crate::canvas::copy_point;
use crate::schema::{CanvasError, CanvasPoint, CanvasState, Ctx, SavedCanvasPoint};
use crate::store::{
    canvas_unchanged, copy_string, has_state, ids_advance, saved_ids_ascending,
    snapshots_unchanged, state_ids_ascending, Db,
};

verus! {

/// The saved rows that `save_canvas_state` writes for the live points `ps`:
/// one per point, in order, with ids counted up from `first`, all tagged
/// with `state_id`.
pub open spec fn saved_copy(ps: Seq<CanvasPoint>, state_id: u64, first: u64) -> Seq<SavedCanvasPoint> {
    Seq::new(
        ps.len(),
        |i: int|
            SavedCanvasPoint {
                id: (first + i) as u64,
                state_id,
                x: ps[i].x,
                y: ps[i].y,
                color: ps[i].color,
                size: ps[i].size,
            },
    )
}

/// Whether a save from `pre` would need more ids than the counters have.
pub open spec fn save_exhausts(pre: Db) -> bool {
    pre.next_state_id == u64::MAX || pre.next_saved_id + pre.points@.len() > u64::MAX
}

/// The metadata row that `save_canvas_state` writes.
pub open spec fn new_state(id: u64, name: String, ctx: Ctx) -> CanvasState {
    CanvasState { id, name, created_by: ctx.sender, created_at: ctx.timestamp }
}

/// What `save_canvas_state` does.
pub open spec fn save_post(pre: Db, post: Db, ctx: Ctx, name: String, r: Result<u64, CanvasError>) -> bool {
    &&& post.cursors == pre.cursors
    &&& canvas_unchanged(pre, post)
    &&& if save_exhausts(pre) {
        r == Err::<u64, CanvasError>(CanvasError::IdsExhausted) && snapshots_unchanged(pre, post)
    } else {
        &&& r == Ok::<u64, CanvasError>(pre.next_state_id)
        &&& post.states@ == pre.states@.push(new_state(pre.next_state_id, name, ctx))
        &&& post.saved@ == pre.saved@ + saved_copy(pre.points@, pre.next_state_id, pre.next_saved_id)
        &&& post.next_state_id == pre.next_state_id + 1
        &&& post.next_saved_id == pre.next_saved_id + pre.points@.len()
    }
}

/// The saved rows of snapshot `state_id`, in their order.
pub open spec fn saved_of(ss: Seq<SavedCanvasPoint>, state_id: u64) -> Seq<SavedCanvasPoint> {
    ss.filter(|s: SavedCanvasPoint| s.state_id == state_id)
}

/// The live points that `load_canvas_state` writes for the saved rows
/// `sel`: one per row, in order, with ids counted up from `first`, owned by
/// the loading identity and stamped with the operation's time.
pub open spec fn restored(sel: Seq<SavedCanvasPoint>, ctx: Ctx, first: u64) -> Seq<CanvasPoint> {
    Seq::new(
        sel.len(),
        |i: int|
            CanvasPoint {
                id: (first + i) as u64,
                identity: ctx.sender,
                x: sel[i].x,
                y: sel[i].y,
                color: sel[i].color,
                size: sel[i].size,
                timestamp: ctx.timestamp,
            },
    )
}

/// What `load_canvas_state` does.
pub open spec fn load_post(pre: Db, post: Db, ctx: Ctx, state_id: u64, r: Result<usize, CanvasError>) -> bool {
    let sel = saved_of(pre.saved@, state_id);
    &&& post.cursors == pre.cursors
    &&& snapshots_unchanged(pre, post)
    &&& if !has_state(pre.states@, state_id) {
        &&& r == Err::<usize, CanvasError>(CanvasError::NotFound)
        &&& post.points@.len() == 0
        &&& post.next_point_id == pre.next_point_id
    } else if pre.next_point_id + sel.len() > u64::MAX {
        r == Err::<usize, CanvasError>(CanvasError::IdsExhausted) && canvas_unchanged(pre, post)
    } else {
        &&& r == Ok::<usize, CanvasError>(sel.len() as usize)
        &&& post.points@ == restored(sel, ctx, pre.next_point_id)
        &&& post.next_point_id == pre.next_point_id + sel.len()
    }
}

/// The position of snapshot `id` in `ss`, where there is one.
pub open spec fn state_index(ss: Seq<CanvasState>, id: u64) -> int {
    choose|i: int| 0 <= i < ss.len() && ss[i].id == id
}

/// The saved rows that survive the deletion of snapshot `state_id`.
pub open spec fn saved_without(ss: Seq<SavedCanvasPoint>, state_id: u64) -> Seq<SavedCanvasPoint> {
    ss.filter(|s: SavedCanvasPoint| s.state_id != state_id)
}

/// What `delete_canvas_state` does.
pub open spec fn delete_post(pre: Db, post: Db, ctx: Ctx, state_id: u64, r: Result<(), CanvasError>) -> bool {
    &&& post.cursors == pre.cursors
    &&& canvas_unchanged(pre, post)
    &&& post.next_state_id == pre.next_state_id
    &&& post.next_saved_id == pre.next_saved_id
    &&& if !has_state(pre.states@, state_id) {
        r == Err::<(), CanvasError>(CanvasError::NotFound) && snapshots_unchanged(pre, post)
    } else if pre.states@[state_index(pre.states@, state_id)].created_by != ctx.sender {
        r == Err::<(), CanvasError>(CanvasError::Forbidden) && snapshots_unchanged(pre, post)
    } else {
        &&& r == Ok::<(), CanvasError>(())
        &&& post.states@ == pre.states@.remove(state_index(pre.states@, state_id))
        &&& post.saved@ == saved_without(pre.saved@, state_id)
    }
}

/// A copy of `s` that verified code can reason about.
fn copy_saved(s: &SavedCanvasPoint) -> (r: SavedCanvasPoint)
    ensures
        r == *s,
{
    SavedCanvasPoint {
        id: s.id,
        state_id: s.state_id,
        x: s.x,
        y: s.y,
        color: copy_string(&s.color),
        size: s.size,
    }
}

/// Finds the position of snapshot `id`.
fn find_state(ss: &Vec<CanvasState>, id: u64) -> (r: Option<usize>)
    requires
        forall|i: int, j: int| 0 <= i < j < ss@.len() ==> ss@[i].id < ss@[j].id,
    ensures
        r is None <==> !has_state(ss@, id),
        r matches Some(i) ==> i < ss@.len() && ss@[i as int].id == id && i == state_index(ss@, id),
{
    let mut i: usize = 0;
    while i < ss.len()
        invariant
            i <= ss@.len(),
            forall|a: int, b: int| 0 <= a < b < ss@.len() ==> ss@[a].id < ss@[b].id,
            forall|k: int| 0 <= k < i ==> ss@[k].id != id,
        decreases ss@.len() - i,
    {
        if ss[i].id == id {
            proof {
                let c = state_index(ss@, id);
                assert(0 <= c < ss@.len() && ss@[c].id == id);
                assert(ss@[i as int].id == id);
                if c > i as int {
                    assert(ss@[i as int].id < ss@[c].id);
                }
            }
            return Some(i);
        }
        i += 1;
    }
    None
}

/// Saves the live canvas as a new snapshot named `name`, created by the
/// acting identity, and returns its id. Every live point is copied, in
/// order, into a saved row of the new snapshot; the live canvas is left as
/// it is. `IdsExhausted`, changing nothing, if a counter cannot supply the
/// ids.
pub fn save_canvas_state(db: &mut Db, ctx: &Ctx, name: String) -> (r: Result<u64, CanvasError>)
    requires
        old(db).wf(),
    ensures
        final(db).wf(),
        ids_advance(*old(db), *final(db)),
        save_post(*old(db), *final(db), *ctx, name, r),
{
    let n = db.points.len();
    if db.next_state_id == u64::MAX || n as u64 > u64::MAX - db.next_saved_id {
        return Err(CanvasError::IdsExhausted);
    }
    let state_id = db.next_state_id;
    let first = db.next_saved_id;
    let ghost pre_saved = db.saved@;
    let ghost copy = saved_copy(db.points@, state_id, first);
    let mut i: usize = 0;
    while i < n
        invariant
            n == db.points@.len(),
            db.points == old(db).points,
            db.states == old(db).states,
            db.cursors == old(db).cursors,
            db.next_point_id == old(db).next_point_id,
            db.next_state_id == old(db).next_state_id,
            db.next_saved_id == old(db).next_saved_id,
            state_id == old(db).next_state_id,
            first == old(db).next_saved_id,
            pre_saved == old(db).saved@,
            copy == saved_copy(old(db).points@, state_id, first),
            first + n <= u64::MAX,
            i <= n,
            db.saved@.len() == pre_saved.len() + i,
            forall|k: int| 0 <= k < pre_saved.len() ==> db.saved@[k] == pre_saved[k],
            forall|k: int| 0 <= k < i ==> db.saved@[pre_saved.len() + k] == copy[k],
        decreases n - i,
    {
        let p = &db.points[i];
        let s = SavedCanvasPoint {
            id: first + i as u64,
            state_id,
            x: p.x,
            y: p.y,
            color: copy_string(&p.color),
            size: p.size,
        };
        db.saved.push(s);
        i += 1;
    }
    db.states.push(CanvasState { id: state_id, name, created_by: ctx.sender, created_at: ctx.timestamp });
    db.next_state_id = state_id + 1;
    db.next_saved_id = first + n as u64;
    proof {
        assert(db.saved@ =~= pre_saved + copy);
        let ss = db.saved@;
        let st = db.states@;
        assert forall|k: int| 0 <= k < ss.len() implies
            old(db).saved@.contains(#[trigger] ss[k]) || ss[k].id >= old(db).next_saved_id by {
            if k < pre_saved.len() {
                assert(ss[k] == pre_saved[k]);
            }
        }
        assert forall|k: int| 0 <= k < st.len() implies
            old(db).states@.contains(#[trigger] st[k]) || st[k].id >= old(db).next_state_id by {
            if k < st.len() - 1 {
                assert(st[k] == old(db).states@[k]);
            }
        }
    }
    Ok(state_id)
}

/// The saved rows of snapshot `state_id`, copied in their order.
fn select_saved(ss: &Vec<SavedCanvasPoint>, state_id: u64) -> (r: Vec<SavedCanvasPoint>)
    ensures
        r@ == saved_of(ss@, state_id),
{
    let ghost pred = |s: SavedCanvasPoint| s.state_id == state_id;
    let mut sel: Vec<SavedCanvasPoint> = Vec::new();
    let mut i: usize = 0;
    while i < ss.len()
        invariant
            i <= ss@.len(),
            pred == (|s: SavedCanvasPoint| s.state_id == state_id),
            sel@ == ss@.take(i as int).filter(pred),
        decreases ss@.len() - i,
    {
        proof {
            assert(ss@.take(i + 1).drop_last() == ss@.take(i as int));
            assert(ss@.take(i + 1).last() == ss@[i as int]);
            reveal(Seq::filter);
        }
        if ss[i].state_id == state_id {
            sel.push(copy_saved(&ss[i]));
        }
        i += 1;
    }
    proof {
        assert(ss@.take(ss@.len() as int) == ss@);
    }
    sel
}

/// The saved rows that do not belong to snapshot `state_id`, copied in
/// their order.
fn saved_excluding(ss: &Vec<SavedCanvasPoint>, state_id: u64, next: u64) -> (r: Vec<SavedCanvasPoint>)
    requires
        saved_ids_ascending(ss@, next),
    ensures
        r@ == saved_without(ss@, state_id),
        saved_ids_ascending(r@, next),
        forall|k: int| 0 <= k < r@.len() ==> ss@.contains(#[trigger] r@[k]),
{
    let ghost pred = |s: SavedCanvasPoint| s.state_id != state_id;
    let mut kept: Vec<SavedCanvasPoint> = Vec::new();
    let mut i: usize = 0;
    while i < ss.len()
        invariant
            i <= ss@.len(),
            saved_ids_ascending(ss@, next),
            pred == (|s: SavedCanvasPoint| s.state_id != state_id),
            kept@ == ss@.take(i as int).filter(pred),
            forall|k: int| 0 <= k < kept@.len() ==> ss@.contains(#[trigger] kept@[k]),
            forall|k1: int, k2: int| 0 <= k1 < k2 < kept@.len() ==> kept@[k1].id < kept@[k2].id,
            forall|k: int| 0 <= k < kept@.len() && i < ss@.len() ==> #[trigger] kept@[k].id < ss@[i as int].id,
        decreases ss@.len() - i,
    {
        proof {
            assert(ss@.take(i + 1).drop_last() == ss@.take(i as int));
            assert(ss@.take(i + 1).last() == ss@[i as int]);
            reveal(Seq::filter);
        }
        let keep = ss[i].state_id != state_id;
        if keep {
            kept.push(copy_saved(&ss[i]));
        }
        i += 1;
        proof {
            assert forall|k: int| 0 <= k < kept@.len() && i < ss@.len() implies #[trigger] kept@[k].id < ss@[i as int].id by {
                assert(ss@[i - 1].id < ss@[i as int].id);
            }
            assert forall|k: int| 0 <= k < kept@.len() implies ss@.contains(#[trigger] kept@[k]) by {
                if k == kept@.len() - 1 && keep {
                    assert(kept@[k] == ss@[i - 1]);
                }
            }
        }
    }
    proof {
        assert(ss@.take(ss@.len() as int) == ss@);
        assert forall|k: int| 0 <= k < kept@.len() implies kept@[k].id < next by {
            assert(ss@.contains(kept@[k]));
        }
    }
    kept
}

/// Replaces the live canvas with snapshot `state_id`: the canvas is cleared,
/// then each saved row of the snapshot, in order, becomes a live point with
/// a fresh id, owned by the acting identity and stamped with the
/// operation's time. Returns how many points were restored.
///
/// `NotFound` if there is no such snapshot: the canvas is still cleared and
/// nothing is restored. `IdsExhausted`, changing nothing, if the point
/// counter cannot supply the ids.
pub fn load_canvas_state(db: &mut Db, ctx: &Ctx, state_id: u64) -> (r: Result<usize, CanvasError>)
    requires
        old(db).wf(),
    ensures
        final(db).wf(),
        ids_advance(*old(db), *final(db)),
        load_post(*old(db), *final(db), *ctx, state_id, r),
{
    if find_state(&db.states, state_id).is_none() {
        db.points = Vec::new();
        return Err(CanvasError::NotFound);
    }
    let sel = select_saved(&db.saved, state_id);
    let n = sel.len();
    if n as u64 > u64::MAX - db.next_point_id {
        return Err(CanvasError::IdsExhausted);
    }
    let first = db.next_point_id;
    let ghost want = restored(sel@, *ctx, first);
    let mut pts: Vec<CanvasPoint> = Vec::new();
    let mut i: usize = 0;
    while i < n
        invariant
            n == sel@.len(),
            first + n <= u64::MAX,
            want == restored(sel@, *ctx, first),
            i <= n,
            pts@.len() == i,
            forall|k: int| 0 <= k < i ==> pts@[k] == want[k],
        decreases n - i,
    {
        let s = &sel[i];
        let p = CanvasPoint {
            id: first + i as u64,
            identity: ctx.sender,
            x: s.x,
            y: s.y,
            color: copy_string(&s.color),
            size: s.size,
            timestamp: ctx.timestamp,
        };
        pts.push(p);
        i += 1;
    }
    proof {
        assert(pts@ =~= want);
    }
    db.points = pts;
    db.next_point_id = first + n as u64;
    Ok(n)
}

/// Deletes snapshot `state_id` with all of its saved rows, if the acting
/// identity created it. `NotFound` if there is no such snapshot and
/// `Forbidden` if another identity created it; either way nothing changes.
pub fn delete_canvas_state(db: &mut Db, ctx: &Ctx, state_id: u64) -> (r: Result<(), CanvasError>)
    requires
        old(db).wf(),
    ensures
        final(db).wf(),
        ids_advance(*old(db), *final(db)),
        delete_post(*old(db), *final(db), *ctx, state_id, r),
{
    let i = match find_state(&db.states, state_id) {
        None => {
            return Err(CanvasError::NotFound);
        },
        Some(i) => i,
    };
    if db.states[i].created_by != ctx.sender {
        return Err(CanvasError::Forbidden);
    }
    let kept = saved_excluding(&db.saved, state_id, db.next_saved_id);
    db.saved = kept;
    db.states.remove(i);
    proof {
        let st = db.states@;
        let pre = old(db).states@;
        assert forall|k: int| 0 <= k < st.len() implies
            pre.contains(#[trigger] st[k]) || st[k].id >= old(db).next_state_id by {
            if k < i {
                assert(st[k] == pre[k]);
            } else {
                assert(st[k] == pre[k + 1]);
            }
        }
        assert forall|a: int, b: int| 0 <= a < b < st.len() implies st[a].id < st[b].id by {
            let pa = if a < i { a } else { a + 1 };
            let pb = if b < i { b } else { b + 1 };
            assert(st[a] == pre[pa]);
            assert(st[b] == pre[pb]);
        }
        assert forall|k: int| 0 <= k < db.saved@.len() implies db.saved@[k].state_id < db.next_state_id by {
            assert(old(db).saved@.contains(db.saved@[k]));
        }
    }
    Ok(())
}

} // verus!
