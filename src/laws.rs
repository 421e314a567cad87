use vstd::prelude::*;
use crate::canvas::{clear_post, erase_post};
use crate::cursor::{connect_post, disconnect_post, exactly_one_cursor, has_cursor, update_cursor_post};
use crate::schema::{CanvasError, CanvasPoint, Ctx, Scalar};
use crate::snapshot::{delete_post, load_post, save_post, saved_of, state_index};
use crate::store::{has_state, ids_advance, Db};

verus! {

/// What a live point looks like on screen: its position, color and size.
pub open spec fn strokes(ps: Seq<CanvasPoint>) -> Seq<(Scalar, Scalar, String, Scalar)> {
    ps.map_values(|p: CanvasPoint| (p.x, p.y, p.color, p.size))
}

/// Filtering keeps a sequence whole when every element passes.
proof fn lemma_filter_keeps_all<A>(s: Seq<A>, pred: spec_fn(A) -> bool)
    requires
        forall|i: int| 0 <= i < s.len() ==> pred(s[i]),
    ensures
        s.filter(pred) == s,
    decreases s.len(),
{
    reveal(Seq::filter);
    if s.len() > 0 {
        lemma_filter_keeps_all(s.drop_last(), pred);
        assert(s.drop_last().push(s.last()) =~= s);
    }
}

/// Filtering empties a sequence when no element passes.
proof fn lemma_filter_drops_all<A>(s: Seq<A>, pred: spec_fn(A) -> bool)
    requires
        forall|i: int| 0 <= i < s.len() ==> !pred(s[i]),
    ensures
        s.filter(pred).len() == 0,
    decreases s.len(),
{
    reveal(Seq::filter);
    if s.len() > 0 {
        lemma_filter_drops_all(s.drop_last(), pred);
    }
}

/// After a connection the identity has exactly one cursor, whether or not
/// it had one before; after the matching disconnection it has none.
pub proof fn lemma_connect_then_disconnect(
    a: Db,
    b: Db,
    c: Db,
    ctx_in: Ctx,
    ctx_out: Ctx,
    r_in: Result<(), CanvasError>,
    r_out: Result<(), CanvasError>,
)
    requires
        a.wf(),
        b.wf(),
        ctx_out.sender == ctx_in.sender,
        connect_post(a, b, ctx_in, r_in),
        disconnect_post(b, c, ctx_out, r_out),
    ensures
        exactly_one_cursor(b.cursors@, ctx_in.sender),
        !has_cursor(c.cursors@, ctx_in.sender),
{
    let who = ctx_in.sender;
    let bs = b.cursors@;
    if !has_cursor(a.cursors@, who) {
        assert(bs[bs.len() - 1].identity == who);
    }
    let i = choose|i: int| 0 <= i < bs.len() && bs[i].identity == who;
    assert forall|j: int| 0 <= j < bs.len() && bs[j].identity == who implies j == i by {
        if j < i {
            assert(bs[j].identity != bs[i].identity);
        } else if j > i {
            assert(bs[i].identity != bs[j].identity);
        }
    }
    let cs = c.cursors@;
    let k = choose|k: int| 0 <= k < bs.len() && bs[k].identity == who;
    assert(k == i);
    assert forall|j: int| 0 <= j < cs.len() implies cs[j].identity != who by {
        if j < i {
            assert(cs[j] == bs[j]);
        } else {
            assert(cs[j] == bs[j + 1]);
        }
    }
}

/// Moving the cursor of an identity that has none changes no cursor.
pub proof fn lemma_update_without_cursor(
    a: Db,
    b: Db,
    ctx: Ctx,
    x: Scalar,
    y: Scalar,
    color: String,
    size: Scalar,
    r: Result<(), CanvasError>,
)
    requires
        update_cursor_post(a, b, ctx, x, y, color, size, r),
        !has_cursor(a.cursors@, ctx.sender),
    ensures
        b.cursors == a.cursors,
        r == Err::<(), CanvasError>(CanvasError::NotFound),
{
}

/// An erase removes a live point exactly when its id is marked, and adds
/// none: every point it keeps was live before.
pub proof fn lemma_erase_removes_exactly_the_marked(a: Db, b: Db, doomed: Seq<u64>)
    requires
        erase_post(a, b, doomed),
    ensures
        forall|i: int| 0 <= i < a.points@.len() ==>
            (b.points@.contains(#[trigger] a.points@[i]) <==> !doomed.contains(a.points@[i].id)),
        forall|i: int| 0 <= i < b.points@.len() ==>
            !doomed.contains(#[trigger] b.points@[i].id) && a.points@.contains(b.points@[i]),
{
    broadcast use vstd::seq_lib::group_filter_ensures;
    let pred = |p: CanvasPoint| !doomed.contains(p.id);
    assert(b.points@ == a.points@.filter(pred));
    assert forall|i: int| 0 <= i < a.points@.len() implies
        (b.points@.contains(#[trigger] a.points@[i]) <==> !doomed.contains(a.points@[i].id)) by {
        if b.points@.contains(a.points@[i]) {
            let j = choose|j: int| 0 <= j < b.points@.len() && b.points@[j] == a.points@[i];
            assert(pred(b.points@[j]));
        }
    }
    assert forall|i: int| 0 <= i < b.points@.len() implies
        !doomed.contains(#[trigger] b.points@[i].id) && a.points@.contains(b.points@[i]) by {
        assert(pred(b.points@[i]));
        lemma_filter_member_in_source(a.points@, pred, i);
    }
}

/// Every element of a filtered sequence comes from the source.
proof fn lemma_filter_member_in_source<A>(s: Seq<A>, pred: spec_fn(A) -> bool, i: int)
    requires
        0 <= i < s.filter(pred).len(),
    ensures
        s.contains(s.filter(pred)[i]),
    decreases s.len(),
{
    reveal(Seq::filter);
    if s.len() > 0 {
        let sub = s.drop_last().filter(pred);
        if i < sub.len() {
            lemma_filter_member_in_source(s.drop_last(), pred, i);
            let j = choose|j: int| 0 <= j < s.drop_last().len() && s.drop_last()[j] == sub[i];
            assert(s[j] == sub[i]);
        } else {
            assert(s[s.len() - 1] == s.filter(pred)[i]);
        }
    }
}

/// Saving, clearing and loading the new snapshot gives back the saved
/// canvas point for point (position, color and size, in order), now owned
/// by the loading identity under fresh ids. The load succeeds unless the
/// point counter cannot supply the ids.
pub proof fn lemma_save_clear_load(
    a: Db,
    b: Db,
    c: Db,
    d: Db,
    ctx_save: Ctx,
    ctx_load: Ctx,
    name: String,
    state_id: u64,
    r_load: Result<usize, CanvasError>,
)
    requires
        a.wf(),
        save_post(a, b, ctx_save, name, Ok::<u64, CanvasError>(state_id)),
        clear_post(b, c),
        load_post(c, d, ctx_load, state_id, r_load),
    ensures
        r_load is Ok <==> c.next_point_id + a.points@.len() <= u64::MAX,
        r_load is Ok ==> {
            &&& strokes(d.points@) == strokes(a.points@)
            &&& forall|i: int| 0 <= i < d.points@.len() ==>
                (#[trigger] d.points@[i]).identity == ctx_load.sender && d.points@[i].id >= c.next_point_id
        },
{
    lemma_saved_snapshot_holds_the_canvas(a, b, ctx_save, name, state_id);
    let sel = saved_of(c.saved@, state_id);
    let st = c.states@;
    assert(st[st.len() - 1].id == state_id);
    assert(has_state(st, state_id));
    if r_load is Ok {
        assert(strokes(d.points@) =~= strokes(a.points@));
    }
}

/// The rows that a save writes are exactly the saved rows of the new
/// snapshot, and the new snapshot exists.
proof fn lemma_saved_snapshot_holds_the_canvas(a: Db, b: Db, ctx: Ctx, name: String, state_id: u64)
    requires
        a.wf(),
        save_post(a, b, ctx, name, Ok::<u64, CanvasError>(state_id)),
    ensures
        saved_of(b.saved@, state_id).len() == a.points@.len(),
        forall|i: int| 0 <= i < a.points@.len() ==> {
            let s = #[trigger] saved_of(b.saved@, state_id)[i];
            s.x == a.points@[i].x && s.y == a.points@[i].y && s.color == a.points@[i].color
                && s.size == a.points@[i].size
        },
        has_state(b.states@, state_id),
{
    let pred = |s: crate::schema::SavedCanvasPoint| s.state_id == state_id;
    let copy = crate::snapshot::saved_copy(a.points@, state_id, a.next_saved_id);
    assert(b.saved@ == a.saved@ + copy);
    Seq::filter_distributes_over_add(a.saved@, copy, pred);
    lemma_filter_drops_all(a.saved@, pred);
    lemma_filter_keeps_all(copy, pred);
    assert(a.saved@.filter(pred) + copy =~= copy);
    let st = b.states@;
    assert(st[st.len() - 1].id == state_id);
}

/// Saving an empty canvas and loading the snapshot leaves the canvas empty.
pub proof fn lemma_empty_save_load(
    a: Db,
    b: Db,
    c: Db,
    ctx_save: Ctx,
    ctx_load: Ctx,
    name: String,
    state_id: u64,
    r_load: Result<usize, CanvasError>,
)
    requires
        a.wf(),
        a.points@.len() == 0,
        save_post(a, b, ctx_save, name, Ok::<u64, CanvasError>(state_id)),
        load_post(b, c, ctx_load, state_id, r_load),
    ensures
        r_load == Ok::<usize, CanvasError>(0),
        c.points@.len() == 0,
{
    lemma_saved_snapshot_holds_the_canvas(a, b, ctx_save, name, state_id);
}

/// A delete by an identity that created no snapshot under that id leaves
/// the snapshot tables as they were.
pub proof fn lemma_delete_by_other(a: Db, b: Db, ctx: Ctx, state_id: u64, r: Result<(), CanvasError>)
    requires
        delete_post(a, b, ctx, state_id, r),
        forall|i: int| 0 <= i < a.states@.len() && a.states@[i].id == state_id ==>
            a.states@[i].created_by != ctx.sender,
    ensures
        b.states == a.states,
        b.saved == a.saved,
        r is Err,
{
    if has_state(a.states@, state_id) {
        let i = state_index(a.states@, state_id);
        assert(a.states@[i].created_by != ctx.sender);
    }
}

/// Loading a snapshot that does not exist clears the canvas and restores
/// nothing.
pub proof fn lemma_load_missing(a: Db, b: Db, ctx: Ctx, state_id: u64, r: Result<usize, CanvasError>)
    requires
        load_post(a, b, ctx, state_id, r),
        !has_state(a.states@, state_id),
    ensures
        b.points@.len() == 0,
        r == Err::<usize, CanvasError>(CanvasError::NotFound),
{
}

/// Id allocation composes over a run of operations: what holds of one
/// step holds of any number of them.
pub proof fn lemma_ids_advance_compose(a: Db, b: Db, c: Db)
    requires
        ids_advance(a, b),
        ids_advance(b, c),
    ensures
        ids_advance(a, c),
{
    assert forall|i: int| 0 <= i < c.points@.len() implies
        a.points@.contains(#[trigger] c.points@[i]) || c.points@[i].id >= a.next_point_id by {
        if b.points@.contains(c.points@[i]) {
            let j = choose|j: int| 0 <= j < b.points@.len() && b.points@[j] == c.points@[i];
            assert(a.points@.contains(b.points@[j]) || b.points@[j].id >= a.next_point_id);
        }
    }
    assert forall|i: int| 0 <= i < c.states@.len() implies
        a.states@.contains(#[trigger] c.states@[i]) || c.states@[i].id >= a.next_state_id by {
        if b.states@.contains(c.states@[i]) {
            let j = choose|j: int| 0 <= j < b.states@.len() && b.states@[j] == c.states@[i];
            assert(a.states@.contains(b.states@[j]) || b.states@[j].id >= a.next_state_id);
        }
    }
    assert forall|i: int| 0 <= i < c.saved@.len() implies
        a.saved@.contains(#[trigger] c.saved@[i]) || c.saved@[i].id >= a.next_saved_id by {
        if b.saved@.contains(c.saved@[i]) {
            let j = choose|j: int| 0 <= j < b.saved@.len() && b.saved@[j] == c.saved@[i];
            assert(a.saved@.contains(b.saved@[j]) || b.saved@[j].id >= a.next_saved_id);
        }
    }
}

/// Ids only grow: a row that a run of operations adds has an id above the
/// id of every row of the same table before the run.
pub proof fn lemma_new_ids_exceed_old(a: Db, b: Db)
    requires
        a.wf(),
        ids_advance(a, b),
    ensures
        forall|i: int, j: int| 0 <= i < b.points@.len() && 0 <= j < a.points@.len()
            && !a.points@.contains(b.points@[i]) ==> #[trigger] a.points@[j].id < #[trigger] b.points@[i].id,
        forall|i: int, j: int| 0 <= i < b.states@.len() && 0 <= j < a.states@.len()
            && !a.states@.contains(b.states@[i]) ==> #[trigger] a.states@[j].id < #[trigger] b.states@[i].id,
        forall|i: int, j: int| 0 <= i < b.saved@.len() && 0 <= j < a.saved@.len()
            && !a.saved@.contains(b.saved@[i]) ==> #[trigger] a.saved@[j].id < #[trigger] b.saved@[i].id,
{
}

/// Ids are never reused: an id that had been handed out and is no longer
/// in use before a run of operations is in use by no row after it.
pub proof fn lemma_freed_ids_stay_free(a: Db, b: Db, point_id: u64, state_id: u64, saved_id: u64)
    requires
        ids_advance(a, b),
        point_id < a.next_point_id,
        state_id < a.next_state_id,
        saved_id < a.next_saved_id,
    ensures
        (forall|i: int| 0 <= i < a.points@.len() ==> a.points@[i].id != point_id) ==>
            forall|i: int| 0 <= i < b.points@.len() ==> b.points@[i].id != point_id,
        (forall|i: int| 0 <= i < a.states@.len() ==> a.states@[i].id != state_id) ==>
            forall|i: int| 0 <= i < b.states@.len() ==> b.states@[i].id != state_id,
        (forall|i: int| 0 <= i < a.saved@.len() ==> a.saved@[i].id != saved_id) ==>
            forall|i: int| 0 <= i < b.saved@.len() ==> b.saved@[i].id != saved_id,
{
    if forall|i: int| 0 <= i < a.points@.len() ==> a.points@[i].id != point_id {
        assert forall|i: int| 0 <= i < b.points@.len() implies b.points@[i].id != point_id by {
            if a.points@.contains(b.points@[i]) {
                let j = choose|j: int| 0 <= j < a.points@.len() && a.points@[j] == b.points@[i];
                assert(a.points@[j].id != point_id);
            }
        }
    }
    if forall|i: int| 0 <= i < a.states@.len() ==> a.states@[i].id != state_id {
        assert forall|i: int| 0 <= i < b.states@.len() implies b.states@[i].id != state_id by {
            if a.states@.contains(b.states@[i]) {
                let j = choose|j: int| 0 <= j < a.states@.len() && a.states@[j] == b.states@[i];
                assert(a.states@[j].id != state_id);
            }
        }
    }
    if forall|i: int| 0 <= i < a.saved@.len() ==> a.saved@[i].id != saved_id {
        assert forall|i: int| 0 <= i < b.saved@.len() implies b.saved@[i].id != saved_id by {
            if a.saved@.contains(b.saved@[i]) {
                let j = choose|j: int| 0 <= j < a.saved@.len() && a.saved@[j] == b.saved@[i];
                assert(a.saved@[j].id != saved_id);
            }
        }
    }
}

} // verus!
