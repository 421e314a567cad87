use vstd::prelude::*;
use crate::schema::{CanvasPoint, CanvasState, Cursor, SavedCanvasPoint};

verus! {

/// The four tables of the canvas and one id counter for each keyed table.
///
/// Rows of the keyed tables are kept in the order of their ids, and a
/// counter holds the id that the table hands out next: ids are allocated
/// once, in increasing order, and never handed out again.
pub struct Db {
    pub cursors: Vec<Cursor>,
    pub points: Vec<CanvasPoint>,
    pub states: Vec<CanvasState>,
    pub saved: Vec<SavedCanvasPoint>,
    pub next_point_id: u64,
    pub next_state_id: u64,
    pub next_saved_id: u64,
}

/// The id counters of a fresh store start here.
pub const FIRST_ID: u64 = 1;

pub open spec fn identities_unique(cs: Seq<Cursor>) -> bool {
    forall|i: int, j: int| 0 <= i < j < cs.len() ==> cs[i].identity != cs[j].identity
}

pub open spec fn point_ids_ascending(ps: Seq<CanvasPoint>, next: u64) -> bool {
    &&& forall|i: int, j: int| 0 <= i < j < ps.len() ==> ps[i].id < ps[j].id
    &&& forall|i: int| 0 <= i < ps.len() ==> ps[i].id < next
}

pub open spec fn state_ids_ascending(ss: Seq<CanvasState>, next: u64) -> bool {
    &&& forall|i: int, j: int| 0 <= i < j < ss.len() ==> ss[i].id < ss[j].id
    &&& forall|i: int| 0 <= i < ss.len() ==> ss[i].id < next
}

pub open spec fn saved_ids_ascending(ss: Seq<SavedCanvasPoint>, next: u64) -> bool {
    &&& forall|i: int, j: int| 0 <= i < j < ss.len() ==> ss[i].id < ss[j].id
    &&& forall|i: int| 0 <= i < ss.len() ==> ss[i].id < next
}

/// Whether `ss` holds a snapshot with id `id`.
pub open spec fn has_state(ss: Seq<CanvasState>, id: u64) -> bool {
    exists|i: int| 0 <= i < ss.len() && ss[i].id == id
}

impl Db {
    /// The store's invariant: one cursor per identity, ids ascending and
    /// below their counter, and every saved point tagged with an id that the
    /// snapshot counter has already handed out.
    pub open spec fn wf(&self) -> bool {
        &&& identities_unique(self.cursors@)
        &&& point_ids_ascending(self.points@, self.next_point_id)
        &&& state_ids_ascending(self.states@, self.next_state_id)
        &&& saved_ids_ascending(self.saved@, self.next_saved_id)
        &&& forall|i: int| 0 <= i < self.saved@.len() ==> self.saved@[i].state_id < self.next_state_id
    }

    /// An empty store whose counters start at `FIRST_ID`.
    pub fn new() -> (r: Db)
        ensures
            r.wf(),
            r.cursors@.len() == 0,
            r.points@.len() == 0,
            r.states@.len() == 0,
            r.saved@.len() == 0,
            r.next_point_id == FIRST_ID,
            r.next_state_id == FIRST_ID,
            r.next_saved_id == FIRST_ID,
    {
        Db {
            cursors: Vec::new(),
            points: Vec::new(),
            states: Vec::new(),
            saved: Vec::new(),
            next_point_id: FIRST_ID,
            next_state_id: FIRST_ID,
            next_saved_id: FIRST_ID,
        }
    }
}

/// No table's counter went back, and every row of `b` was either a row of
/// `a` already or got an id that `a`'s counter had not handed out yet.
pub open spec fn ids_advance(a: Db, b: Db) -> bool {
    &&& a.next_point_id <= b.next_point_id
    &&& a.next_state_id <= b.next_state_id
    &&& a.next_saved_id <= b.next_saved_id
    &&& forall|i: int| 0 <= i < b.points@.len() ==>
        a.points@.contains(#[trigger] b.points@[i]) || b.points@[i].id >= a.next_point_id
    &&& forall|i: int| 0 <= i < b.states@.len() ==>
        a.states@.contains(#[trigger] b.states@[i]) || b.states@[i].id >= a.next_state_id
    &&& forall|i: int| 0 <= i < b.saved@.len() ==>
        a.saved@.contains(#[trigger] b.saved@[i]) || b.saved@[i].id >= a.next_saved_id
}

/// The live canvas and its counter are the same in `a` and `b`.
pub open spec fn canvas_unchanged(a: Db, b: Db) -> bool {
    a.points == b.points && a.next_point_id == b.next_point_id
}

/// The snapshot tables and their counters are the same in `a` and `b`.
pub open spec fn snapshots_unchanged(a: Db, b: Db) -> bool {
    &&& a.states == b.states
    &&& a.saved == b.saved
    &&& a.next_state_id == b.next_state_id
    &&& a.next_saved_id == b.next_saved_id
}

/// A copy of `s` that verified code can reason about.
pub fn copy_string(s: &String) -> (r: String)
    ensures
        r == *s,
{
    s.clone()
}

/// Whether `ids` ascends strictly and stays below `next`.
pub open spec fn ids_ascending_below(ids: Seq<u64>, next: u64) -> bool {
    &&& forall|i: int, j: int| 0 <= i < j < ids.len() ==> ids[i] < ids[j]
    &&& forall|i: int| 0 <= i < ids.len() ==> ids[i] < next
}

/// Decides `ids_ascending_below` by comparing neighbours.
fn check_ids(ids: &Vec<u64>, next: u64) -> (r: bool)
    ensures
        r == ids_ascending_below(ids@, next),
{
    let mut k: usize = 0;
    while k < ids.len()
        invariant
            k <= ids@.len(),
            forall|i: int, j: int| 0 <= i < j < k ==> ids@[i] < ids@[j],
            forall|i: int| 0 <= i < k ==> ids@[i] < next,
        decreases ids@.len() - k,
    {
        if ids[k] >= next {
            return false;
        }
        if k > 0 && ids[k - 1] >= ids[k] {
            return false;
        }
        proof {
            assert forall|i: int, j: int| 0 <= i < j < k + 1 implies ids@[i] < ids@[j] by {
                if j == k as int && i < k - 1 {
                    assert(ids@[i] < ids@[k - 1]);
                }
            }
        }
        k += 1;
    }
    true
}

/// Decides `identities_unique` by comparing every pair.
fn check_identities(cs: &Vec<Cursor>) -> (r: bool)
    ensures
        r == identities_unique(cs@),
{
    let mut j: usize = 0;
    while j < cs.len()
        invariant
            j <= cs@.len(),
            forall|a: int, b: int| 0 <= a < b < j ==> cs@[a].identity != cs@[b].identity,
        decreases cs@.len() - j,
    {
        let mut i: usize = 0;
        while i < j
            invariant
                i <= j < cs@.len(),
                forall|a: int, b: int| 0 <= a < b < j ==> cs@[a].identity != cs@[b].identity,
                forall|a: int| 0 <= a < i ==> cs@[a].identity != cs@[j as int].identity,
            decreases j - i,
        {
            if cs[i].identity == cs[j].identity {
                return false;
            }
            i += 1;
        }
        j += 1;
    }
    true
}

impl Db {
    /// Builds a store from rows kept elsewhere and the counters' values;
    /// `None` if they break the store's invariant.
    pub fn from_rows(
        cursors: Vec<Cursor>,
        points: Vec<CanvasPoint>,
        states: Vec<CanvasState>,
        saved: Vec<SavedCanvasPoint>,
        next_point_id: u64,
        next_state_id: u64,
        next_saved_id: u64,
    ) -> (r: Option<Db>)
        ensures
            r is Some <==> (Db { cursors, points, states, saved, next_point_id, next_state_id, next_saved_id }).wf(),
            r matches Some(db) ==> db == (Db { cursors, points, states, saved, next_point_id, next_state_id, next_saved_id }),
    {
        let mut pids: Vec<u64> = Vec::new();
        let mut k: usize = 0;
        while k < points.len()
            invariant
                k <= points@.len(),
                pids@.len() == k,
                forall|i: int| #![trigger pids@[i]] #![trigger points@[i]] 0 <= i < k ==> pids@[i] == points@[i].id,
            decreases points@.len() - k,
        {
            pids.push(points[k].id);
            k += 1;
        }
        let points_ok = check_ids(&pids, next_point_id);
        assert(points_ok == point_ids_ascending(points@, next_point_id));
        let mut sids: Vec<u64> = Vec::new();
        let mut k: usize = 0;
        while k < states.len()
            invariant
                k <= states@.len(),
                sids@.len() == k,
                forall|i: int| #![trigger sids@[i]] #![trigger states@[i]] 0 <= i < k ==> sids@[i] == states@[i].id,
            decreases states@.len() - k,
        {
            sids.push(states[k].id);
            k += 1;
        }
        let states_ok = check_ids(&sids, next_state_id);
        assert(states_ok == state_ids_ascending(states@, next_state_id));
        let mut vids: Vec<u64> = Vec::new();
        let mut tags_ok = true;
        let mut k: usize = 0;
        while k < saved.len()
            invariant
                k <= saved@.len(),
                vids@.len() == k,
                forall|i: int| #![trigger vids@[i]] #![trigger saved@[i]] 0 <= i < k ==> vids@[i] == saved@[i].id,
                tags_ok == forall|i: int| 0 <= i < k ==> saved@[i].state_id < next_state_id,
            decreases saved@.len() - k,
        {
            vids.push(saved[k].id);
            if saved[k].state_id >= next_state_id {
                tags_ok = false;
            }
            k += 1;
        }
        let saved_ok = check_ids(&vids, next_saved_id);
        assert(saved_ok == saved_ids_ascending(saved@, next_saved_id));
        let ok = check_identities(&cursors) && points_ok && states_ok && saved_ok && tags_ok;
        if ok {
            Some(Db { cursors, points, states, saved, next_point_id, next_state_id, next_saved_id })
        } else {
            None
        }
    }
}

} // verus!
