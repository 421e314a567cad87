use canvas_state::{
    add_drawing_point, clear_canvas, delete_canvas_state, erase_points, identity_connected,
    identity_disconnected, load_canvas_state, save_canvas_state, update_cursor, CanvasError,
    CanvasPoint, Ctx, Db, Scalar, UserId,
};

fn user(n: u128) -> UserId {
    UserId { hi: 0, lo: n }
}

fn ctx(n: u128, t: i64) -> Ctx {
    Ctx { sender: user(n), timestamp: t }
}

fn s(v: f32) -> Scalar {
    Scalar { bits: v.to_bits() }
}

fn val(v: Scalar) -> f32 {
    f32::from_bits(v.bits)
}

/// The ids of the live points that an eraser at `(x, y)` with radius `r`
/// reaches, by the squared-distance rule.
fn reached(points: &[CanvasPoint], x: f32, y: f32, r: f32) -> Vec<u64> {
    let mut ids = Vec::new();
    for p in points {
        let dx = val(p.x) - x;
        let dy = val(p.y) - y;
        let reach = r + val(p.size);
        if dx * dx + dy * dy <= reach * reach {
            ids.push(p.id);
        }
    }
    ids
}

fn draw(db: &mut Db, c: &Ctx, x: f32, y: f32, color: &str, size: f32) -> u64 {
    add_drawing_point(db, c, s(x), s(y), color.to_string(), s(size)).unwrap()
}

#[test]
fn connect_opens_default_cursor() {
    let mut db = Db::new();
    assert_eq!(identity_connected(&mut db, &ctx(1, 50)), Ok(()));
    assert_eq!(db.cursors.len(), 1);
    let c = &db.cursors[0];
    assert_eq!(c.identity, user(1));
    assert_eq!(val(c.x), 0.0);
    assert_eq!(val(c.y), 0.0);
    assert_eq!(c.color, "#000000");
    assert_eq!(val(c.size), 3.0);
    assert_eq!(c.last_updated, 50);
}

#[test]
fn connect_twice_is_refused() {
    let mut db = Db::new();
    identity_connected(&mut db, &ctx(1, 1)).unwrap();
    assert_eq!(identity_connected(&mut db, &ctx(1, 2)), Err(CanvasError::AlreadyConnected));
    assert_eq!(db.cursors.len(), 1);
    assert_eq!(db.cursors[0].last_updated, 1);
}

#[test]
fn connect_then_disconnect_leaves_no_cursor() {
    let mut db = Db::new();
    identity_connected(&mut db, &ctx(1, 1)).unwrap();
    identity_connected(&mut db, &ctx(2, 1)).unwrap();
    assert_eq!(db.cursors.iter().filter(|c| c.identity == user(1)).count(), 1);
    assert_eq!(identity_disconnected(&mut db, &ctx(1, 2)), Ok(()));
    assert_eq!(db.cursors.iter().filter(|c| c.identity == user(1)).count(), 0);
    assert_eq!(db.cursors.len(), 1);
    assert_eq!(db.cursors[0].identity, user(2));
    assert_eq!(identity_disconnected(&mut db, &ctx(1, 3)), Err(CanvasError::NotFound));
    assert_eq!(db.cursors.len(), 1);
}

#[test]
fn update_cursor_overwrites_all_fields() {
    let mut db = Db::new();
    identity_connected(&mut db, &ctx(1, 1)).unwrap();
    let r = update_cursor(&mut db, &ctx(1, 9), s(4.5), s(-2.0), "#ff0000".to_string(), s(7.0));
    assert_eq!(r, Ok(()));
    let c = &db.cursors[0];
    assert_eq!(val(c.x), 4.5);
    assert_eq!(val(c.y), -2.0);
    assert_eq!(c.color, "#ff0000");
    assert_eq!(val(c.size), 7.0);
    assert_eq!(c.last_updated, 9);
}

#[test]
fn update_cursor_when_disconnected_changes_nothing() {
    let mut db = Db::new();
    identity_connected(&mut db, &ctx(2, 1)).unwrap();
    let before = db.cursors.clone();
    let r = update_cursor(&mut db, &ctx(1, 9), s(4.5), s(2.0), "#ff0000".to_string(), s(7.0));
    assert_eq!(r, Err(CanvasError::NotFound));
    assert_eq!(db.cursors, before);
}

#[test]
fn add_point_assigns_increasing_ids() {
    let mut db = Db::new();
    let c = ctx(1, 5);
    assert_eq!(draw(&mut db, &c, 1.0, 2.0, "#111111", 2.0), 1);
    assert_eq!(draw(&mut db, &c, 3.0, 4.0, "#222222", 2.0), 2);
    let p = &db.points[1];
    assert_eq!(p.id, 2);
    assert_eq!(p.identity, user(1));
    assert_eq!((val(p.x), val(p.y), val(p.size)), (3.0, 4.0, 2.0));
    assert_eq!(p.color, "#222222");
    assert_eq!(p.timestamp, 5);
    assert_eq!(db.next_point_id, 3);
}

#[test]
fn add_point_with_spent_counter_fails() {
    let mut db = Db::new();
    db.next_point_id = u64::MAX;
    let r = add_drawing_point(&mut db, &ctx(1, 1), s(0.0), s(0.0), "#000000".to_string(), s(1.0));
    assert_eq!(r, Err(CanvasError::IdsExhausted));
    assert!(db.points.is_empty());
    assert_eq!(db.next_point_id, u64::MAX);
}

#[test]
fn erase_removes_point_on_equal_reach() {
    let mut db = Db::new();
    draw(&mut db, &ctx(1, 1), 10.0, 10.0, "#000000", 2.0);
    let hit = reached(&db.points, 10.0, 10.0, 0.0);
    erase_points(&mut db, &hit);
    assert!(db.points.is_empty());
}

#[test]
fn erase_keeps_point_out_of_reach() {
    let mut db = Db::new();
    draw(&mut db, &ctx(1, 1), 13.0, 10.0, "#000000", 0.0);
    let hit = reached(&db.points, 10.0, 10.0, 2.0);
    assert!(hit.is_empty());
    erase_points(&mut db, &hit);
    assert_eq!(db.points.len(), 1);
}

#[test]
fn erase_removes_exactly_the_marked_points() {
    let mut db = Db::new();
    let c = ctx(1, 1);
    draw(&mut db, &c, 0.0, 0.0, "#000000", 1.0);
    draw(&mut db, &c, 50.0, 50.0, "#000000", 1.0);
    draw(&mut db, &c, 1.0, 1.0, "#000000", 1.0);
    draw(&mut db, &c, 100.0, 0.0, "#000000", 1.0);
    let hit = reached(&db.points, 0.0, 0.0, 2.0);
    assert_eq!(hit, vec![1, 3]);
    erase_points(&mut db, &hit);
    let ids: Vec<u64> = db.points.iter().map(|p| p.id).collect();
    assert_eq!(ids, vec![2, 4]);
}

#[test]
fn clear_empties_canvas_and_keeps_counter() {
    let mut db = Db::new();
    let c = ctx(1, 1);
    draw(&mut db, &c, 0.0, 0.0, "#000000", 1.0);
    draw(&mut db, &c, 1.0, 0.0, "#000000", 1.0);
    clear_canvas(&mut db);
    assert!(db.points.is_empty());
    clear_canvas(&mut db);
    assert!(db.points.is_empty());
    assert_eq!(draw(&mut db, &c, 0.0, 0.0, "#000000", 1.0), 3);
}

#[test]
fn ids_are_never_reused() {
    let mut db = Db::new();
    let c = ctx(1, 1);
    let mut last = 0;
    for round in 0..5 {
        for k in 0..3 {
            let id = draw(&mut db, &c, k as f32, round as f32, "#000000", 1.0);
            assert!(id > last);
            last = id;
        }
        let sid = save_canvas_state(&mut db, &c, format!("s{}", round)).unwrap();
        assert_eq!(sid, round + 1);
        assert_eq!(delete_canvas_state(&mut db, &c, sid), Ok(()));
        clear_canvas(&mut db);
    }
    assert_eq!(last, 15);
    assert_eq!(db.next_state_id, 6);
    assert_eq!(db.next_saved_id, 16);
    let sid = save_canvas_state(&mut db, &c, "again".to_string()).unwrap();
    assert_eq!(sid, 6);
}

#[test]
fn save_copies_the_live_canvas() {
    let mut db = Db::new();
    let c = ctx(1, 1);
    draw(&mut db, &c, 1.0, 2.0, "#aa0000", 3.0);
    draw(&mut db, &c, 4.0, 5.0, "#00bb00", 6.0);
    let sid = save_canvas_state(&mut db, &ctx(2, 7), "first".to_string()).unwrap();
    assert_eq!(sid, 1);
    assert_eq!(db.states.len(), 1);
    assert_eq!(db.states[0].name, "first");
    assert_eq!(db.states[0].created_by, user(2));
    assert_eq!(db.states[0].created_at, 7);
    assert_eq!(db.saved.len(), 2);
    assert_eq!(db.saved[1].id, 2);
    assert_eq!(db.saved[1].state_id, 1);
    assert_eq!(db.saved[1].color, "#00bb00");
    assert_eq!((val(db.saved[1].x), val(db.saved[1].y), val(db.saved[1].size)), (4.0, 5.0, 6.0));
    assert_eq!(db.points.len(), 2);
}

#[test]
fn save_clear_load_round_trip() {
    let mut db = Db::new();
    let c = ctx(1, 1);
    draw(&mut db, &c, 1.0, 2.0, "#aa0000", 3.0);
    draw(&mut db, &c, -4.0, 5.5, "#00bb00", 6.0);
    let before: Vec<(u32, u32, String, u32)> =
        db.points.iter().map(|p| (p.x.bits, p.y.bits, p.color.clone(), p.size.bits)).collect();
    let sid = save_canvas_state(&mut db, &c, "art".to_string()).unwrap();
    clear_canvas(&mut db);
    assert_eq!(load_canvas_state(&mut db, &ctx(2, 40), sid), Ok(2));
    let after: Vec<(u32, u32, String, u32)> =
        db.points.iter().map(|p| (p.x.bits, p.y.bits, p.color.clone(), p.size.bits)).collect();
    assert_eq!(after, before);
    let ids: Vec<u64> = db.points.iter().map(|p| p.id).collect();
    assert_eq!(ids, vec![3, 4]);
    assert!(db.points.iter().all(|p| p.identity == user(2) && p.timestamp == 40));
}

#[test]
fn load_restores_only_its_own_snapshot() {
    let mut db = Db::new();
    let c = ctx(1, 1);
    draw(&mut db, &c, 1.0, 1.0, "#000001", 1.0);
    let first = save_canvas_state(&mut db, &c, "one".to_string()).unwrap();
    draw(&mut db, &c, 2.0, 2.0, "#000002", 1.0);
    let second = save_canvas_state(&mut db, &c, "two".to_string()).unwrap();
    assert_eq!(load_canvas_state(&mut db, &c, first), Ok(1));
    assert_eq!(db.points.len(), 1);
    assert_eq!(db.points[0].color, "#000001");
    assert_eq!(load_canvas_state(&mut db, &c, second), Ok(2));
    assert_eq!(db.points.len(), 2);
}

#[test]
fn empty_save_then_load_is_empty() {
    let mut db = Db::new();
    let c = ctx(1, 1);
    let sid = save_canvas_state(&mut db, &c, "blank".to_string()).unwrap();
    assert!(db.saved.is_empty());
    assert_eq!(load_canvas_state(&mut db, &c, sid), Ok(0));
    assert!(db.points.is_empty());
}

#[test]
fn load_missing_state_still_clears() {
    let mut db = Db::new();
    let c = ctx(1, 1);
    draw(&mut db, &c, 1.0, 1.0, "#000000", 1.0);
    assert_eq!(load_canvas_state(&mut db, &c, 99), Err(CanvasError::NotFound));
    assert!(db.points.is_empty());
    assert_eq!(db.next_point_id, 2);
}

#[test]
fn load_with_spent_counter_changes_nothing() {
    let mut db = Db::new();
    let c = ctx(1, 1);
    draw(&mut db, &c, 1.0, 1.0, "#000000", 1.0);
    let sid = save_canvas_state(&mut db, &c, "x".to_string()).unwrap();
    db.next_point_id = u64::MAX;
    assert_eq!(load_canvas_state(&mut db, &c, sid), Err(CanvasError::IdsExhausted));
    assert_eq!(db.points.len(), 1);
}

#[test]
fn save_with_spent_counter_changes_nothing() {
    let mut db = Db::new();
    let c = ctx(1, 1);
    draw(&mut db, &c, 1.0, 1.0, "#000000", 1.0);
    db.next_saved_id = u64::MAX;
    assert_eq!(save_canvas_state(&mut db, &c, "x".to_string()), Err(CanvasError::IdsExhausted));
    assert!(db.states.is_empty());
    assert!(db.saved.is_empty());
    assert_eq!(db.next_state_id, 1);
}

#[test]
fn delete_by_other_identity_is_forbidden() {
    let mut db = Db::new();
    draw(&mut db, &ctx(1, 1), 1.0, 1.0, "#000000", 1.0);
    let sid = save_canvas_state(&mut db, &ctx(1, 2), "mine".to_string()).unwrap();
    let states = db.states.clone();
    let saved = db.saved.clone();
    assert_eq!(delete_canvas_state(&mut db, &ctx(2, 3), sid), Err(CanvasError::Forbidden));
    assert_eq!(db.states, states);
    assert_eq!(db.saved, saved);
}

#[test]
fn delete_missing_state_is_not_found() {
    let mut db = Db::new();
    assert_eq!(delete_canvas_state(&mut db, &ctx(1, 1), 4), Err(CanvasError::NotFound));
}

#[test]
fn delete_by_creator_removes_state_and_its_points() {
    let mut db = Db::new();
    let c = ctx(1, 1);
    draw(&mut db, &c, 1.0, 1.0, "#000000", 1.0);
    let first = save_canvas_state(&mut db, &c, "one".to_string()).unwrap();
    let second = save_canvas_state(&mut db, &c, "two".to_string()).unwrap();
    assert_eq!(delete_canvas_state(&mut db, &c, first), Ok(()));
    assert_eq!(db.states.len(), 1);
    assert_eq!(db.states[0].id, second);
    assert_eq!(db.saved.len(), 1);
    assert_eq!(db.saved[0].state_id, second);
    assert_eq!(load_canvas_state(&mut db, &c, first), Err(CanvasError::NotFound));
}

#[test]
fn from_rows_accepts_a_consistent_store() {
    let mut db = Db::new();
    let c = ctx(1, 1);
    identity_connected(&mut db, &c).unwrap();
    draw(&mut db, &c, 1.0, 1.0, "#000000", 1.0);
    draw(&mut db, &c, 2.0, 2.0, "#000000", 1.0);
    save_canvas_state(&mut db, &c, "x".to_string()).unwrap();
    let rebuilt = Db::from_rows(
        db.cursors.clone(),
        db.points.clone(),
        db.states.clone(),
        db.saved.clone(),
        db.next_point_id,
        db.next_state_id,
        db.next_saved_id,
    )
    .unwrap();
    assert_eq!(rebuilt.points, db.points);
    assert_eq!(rebuilt.saved, db.saved);
}

#[test]
fn from_rows_rejects_broken_stores() {
    let mut db = Db::new();
    let c = ctx(1, 1);
    identity_connected(&mut db, &c).unwrap();
    draw(&mut db, &c, 1.0, 1.0, "#000000", 1.0);
    draw(&mut db, &c, 2.0, 2.0, "#000000", 1.0);
    save_canvas_state(&mut db, &c, "x".to_string()).unwrap();

    let twice = vec![db.cursors[0].clone(), db.cursors[0].clone()];
    assert!(Db::from_rows(twice, vec![], vec![], vec![], 1, 1, 1).is_none());

    let swapped = vec![db.points[1].clone(), db.points[0].clone()];
    assert!(Db::from_rows(vec![], swapped, vec![], vec![], 10, 1, 1).is_none());

    assert!(Db::from_rows(vec![], db.points.clone(), vec![], vec![], 2, 1, 1).is_none());

    assert!(Db::from_rows(vec![], vec![], db.states.clone(), db.saved.clone(), 1, 1, 10).is_none());
    assert!(Db::from_rows(vec![], vec![], db.states.clone(), db.saved.clone(), 1, 2, 10).is_some());
}
