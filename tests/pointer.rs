use window_chase::geometry::{dist_sq_at_most, Point};
use window_chase::pointer::{Pointer, ARRIVAL_PROGRESS, PROGRESS_STEP};

fn pt(x: i64, y: i64) -> Point {
    Point { x, y }
}

fn dist_sq(a: Point, b: Point) -> i128 {
    let dx = (a.x - b.x) as i128;
    let dy = (a.y - b.y) as i128;
    dx * dx + dy * dy
}

#[test]
fn idle_sets_off_towards_target() {
    let p = pt(50_000, 50_000);
    let q = pt(-200_000, 310_000);
    assert_eq!(Pointer::Idle(p).update(Some(q)), Pointer::Moving { from: p, to: q, t: 0 });
}

#[test]
fn arrived_transit_comes_to_rest_on_destination() {
    let from = pt(0, 0);
    let to = pt(400_000, -100_000);
    let near = pt(400_600, -99_200);
    let p = Pointer::Moving { from, to, t: ARRIVAL_PROGRESS };
    assert_eq!(p.update(Some(near)), Pointer::Idle(to));
    assert_eq!(p.update(Some(to)), Pointer::Idle(to));
}

#[test]
fn transit_before_arrival_advances() {
    let from = pt(0, 0);
    let to = pt(400_000, -100_000);
    let p = Pointer::Moving { from, to, t: ARRIVAL_PROGRESS - 1 };
    assert_eq!(
        p.update(Some(to)),
        Pointer::Moving { from, to, t: ARRIVAL_PROGRESS - 1 + PROGRESS_STEP }
    );
    let q = Pointer::Moving { from, to, t: 0 };
    assert_eq!(q.update(Some(pt(400_999, -100_000))), Pointer::Moving { from, to, t: 25 });
}

#[test]
fn far_target_restarts_from_drawn_position() {
    let from = pt(0, 0);
    let to = pt(1_000_000, 0);
    let p = Pointer::Moving { from, to, t: 500 };
    assert_eq!(p.position(), pt(500_000, 0));
    let target = pt(1_001_001, 0);
    assert_eq!(
        p.update(Some(target)),
        Pointer::Moving { from: pt(500_000, 0), to: target, t: 0 }
    );
    let target = pt(1_000_000, 1_001);
    assert_eq!(
        p.update(Some(target)),
        Pointer::Moving { from: pt(500_000, 0), to: target, t: 0 }
    );
}

#[test]
fn no_target_freezes_pointer() {
    let p = Pointer::Moving { from: pt(0, 0), to: pt(1000, -1000), t: 250 };
    assert_eq!(p.position(), pt(31, -31));
    assert_eq!(p.update(None), Pointer::Idle(pt(31, -31)));
    assert_eq!(Pointer::Idle(pt(7, 8)).update(None), Pointer::Idle(pt(7, 8)));
}

#[test]
fn position_at_ends_of_transit() {
    let from = pt(-12_345, 6_789);
    let to = pt(98_765, -4_321);
    assert_eq!(Pointer::Moving { from, to, t: 0 }.position(), from);
    assert_eq!(Pointer::Moving { from, to, t: 1000 }.position(), to);
    assert_eq!(Pointer::Idle(to).position(), to);
}

#[test]
fn transit_converges_on_destination() {
    let from = pt(50_000, 50_000);
    let to = pt(-567_891, 333_333);
    let mut prev = dist_sq(from, to);
    let mut t = 0u32;
    while t <= 1100 {
        let d = dist_sq(Pointer::Moving { from, to, t }.position(), to);
        assert!(d <= prev, "t = {}", t);
        prev = d;
        t += 5;
    }
    assert_eq!(prev, 0);
}

#[test]
fn full_transit_takes_forty_two_updates() {
    let to = pt(300_000, 200_000);
    let mut p = Pointer::Idle(pt(0, 0)).update(Some(to));
    let mut updates = 1;
    while let Pointer::Moving { .. } = p {
        p = p.update(Some(to));
        updates += 1;
    }
    assert_eq!(updates, 42);
    assert_eq!(p, Pointer::Idle(to));
}

#[test]
fn distance_comparison() {
    assert!(dist_sq_at_most(pt(0, 0), pt(600, 800), 1_000_000));
    assert!(!dist_sq_at_most(pt(0, 0), pt(600, 801), 1_000_000));
    assert!(!dist_sq_at_most(pt(i64::MIN, 0), pt(i64::MAX, 0), u64::MAX));
    assert!(dist_sq_at_most(pt(5, 5), pt(5, 5), 0));
}
