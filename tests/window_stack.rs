use window_chase::geometry::{close_button_pos, Point, Rect};
use window_chase::metronome::Metronome;
use window_chase::pointer::Pointer;
use window_chase::scene::{arrow_tail, close_dots, label_anchor};
use window_chase::simulation::pane_frame;
use window_chase::window_stack::{
    random_point, random_rect, random_spawn_rect, rect_at, WindowStack, FRAME_MARGIN,
};

fn inside(r: &Rect, outer: &Rect) -> bool {
    outer.left <= r.left && r.right <= outer.right && outer.bottom <= r.bottom && r.top <= outer.top
}

fn stack_of(rects: &[Rect]) -> WindowStack {
    let mut s = WindowStack::new();
    for (i, r) in rects.iter().enumerate() {
        s.push(*r, format!("w{}", i));
    }
    s
}

#[test]
fn close_button_sits_inside_top_left_corner() {
    let r = Rect::new(-100_000, 100_000, -50_000, 50_000);
    assert_eq!(close_button_pos(&r), Point { x: -80_000, y: 30_000 });
}

#[test]
fn random_rects_stay_in_container() {
    let frame = pane_frame().padded(FRAME_MARGIN);
    for _ in 0..1000 {
        let r = random_rect(320_000, 320_000, 1_152_000, 1_152_000, frame);
        assert!(inside(&r, &frame), "{:?}", r);
        assert!(r.width() >= 320_000 && r.width() <= 1_152_000);
        assert!(r.height() >= 320_000 && r.height() <= 1_152_000);
    }
}

#[test]
fn random_rect_filling_container_exactly() {
    let frame = Rect::new(0, 10, 0, 10);
    for _ in 0..100 {
        let r = random_rect(9, 9, 10, 10, frame);
        assert!(r.width() == 9 || r.width() == 10);
        assert!(r.height() == 9 || r.height() == 10);
        assert!(inside(&r, &frame));
    }
}

#[test]
fn random_rect_with_equal_size_bounds() {
    let frame = Rect::new(-5, 5, 20, 40);
    for _ in 0..100 {
        let r = random_rect(10, 20, 10, 20, frame);
        assert_eq!(r, frame);
    }
    let wide = Rect::new(0, 100, 0, 100);
    for _ in 0..100 {
        let r = random_rect(30, 40, 30, 40, wide);
        assert_eq!(r.width(), 30);
        assert_eq!(r.height(), 40);
        assert!(inside(&r, &wide));
    }
}

#[test]
fn rect_built_from_corner_and_sides() {
    assert_eq!(
        rect_at(Point { x: -7, y: 3 }, 20, 5),
        Rect::new(-7, 13, 3, 8)
    );
}

#[test]
fn random_spawn_rects_fit_the_pane() {
    let frame = pane_frame();
    let area = frame.padded(FRAME_MARGIN);
    for _ in 0..1000 {
        let r = random_spawn_rect(frame);
        assert!(inside(&r, &area));
        assert!(r.width() >= 320_000 && r.width() <= 1_152_000);
        assert!(r.height() >= 320_000 && r.height() <= 1_152_000);
    }
}

#[test]
fn random_points_stay_in_container() {
    let area = Rect::new(-3, 3, 7, 7);
    for _ in 0..200 {
        let p = random_point(area);
        assert!(-3 <= p.x && p.x <= 3 && p.y == 7);
    }
}

#[test]
fn maybe_spawn_only_when_metronome_fires_and_coin_is_up() {
    let frame = pane_frame();
    let area = frame.padded(FRAME_MARGIN);
    let mut stack = WindowStack::new();
    let mut metro = Metronome::new(30);
    for i in 1..=29 {
        assert!(!stack.maybe_spawn(frame, &mut metro, true, String::from("x")), "tick {}", i);
    }
    assert!(!stack.maybe_spawn(frame, &mut Metronome { count: 29, every: 30 }, false, String::from("x")));
    assert!(stack.maybe_spawn(frame, &mut metro, true, String::from("hello")));
    assert_eq!(metro.count, 30);
    assert_eq!(stack.len(), 1);
    let top = stack.top().unwrap();
    assert_eq!(top.label, "hello");
    assert!(inside(&top.bounds, &area));
}

#[test]
fn maybe_spawn_never_leaves_spawn_area() {
    let frame = pane_frame();
    let area = frame.padded(FRAME_MARGIN);
    let mut stack = WindowStack::new();
    let mut metro = Metronome::new(1);
    for _ in 0..1000 {
        assert!(stack.maybe_spawn(frame, &mut metro, true, String::from("w")));
    }
    assert_eq!(stack.len(), 1000);
    for e in stack.entries.iter() {
        assert!(inside(&e.bounds, &area));
        assert!(e.bounds.width() >= 320_000 && e.bounds.width() <= 1_152_000);
        assert!(e.bounds.height() >= 320_000 && e.bounds.height() <= 1_152_000);
    }
}

#[test]
fn pop_on_empty_stack_does_nothing() {
    let mut s = WindowStack::new();
    s.pop_if_pointer_arrived(Pointer::Idle(Point { x: 0, y: 0 }));
    assert_eq!(s.len(), 0);
    assert!(s.top().is_none());
    assert_eq!(s.target(), None);
}

#[test]
fn pop_removes_top_when_pointer_rests_on_it() {
    let a = Rect::new(-300_000, 100_000, -200_000, 200_000);
    let b = Rect::new(0, 400_000, 0, 300_000);
    let mut s = stack_of(&[a, b]);
    let cp = close_button_pos(&b);
    assert_eq!(s.target(), Some(cp));
    s.pop_if_pointer_arrived(Pointer::Idle(Point { x: cp.x + 99, y: cp.y }));
    assert_eq!(s.len(), 1);
    assert_eq!(s.top().unwrap().label, "w0");
    assert_eq!(s.target(), Some(close_button_pos(&a)));
}

#[test]
fn pop_keeps_stack_otherwise() {
    let a = Rect::new(-300_000, 100_000, -200_000, 200_000);
    let b = Rect::new(0, 400_000, 0, 300_000);
    let mut s = stack_of(&[a, b]);
    let cp = close_button_pos(&b);
    s.pop_if_pointer_arrived(Pointer::Idle(Point { x: cp.x + 100, y: cp.y }));
    assert_eq!(s.len(), 2);
    s.pop_if_pointer_arrived(Pointer::Idle(Point { x: cp.x + 60, y: cp.y + 80 }));
    assert_eq!(s.len(), 2);
    s.pop_if_pointer_arrived(Pointer::Moving { from: cp, to: cp, t: 1000 });
    assert_eq!(s.len(), 2);
    s.pop_if_pointer_arrived(Pointer::Idle(close_button_pos(&a)));
    assert_eq!(s.len(), 2);
    s.pop_if_pointer_arrived(Pointer::Idle(cp));
    assert_eq!(s.len(), 1);
}

#[test]
fn draw_data_of_a_window() {
    let r = Rect::new(-100_000, 100_000, -50_000, 51_000);
    assert_eq!(
        close_dots(&r),
        vec![
            Point { x: -80_000, y: 31_000 },
            Point { x: -60_000, y: 31_000 },
            Point { x: -40_000, y: 31_000 }
        ]
    );
    assert_eq!(label_anchor(&r), Point { x: 0, y: 10_500 });
    assert_eq!(arrow_tail(Point { x: 1, y: 2 }), Point { x: 15_001, y: -24_998 });
}
