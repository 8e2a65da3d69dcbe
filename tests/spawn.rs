use falling_squares::application::Application;
use falling_squares::color::{get_random_color, opaque_color, Color, OPAQUE};
use falling_squares::composition_host::CompositionHost;
use falling_squares::square::{
    animate_square, random_square, square_at, size_bounds, spawn_visual, SpawnError, Square, FALL_DELAY_MS,
    FALL_DURATION_MS, MAX_SIZE, MIN_SIZE,
};
use falling_squares::visual_tree::VisualTree;

fn check_in_top_half(s: &Square, width: u32, height: u32) {
    assert!(s.size >= 1);
    assert!(s.x + s.size < width);
    assert!(s.y + s.size < height / 2);
}

#[test]
fn spawned_squares_fit_the_top_half() {
    for &(w, h) in &[(400u32, 300u32), (800, 600), (1920, 1080), (151, 302), (1000, 102)] {
        for _ in 0..500 {
            let s = random_square(w, h).unwrap();
            assert!(s.size >= MIN_SIZE && s.size < MAX_SIZE);
            check_in_top_half(&s, w, h);
        }
    }
}

#[test]
fn sides_are_clamped_in_narrow_windows() {
    for _ in 0..200 {
        let s = random_square(40, 600).unwrap();
        assert_eq!(s.size, 39);
        assert_eq!(s.x, 0);
        check_in_top_half(&s, 40, 600);
        let t = random_square(600, 60).unwrap();
        assert_eq!(t.size, 29);
        assert_eq!(t.y, 0);
        check_in_top_half(&t, 600, 60);
        let u = random_square(120, 600).unwrap();
        assert!(u.size >= 50 && u.size < 120);
        check_in_top_half(&u, 120, 600);
    }
}

#[test]
fn size_bounds_follow_the_window() {
    assert_eq!(size_bounds(400, 300), Some((50, 150)));
    assert_eq!(size_bounds(4000, 3000), Some((50, 150)));
    assert_eq!(size_bounds(120, 3000), Some((50, 120)));
    assert_eq!(size_bounds(4000, 200), Some((50, 100)));
    assert_eq!(size_bounds(51, 3000), Some((50, 51)));
    assert_eq!(size_bounds(50, 3000), Some((49, 50)));
    assert_eq!(size_bounds(2, 3000), Some((1, 2)));
    assert_eq!(size_bounds(3000, 4), Some((1, 2)));
    assert_eq!(size_bounds(1, 3000), None);
    assert_eq!(size_bounds(3000, 3), None);
    assert_eq!(size_bounds(0, 0), None);
}

#[test]
fn smallest_window_with_room_gets_a_unit_square() {
    let s = random_square(2, 4).unwrap();
    assert_eq!((s.size, s.x, s.y), (1, 0, 0));
}

#[test]
fn no_square_without_room() {
    assert_eq!(random_square(1, 1000), None);
    assert_eq!(random_square(1000, 3), None);
    assert_eq!(spawn_visual(0, 0), Err(SpawnError::WindowTooSmall));
}

#[test]
fn colors_are_opaque_and_vary() {
    let first = get_random_color();
    let mut channels_differ = false;
    for _ in 0..200 {
        let c = get_random_color();
        assert_eq!(c.a, 255);
        if c.r != first.r || c.g != first.g || c.b != first.b {
            channels_differ = true;
        }
    }
    assert!(channels_differ);
}

#[test]
fn opaque_color_keeps_channels() {
    assert_eq!(opaque_color(1, 2, 3), Color { a: OPAQUE, r: 1, g: 2, b: 3 });
}

#[test]
fn offsets_are_drawn_not_fixed() {
    let mut xs_differ = false;
    let mut ys_differ = false;
    let mut sizes_differ = false;
    let first = random_square(1000, 1000).unwrap();
    for _ in 0..200 {
        let s = random_square(1000, 1000).unwrap();
        xs_differ |= s.x != first.x;
        ys_differ |= s.y != first.y;
        sizes_differ |= s.size != first.size;
    }
    assert!(xs_differ && ys_differ && sizes_differ);
}

#[test]
fn fall_targets_the_bottom_edge() {
    let s = Square { size: 80, x: 17, y: 5, color: opaque_color(0, 0, 0) };
    let a = animate_square(&s, 300);
    assert_eq!(a.target_x, 17);
    assert_eq!(a.target_y, 220);
    assert_eq!(a.duration_ms, 2000);
    assert_eq!(a.delay_ms, 3000);
    for _ in 0..200 {
        let v = spawn_visual(640, 480).unwrap();
        assert_eq!(v.animation.target_x, v.square.x);
        assert_eq!(v.animation.target_y + v.square.size, 480);
    }
}

#[test]
fn fall_timing_is_the_same_for_every_visual() {
    let mut host = CompositionHost::new(800, 600);
    for _ in 0..300 {
        host.add_element().unwrap();
    }
    let tree = host.children();
    assert_eq!(tree.len(), 300);
    for i in 0..tree.len() {
        let v = tree.get(i);
        assert_eq!(v.animation.duration_ms, FALL_DURATION_MS);
        assert_eq!(v.animation.delay_ms, FALL_DELAY_MS);
        assert_eq!(v.animation.duration_ms, 2000);
        assert_eq!(v.animation.delay_ms, 3000);
        assert_eq!(v.animation.target_y + v.square.size, 600);
    }
}

#[test]
fn click_in_a_400_by_300_window() {
    let mut host = CompositionHost::new(400, 300);
    let v = host.add_element().unwrap();
    let s = v.square.size;
    assert!(s >= 50 && s < 150);
    assert!(v.square.x < 400 - s);
    assert!(v.square.y < 150 - s);
    assert_eq!(v.offset_at(0), Some((v.square.x, v.square.y)));
    assert_eq!(v.offset_at(3000), Some((v.square.x, v.square.y)));
    assert_eq!(v.offset_at(4000), None);
    assert_eq!(v.offset_at(5000), Some((v.square.x, 300 - s)));
    assert_eq!(v.offset_at(60000), Some((v.square.x, 300 - s)));
}

#[test]
fn clicks_only_add_visuals() {
    let mut host = CompositionHost::new(1024, 768);
    let mut seen = Vec::new();
    for n in 1..=50usize {
        let v = host.add_element().unwrap();
        seen.push(v);
        let tree = host.children();
        assert_eq!(tree.len(), n);
        assert_eq!(tree.top(), Some(&v));
        for (i, old) in seen.iter().enumerate() {
            assert_eq!(tree.get(i), old);
        }
    }
}

#[test]
fn failed_click_leaves_the_tree_alone() {
    let mut host = CompositionHost::new(30, 2);
    assert_eq!(host.add_element(), Err(SpawnError::WindowTooSmall));
    assert_eq!(host.children().len(), 0);
    assert_eq!(host.children().top(), None);
    assert_eq!((host.width(), host.height()), (30, 2));
}

#[test]
fn application_reads_the_extent_per_click() {
    let mut app = Application::default();
    assert_eq!(app.children().len(), 0);
    let a = app.add_element(400, 300).unwrap();
    assert_eq!(a.animation.target_y + a.square.size, 300);
    let b = app.add_element(1200, 900).unwrap();
    assert_eq!(b.animation.target_y + b.square.size, 900);
    check_in_top_half(&b.square, 1200, 900);
    assert_eq!(app.add_element(1, 1), Err(SpawnError::WindowTooSmall));
    assert_eq!(app.children().len(), 2);
    assert_eq!(app.children().get(0), &a);
    assert_eq!(app.children().top(), Some(&b));
}

#[test]
fn empty_tree() {
    let tree = VisualTree::new();
    assert_eq!(tree.len(), 0);
    assert_eq!(tree.top(), None);
}

#[test]
fn square_at_accepts_exactly_the_spawnable_squares() {
    let red = opaque_color(255, 0, 0);
    let want = Square { size: 149, x: 250, y: 0, color: red };
    assert_eq!(square_at(400, 300, 149, 250, 0, red), Some(want));
    assert_eq!(square_at(400, 300, 50, 0, 99, red), Some(Square { size: 50, x: 0, y: 99, color: red }));
    assert_eq!(square_at(400, 300, 150, 0, 0, red), None);
    assert_eq!(square_at(400, 300, 49, 0, 0, red), None);
    assert_eq!(square_at(400, 300, 149, 251, 0, red), None);
    assert_eq!(square_at(400, 300, 149, 0, 1, red), None);
    assert_eq!(square_at(400, 300, 100, 0, 0, Color { a: 254, r: 255, g: 0, b: 0 }), None);
    assert_eq!(square_at(40, 600, 39, 0, 0, red), Some(Square { size: 39, x: 0, y: 0, color: red }));
    assert_eq!(square_at(1, 600, 0, 0, 0, red), None);
    assert_eq!(square_at(1, 1, 0, 0, 0, red), None);
}
