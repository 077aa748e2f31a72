use bloodray::raytracer::{
    apply_post_filter, next_render_scalar, try_add_from_grid, MAX_RENDER_SCALAR, MIN_RENDER_SCALAR,
};
use bloodray::render::{Color, Command, Size};
use bloodray::timing::Duration;

fn frame_of(colors: &[(u8, u8, u8)], size: Size) -> Vec<Command> {
    let mut cmds = Vec::new();
    for y in 0..size.height {
        for x in 0..size.width {
            let (r, g, b) = colors[(y * size.width + x) as usize];
            cmds.push(Command { c: '@', color: Color::from_rgb(r, g, b), x, y });
        }
    }
    cmds
}

#[test]
fn post_filter_disabled_leaves_frame_bit_identical() {
    let size = Size { width: 2, height: 2 };
    let mut cmds = frame_of(&[(10, 20, 30), (50, 60, 70), (90, 100, 110), (130, 140, 150)], size);
    let before = cmds.clone();

    apply_post_filter(&mut cmds, size, 5, false);

    assert_eq!(before, cmds);
}

#[test]
fn post_filter_averages_two_by_two_frame() {
    let size = Size { width: 2, height: 2 };
    let mut cmds = frame_of(&[(10, 20, 30), (50, 60, 70), (90, 100, 110), (130, 140, 150)], size);

    apply_post_filter(&mut cmds, size, 1, true);

    assert_eq!(cmds[0].color, Color::from_rgb(50, 60, 70));
    assert_eq!(cmds[1].color, Color::from_rgb(63, 73, 83));
    assert_eq!(cmds[2].color, Color::from_rgb(76, 86, 96));
    assert_eq!(cmds[3].color, Color::from_rgb(90, 100, 110));
}

#[test]
fn post_filter_weighs_center_by_primary_ray_strength() {
    let size = Size { width: 3, height: 1 };
    let mut cmds = frame_of(&[(100, 100, 100), (10, 10, 10), (40, 40, 40)], size);

    apply_post_filter(&mut cmds, size, 2, true);

    assert_eq!(cmds[0].color, Color::from_rgb(70, 70, 70));
    assert_eq!(cmds[1].color, Color::from_rgb(40, 40, 40));
    assert_eq!(cmds[2].color, Color::from_rgb(30, 30, 30));
}

#[test]
fn post_filter_keeps_single_pixel_unchanged() {
    let size = Size { width: 1, height: 1 };
    let mut cmds = frame_of(&[(123, 45, 6)], size);

    apply_post_filter(&mut cmds, size, 5, true);

    assert_eq!(cmds[0].color, Color::from_rgb(123, 45, 6));
}

#[test]
fn post_filter_keeps_glyph_and_position() {
    let size = Size { width: 2, height: 1 };
    let mut cmds = vec![
        Command { c: 'a', color: Color::from_rgb(0, 0, 0), x: 0, y: 0 },
        Command { c: 'b', color: Color::from_rgb(200, 200, 200), x: 1, y: 0 },
    ];

    apply_post_filter(&mut cmds, size, 1, true);

    assert_eq!(cmds[0].c, 'a');
    assert_eq!(cmds[1].c, 'b');
    assert_eq!((cmds[1].x, cmds[1].y), (1, 0));
    assert_eq!(cmds[0].color, Color::from_rgb(100, 100, 100));
    assert_eq!(cmds[1].color, Color::from_rgb(100, 100, 100));
}

#[test]
fn scalar_grows_when_frame_is_over_budget() {
    let observed = Duration::from_nanos(20_000_000);
    let target = Duration::from_nanos(11_111_111);

    assert_eq!(next_render_scalar(observed, target, 50), 51);
    assert_eq!(next_render_scalar(observed, target, 119), 120);
    assert_eq!(next_render_scalar(observed, target, MAX_RENDER_SCALAR), MAX_RENDER_SCALAR);
}

#[test]
fn scalar_shrinks_when_frame_is_under_budget() {
    let observed = Duration::from_nanos(1_000_000);
    let target = Duration::from_nanos(11_111_111);

    assert_eq!(next_render_scalar(observed, target, 50), 49);
    assert_eq!(next_render_scalar(observed, target, 13), 12);
    assert_eq!(next_render_scalar(observed, target, MIN_RENDER_SCALAR), MIN_RENDER_SCALAR);
}

#[test]
fn scalar_unchanged_when_frame_is_exactly_on_budget() {
    let on_target = Duration::from_nanos(11_111_111);

    assert_eq!(next_render_scalar(on_target, on_target, 50), 50);
    assert_eq!(next_render_scalar(on_target, on_target, MIN_RENDER_SCALAR), MIN_RENDER_SCALAR);
    assert_eq!(next_render_scalar(on_target, on_target, MAX_RENDER_SCALAR), MAX_RENDER_SCALAR);
}

#[test]
fn grid_neighbors_respect_bounds() {
    let mut v: Vec<usize> = Vec::new();
    try_add_from_grid(0, 5, &mut v);
    assert_eq!(v, vec![1]);

    let mut v: Vec<usize> = Vec::new();
    try_add_from_grid(4, 5, &mut v);
    assert_eq!(v, vec![3]);

    let mut v: Vec<usize> = vec![9];
    try_add_from_grid(2, 5, &mut v);
    assert_eq!(v, vec![9, 1, 3]);

    let mut v: Vec<usize> = Vec::new();
    try_add_from_grid(0, 1, &mut v);
    assert_eq!(v, Vec::<usize>::new());
}
