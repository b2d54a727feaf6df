use yabog::collision::collision_resolver;
use yabog::geometry::{Rect, Vec2};
use yabog::lattice::{UNIT, WORLD_LIMIT};

#[test]
fn separated_rects_do_not_collide() {
    let b = Rect { x: 200 * UNIT, y: 200 * UNIT, w: 100 * UNIT, h: 40 * UNIT };
    let starts = [
        Rect { x: 100 * UNIT, y: 200 * UNIT, w: 50 * UNIT, h: 50 * UNIT },
        Rect { x: 301 * UNIT, y: 200 * UNIT, w: 50 * UNIT, h: 50 * UNIT },
        Rect { x: 220 * UNIT, y: 100 * UNIT, w: 50 * UNIT, h: 50 * UNIT },
        Rect { x: 220 * UNIT, y: 241 * UNIT, w: 50 * UNIT, h: 50 * UNIT },
        Rect { x: 300 * UNIT + 1, y: 200 * UNIT, w: 50 * UNIT, h: 50 * UNIT },
        Rect { x: 150 * UNIT - 1, y: 200 * UNIT, w: 50 * UNIT, h: 50 * UNIT },
    ];
    for start in starts {
        let mut a = start;
        let mut vel = Vec2 { x: 600, y: -800 };
        assert!(!collision_resolver(&mut a, &mut vel, &b));
        assert_eq!(a, start);
        assert_eq!(vel, Vec2 { x: 600, y: -800 });
    }
}

#[test]
fn rects_that_share_an_edge_collide() {
    let b = Rect { x: 200 * UNIT, y: 200 * UNIT, w: 100 * UNIT, h: 40 * UNIT };
    let mut a = Rect { x: 150 * UNIT, y: 200 * UNIT, w: 50 * UNIT, h: 50 * UNIT };
    let mut vel = Vec2 { x: 600, y: -800 };
    assert!(collision_resolver(&mut a, &mut vel, &b));
    // The overlap has no width: the rectangle stays and turns back on x.
    assert_eq!(a, Rect { x: 150 * UNIT, y: 200 * UNIT, w: 50 * UNIT, h: 50 * UNIT });
    assert_eq!(vel, Vec2 { x: -600, y: -800 });
}

#[test]
fn wide_overlap_bounces_on_y() {
    // The obstacle lies above; the overlap is 50 wide and 10 tall.
    let b = Rect { x: 80 * UNIT, y: 50 * UNIT, w: 100 * UNIT, h: 40 * UNIT };
    let mut a = Rect { x: 100 * UNIT, y: 80 * UNIT, w: 50 * UNIT, h: 50 * UNIT };
    let mut vel = Vec2 { x: 300, y: -700 };
    assert!(collision_resolver(&mut a, &mut vel, &b));
    assert_eq!(a, Rect { x: 100 * UNIT, y: 90 * UNIT, w: 50 * UNIT, h: 50 * UNIT });
    assert_eq!(vel, Vec2 { x: 300, y: 700 });
}

#[test]
fn wide_overlap_below_bounces_up() {
    // The obstacle lies below, as the paddle does.
    let b = Rect { x: 175 * UNIT, y: 400 * UNIT, w: 150 * UNIT, h: 40 * UNIT };
    let mut a = Rect { x: 200 * UNIT, y: 355 * UNIT, w: 50 * UNIT, h: 50 * UNIT };
    let mut vel = Vec2 { x: -250, y: 900 };
    assert!(collision_resolver(&mut a, &mut vel, &b));
    assert_eq!(a, Rect { x: 200 * UNIT, y: 350 * UNIT, w: 50 * UNIT, h: 50 * UNIT });
    assert_eq!(vel, Vec2 { x: -250, y: -900 });
}

#[test]
fn tall_overlap_bounces_on_x() {
    // The obstacle lies to the right; the overlap is 10 wide and 40 tall.
    let b = Rect { x: 40 * UNIT, y: 10 * UNIT, w: 100 * UNIT, h: 40 * UNIT };
    let mut a = Rect { x: 0, y: 0, w: 50 * UNIT, h: 50 * UNIT };
    let mut vel = Vec2 { x: 300, y: 700 };
    assert!(collision_resolver(&mut a, &mut vel, &b));
    assert_eq!(a, Rect { x: -10 * UNIT, y: 0, w: 50 * UNIT, h: 50 * UNIT });
    assert_eq!(vel, Vec2 { x: -300, y: 700 });
}

#[test]
fn tall_overlap_on_the_left_bounces_right() {
    let b = Rect { x: 0, y: 0, w: 100 * UNIT, h: 40 * UNIT };
    let mut a = Rect { x: 95 * UNIT, y: 0, w: 50 * UNIT, h: 50 * UNIT };
    let mut vel = Vec2 { x: -300, y: 700 };
    assert!(collision_resolver(&mut a, &mut vel, &b));
    assert_eq!(a, Rect { x: 100 * UNIT, y: 0, w: 50 * UNIT, h: 50 * UNIT });
    assert_eq!(vel, Vec2 { x: 300, y: 700 });
}

#[test]
fn reflection_points_away_whatever_the_velocity_was() {
    let b = Rect { x: 80 * UNIT, y: 50 * UNIT, w: 100 * UNIT, h: 40 * UNIT };
    for old_vy in [-1000, -1, 1, 640, 1000] {
        let mut a = Rect { x: 100 * UNIT, y: 80 * UNIT, w: 50 * UNIT, h: 50 * UNIT };
        let mut vel = Vec2 { x: 123, y: old_vy };
        assert!(collision_resolver(&mut a, &mut vel, &b));
        // The obstacle's centre is above: the ball leaves downward.
        assert!(vel.y > 0);
        assert_eq!(vel.y, old_vy.abs());
        assert_eq!(vel.x, 123);
    }
}

#[test]
fn square_overlap_bounces_on_x() {
    // The overlap is 10 wide and 10 tall.
    let b = Rect { x: 40 * UNIT, y: 40 * UNIT, w: 100 * UNIT, h: 40 * UNIT };
    let mut a = Rect { x: 0, y: 0, w: 50 * UNIT, h: 50 * UNIT };
    let mut vel = Vec2 { x: 600, y: 800 };
    assert!(collision_resolver(&mut a, &mut vel, &b));
    assert_eq!(a, Rect { x: -10 * UNIT, y: 0, w: 50 * UNIT, h: 50 * UNIT });
    assert_eq!(vel, Vec2 { x: -600, y: 800 });
}

#[test]
fn overlap_one_tick_wider_than_tall_bounces_on_y() {
    let b = Rect { x: 40 * UNIT - 1, y: 40 * UNIT, w: 100 * UNIT, h: 40 * UNIT };
    let mut a = Rect { x: 0, y: 0, w: 50 * UNIT, h: 50 * UNIT };
    let mut vel = Vec2 { x: 600, y: 800 };
    assert!(collision_resolver(&mut a, &mut vel, &b));
    assert_eq!(a, Rect { x: 0, y: -10 * UNIT, w: 50 * UNIT, h: 50 * UNIT });
    assert_eq!(vel, Vec2 { x: 600, y: -800 });
}

#[test]
fn level_centres_stop_the_component() {
    // Same centre on both axes; the overlap is as wide as it is tall.
    let b = Rect { x: 10 * UNIT, y: 10 * UNIT, w: 30 * UNIT, h: 30 * UNIT };
    let mut a = Rect { x: 0, y: 0, w: 50 * UNIT, h: 50 * UNIT };
    let mut vel = Vec2 { x: 600, y: 800 };
    assert!(collision_resolver(&mut a, &mut vel, &b));
    assert_eq!(a, Rect { x: 0, y: 0, w: 50 * UNIT, h: 50 * UNIT });
    assert_eq!(vel, Vec2 { x: 0, y: 800 });
}

#[test]
fn push_out_stops_at_the_edge_of_the_world() {
    let b = Rect { x: -WORLD_LIMIT, y: 0, w: 100 * UNIT, h: 10 * UNIT };
    let mut a = Rect { x: -WORLD_LIMIT, y: 0, w: 50 * UNIT, h: 50 * UNIT };
    let mut vel = Vec2 { x: 600, y: 800 };
    assert!(collision_resolver(&mut a, &mut vel, &b));
    // The overlap is 50 wide and 10 tall; the obstacle's centre is above
    // and to the right.
    assert_eq!(a, Rect { x: -WORLD_LIMIT, y: 10 * UNIT, w: 50 * UNIT, h: 50 * UNIT });
    assert_eq!(vel, Vec2 { x: 600, y: 800 });
    let c = Rect { x: -WORLD_LIMIT, y: 0, w: 100 * UNIT, h: 100 * UNIT };
    let mut d = Rect { x: -WORLD_LIMIT, y: 60 * UNIT, w: 50 * UNIT, h: 50 * UNIT };
    let mut vel_d = Vec2 { x: 600, y: 800 };
    assert!(collision_resolver(&mut d, &mut vel_d, &c));
    // The overlap is 50 wide and 40 tall: out on y, downward.
    assert_eq!(d, Rect { x: -WORLD_LIMIT, y: 100 * UNIT, w: 50 * UNIT, h: 50 * UNIT });
    let e = Rect { x: -WORLD_LIMIT, y: 0, w: 100 * UNIT, h: 100 * UNIT };
    let mut f = Rect { x: -WORLD_LIMIT, y: 0, w: 10 * UNIT, h: 50 * UNIT };
    let mut vel_f = Vec2 { x: 600, y: 800 };
    assert!(collision_resolver(&mut f, &mut vel_f, &e));
    // The overlap is 10 wide and 50 tall, the obstacle's centre to the
    // right: the push to the left stops at the world's edge.
    assert_eq!(f, Rect { x: -WORLD_LIMIT, y: 0, w: 10 * UNIT, h: 50 * UNIT });
    assert_eq!(vel_f, Vec2 { x: -600, y: 800 });
}
