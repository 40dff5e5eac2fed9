use light_rays::{bounce_rule, BouncePath, BounceRule, ShapeKind, ShapeTag, TraceHit};

fn hit(kind: ShapeKind, key: u64, steps: usize, is_leaving: bool) -> TraceHit {
    TraceHit { shape: Some(ShapeTag { kind, key }), steps, is_leaving }
}

fn escape(steps: usize) -> TraceHit {
    TraceHit { shape: None, steps, is_leaving: false }
}

#[test]
fn bounce_rule_follows_the_obstacle() {
    assert_eq!(bounce_rule(&hit(ShapeKind::Line, 0, 3, false)), Some(BounceRule::MirrorLine));
    assert_eq!(bounce_rule(&hit(ShapeKind::Circle, 0, 3, false)), Some(BounceRule::MirrorCircle));
    assert_eq!(
        bounce_rule(&hit(ShapeKind::Medium, 0, 3, false)),
        Some(BounceRule::Refract { leaving: false })
    );
    assert_eq!(
        bounce_rule(&hit(ShapeKind::Medium, 0, 3, true)),
        Some(BounceRule::Refract { leaving: true })
    );
    assert_eq!(bounce_rule(&escape(10000)), None);
}

#[test]
fn new_path_holds_the_origin() {
    let p: BouncePath<(f32, f32)> = BouncePath::new((150.0, -150.0), 10);
    assert_eq!(p.points(), &vec![(150.0, -150.0)]);
    assert!(!p.is_complete());
    assert_eq!(p.last_shape(), None);
    assert!(!p.is_inside_medium());
}

#[test]
fn path_of_ten_bounces_has_eleven_points_when_nothing_is_hit() {
    let mut p: BouncePath<(f32, f32)> = BouncePath::new((0.0, 0.0), 10);
    let mut x = 0.0;
    while !p.is_complete() {
        x += 1000.0;
        p.record(escape(10000), (x, 0.0));
    }
    assert_eq!(p.points().len(), 11);
    assert_eq!(p.points()[10], (10000.0, 0.0));
}

#[test]
fn path_length_does_not_depend_on_hits() {
    let passes = vec![
        hit(ShapeKind::Circle, 1, 700, false),
        hit(ShapeKind::Medium, 2, 12, false),
        hit(ShapeKind::Medium, 2, 40, true),
        escape(10000),
    ];
    let mut p: BouncePath<u32> = BouncePath::new(0, 4);
    for (i, h) in passes.iter().enumerate() {
        assert!(!p.is_complete());
        p.record(*h, i as u32 + 1);
    }
    assert!(p.is_complete());
    assert_eq!(p.points(), &vec![0, 1, 2, 3, 4]);
}

#[test]
fn zero_bounces_is_complete_at_once() {
    let p: BouncePath<u8> = BouncePath::new(7, 0);
    assert!(p.is_complete());
    assert_eq!(p.points().len(), 1);
}

#[test]
fn record_tracks_medium_entry_and_exit() {
    let m = ShapeTag { kind: ShapeKind::Medium, key: 2 };
    let mut p: BouncePath<u8> = BouncePath::new(0, 3);
    p.record(hit(ShapeKind::Medium, 2, 5, false), 1);
    assert_eq!(p.last_shape(), Some(m));
    assert!(p.is_inside_medium());
    p.record(hit(ShapeKind::Medium, 2, 5, true), 2);
    assert_eq!(p.last_shape(), None);
    assert!(!p.is_inside_medium());
    p.record(escape(10000), 3);
    assert_eq!(p.last_shape(), None);
    assert!(p.is_inside_medium());
}
