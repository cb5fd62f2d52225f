use scene_bootstrap::report::get_things_pos;
use scene_bootstrap::scene::{add_camera, add_cube, add_light, add_plane, Vec3, World};
use scene_bootstrap::timer::DiagnosticTimer;

fn full_world() -> World {
    let mut world = World::new();
    add_plane(&mut world);
    add_camera(&mut world);
    add_cube(&mut world);
    add_light(&mut world);
    world
}

#[test]
fn report_waits_for_the_period() {
    let world = full_world();
    let mut timer = DiagnosticTimer::from_seconds(2).unwrap();
    assert_eq!(get_things_pos(1_999_999_999, &mut timer, &world), None);
    assert_eq!(timer.elapsed_nanos(), 1_999_999_999);
}

#[test]
fn report_holds_the_cube_when_the_period_completes() {
    let world = full_world();
    let mut timer = DiagnosticTimer::from_seconds(2).unwrap();
    assert_eq!(get_things_pos(1_200_000_000, &mut timer, &world), None);
    assert_eq!(
        get_things_pos(1_200_000_000, &mut timer, &world),
        Some(vec![Vec3 { x: 0, y: 500, z: 0 }])
    );
    assert_eq!(timer.elapsed_nanos(), 400_000_000);
    assert_eq!(get_things_pos(1_200_000_000, &mut timer, &world), None);
}

#[test]
fn report_covers_every_marked_entity_at_once() {
    let mut world = full_world();
    add_cube(&mut world);
    add_cube(&mut world);
    let mut timer = DiagnosticTimer::from_seconds(2).unwrap();
    let report = get_things_pos(2_000_000_000, &mut timer, &world).unwrap();
    assert_eq!(report, vec![Vec3 { x: 0, y: 500, z: 0 }; 3]);
}

#[test]
fn empty_tag_set() {
    let mut world = World::new();
    add_plane(&mut world);
    add_camera(&mut world);
    add_light(&mut world);
    let mut timer = DiagnosticTimer::from_seconds(2).unwrap();
    assert_eq!(get_things_pos(1_000_000_000, &mut timer, &world), None);
    assert_eq!(get_things_pos(1_000_000_000, &mut timer, &world), Some(Vec::new()));
    assert_eq!(timer.elapsed_nanos(), 0);
}

#[test]
fn report_comes_once_per_period_at_any_frame_rate() {
    let world = full_world();
    for delta in [1_000_000u64, 16_666_667, 33_333_333, 250_000_000, 2_000_000_000] {
        let mut timer = DiagnosticTimer::from_seconds(2).unwrap();
        let mut total = 0u64;
        let mut reports = 0u64;
        while total < 20_000_000_000 {
            if get_things_pos(delta, &mut timer, &world).is_some() {
                reports += 1;
            }
            total += delta;
        }
        assert_eq!(reports, total / 2_000_000_000);
    }
}
