use topdown::geometry::{overlaps, IVec2, Rectangle, UVec2};
use topdown::interaction::{
    input_handler, interact, update_interaction_zone_based_on_input, EdgeTrigger, Interactable,
    InteractionEvent, InteractionZone, ZoneOwner, DEFAULT_ZONE_SIDE,
};

/// The point (x, y) in world units, held in half units.
fn at(x: i32, y: i32) -> IVec2 {
    IVec2::new(2 * x, 2 * y)
}


fn event_at(x: i32, y: i32) -> InteractionEvent {
    InteractionEvent { entity: 1, zone: InteractionZone::new(UVec2::new(32, 32), at(x, y)) }
}

fn target() -> Interactable {
    Interactable { entity: 2, position: at(250, 0), size: Some(UVec2::new(50, 100)) }
}

#[test]
fn default_zone() {
    let z = InteractionZone::default();
    assert_eq!(z.size, UVec2::new(DEFAULT_ZONE_SIDE, DEFAULT_ZONE_SIDE));
    assert_eq!(z.size, UVec2::new(32, 32));
    assert_eq!(z.origin, at(0, 0));
}

#[test]
fn update_origin_and_size() {
    let mut z = InteractionZone::new(UVec2::new(32, 32), at(0, 0));
    z.update_origin(at(4, -6));
    assert_eq!(z.origin, at(4, -6));
    assert_eq!(z.size, UVec2::new(32, 32));
    z.update_size(UVec2::new(8, 9));
    assert_eq!(z.size, UVec2::new(8, 9));
    assert_eq!(z.origin, at(4, -6));
}

#[test]
fn zones_intersect() {
    let a = InteractionZone::new(UVec2::new(50, 100), at(250, 0));
    assert!(a.intersects_with_zone(&InteractionZone::new(UVec2::new(32, 32), at(250, 0))));
    assert!(!a.intersects_with_zone(&InteractionZone::new(UVec2::new(32, 32), at(400, 0))));
    assert!(!a.intersects_with_zone(&InteractionZone::new(UVec2::new(32, 32), at(291, 0))));
}

#[test]
fn interaction_intersection_scenario() {
    let events = vec![event_at(250, 0), event_at(400, 0)];
    let interactables = vec![target()];
    let report = interact(&events, &interactables);
    assert_eq!(report, vec![vec![Some(true)], vec![Some(false)]]);
}

#[test]
fn interactable_without_size_is_skipped() {
    let events = vec![event_at(250, 0)];
    let unsized_target = Interactable { entity: 3, position: at(250, 0), size: None };
    let report = interact(&events, &vec![unsized_target, target()]);
    assert_eq!(report, vec![vec![None, Some(true)]]);
}

#[test]
fn no_events_no_report() {
    let report = interact(&vec![], &vec![target()]);
    assert!(report.is_empty());
    let report = interact(&vec![event_at(0, 0)], &vec![]);
    assert_eq!(report, vec![Vec::<Option<bool>>::new()]);
}

#[test]
fn edge_trigger_fires_once_while_held() {
    let mut t = EdgeTrigger::new();
    let frames = [false, true, true, true, false, true];
    let fired: Vec<bool> = frames.iter().map(|&p| t.just_pressed(p)).collect();
    assert_eq!(fired, vec![false, true, false, false, false, true]);
}

#[test]
fn held_interact_emits_one_event() {
    let owners = vec![ZoneOwner {
        entity: 7,
        position: at(-250, 0),
        zone: InteractionZone::new(UVec2::new(32, 32), at(0, 66)),
    }];
    let mut t = EdgeTrigger::new();
    let mut total = 0;
    for (frame, pressed) in [true, true, true].iter().enumerate() {
        let events = input_handler(&mut t, *pressed, &owners);
        if frame == 0 {
            assert_eq!(events.len(), 1);
            assert_eq!(events[0].entity, 7);
            assert_eq!(events[0].zone.origin, at(-250, 66));
            assert_eq!(events[0].zone.size, UVec2::new(32, 32));
        } else {
            assert!(events.is_empty());
        }
        total += events.len();
    }
    assert_eq!(total, 1);
}

#[test]
fn one_event_per_owner() {
    let owners = vec![
        ZoneOwner { entity: 1, position: at(10, 20), zone: InteractionZone::default() },
        ZoneOwner {
            entity: 2,
            position: at(-5, 5),
            zone: InteractionZone::new(UVec2::new(4, 6), at(-41, 0)),
        },
    ];
    let mut t = EdgeTrigger::new();
    let events = input_handler(&mut t, true, &owners);
    assert_eq!(events.len(), 2);
    assert_eq!(events[0].zone.origin, at(10, 20));
    assert_eq!(events[1].entity, 2);
    assert_eq!(events[1].zone.origin, at(-46, 5));
    assert_eq!(events[1].zone.size, UVec2::new(4, 6));
    assert!(input_handler(&mut t, false, &owners).is_empty());
}

#[test]
fn zone_reaim_up() {
    let mut z = InteractionZone::default();
    update_interaction_zone_based_on_input(&mut z, UVec2::new(50, 100), true, false, false, false);
    assert_eq!(z.origin, at(0, 66));
    assert_eq!(z.size, UVec2::new(32, 32));
    update_interaction_zone_based_on_input(&mut z, UVec2::new(50, 100), true, false, false, false);
    assert_eq!(z.origin, at(0, 66));
}

#[test]
fn zone_reaim_other_directions() {
    let body = UVec2::new(50, 100);
    let mut z = InteractionZone::default();
    update_interaction_zone_based_on_input(&mut z, body, false, true, false, false);
    assert_eq!(z.origin, at(0, -66));
    update_interaction_zone_based_on_input(&mut z, body, false, false, true, false);
    assert_eq!(z.origin, at(-41, 0));
    update_interaction_zone_based_on_input(&mut z, body, false, false, false, true);
    assert_eq!(z.origin, at(41, 0));
    update_interaction_zone_based_on_input(&mut z, body, false, false, false, false);
    assert_eq!(z.origin, at(41, 0));
    update_interaction_zone_based_on_input(&mut z, body, true, false, true, false);
    assert_eq!(z.origin, at(0, 66));
}

#[test]
fn zone_reaim_odd_sizes_is_flush() {
    let body_size = UVec2::new(50, 100);
    let position = at(-250, 0);
    let body = Rectangle::from_center_size(position, body_size);
    let mut z = InteractionZone::new(UVec2::new(33, 33), at(0, 0));
    update_interaction_zone_based_on_input(&mut z, body_size, true, false, false, false);
    // 66.5 world units above the body's center
    assert_eq!(z.origin, IVec2::new(0, 133));
    let placed = |z: &InteractionZone| {
        Rectangle::from_center_size(IVec2::new(position.x + z.origin.x, position.y + z.origin.y), z.size)
    };
    assert!(!overlaps(&placed(&z), &body));
    // moved one half unit closer, it would overlap
    let closer = InteractionZone::new(z.size, IVec2::new(0, 132));
    assert!(overlaps(&placed(&closer), &body));
    update_interaction_zone_based_on_input(&mut z, body_size, false, false, true, false);
    assert_eq!(z.origin, IVec2::new(-83, 0));
    assert!(!overlaps(&placed(&z), &body));
}
