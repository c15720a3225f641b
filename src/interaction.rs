//! Interaction zones: rectangles held at an offset from their owner, turned
//! into world-space events when the interact signal is first pressed, and
//! tested against every interactable.
use vstd::prelude::*;
use crate::geometry::{max_x, max_y, min_x, min_y, rects_overlap, IVec2, Rectangle, UVec2};
use crate::movement::body_rect;
use crate::movement::{can_move, moved};

verus! {

/// The side length of a zone made by `InteractionZone::default`.
pub const DEFAULT_ZONE_SIDE: u32 = 32;

/// An entity that interaction zones can find, with the rectangle it shows:
/// its position and, when it has one, its size.
#[derive(Clone, Copy, Debug, PartialEq, Eq, Structural)]
pub struct Interactable {
    pub entity: u64,
    pub position: IVec2,
    pub size: Option<UVec2>,
}

/// A rectangle of `size` whose center is offset by `origin` from its owner's
/// position. In an `InteractionEvent`, `origin` is the center in world space.
#[derive(Clone, Copy, Debug, PartialEq, Eq, Structural)]
pub struct InteractionZone {
    pub size: UVec2,
    pub origin: IVec2,
}

/// A zone resolved into world space for the entity that triggered it.
#[derive(Clone, Copy, Debug, PartialEq, Eq, Structural)]
pub struct InteractionEvent {
    pub entity: u64,
    pub zone: InteractionZone,
}

/// An entity that carries a zone and can trigger it.
#[derive(Clone, Copy, Debug, PartialEq, Eq, Structural)]
pub struct ZoneOwner {
    pub entity: u64,
    pub position: IVec2,
    pub zone: InteractionZone,
}

/// The four directions of movement.
#[derive(Clone, Copy, Debug, PartialEq, Eq, Structural)]
pub enum MOVEMENT {
    LEFT,
    RIGHT,
    UP,
    DOWN,
}

/// Turns a signal that may be held over many frames into a firing on the
/// frame where it goes from released to pressed.
#[derive(Clone, Copy, Debug, PartialEq, Eq, Structural)]
pub struct EdgeTrigger {
    pub held: bool,
}

/// The rectangle that `z` stands for, taking `origin` as its center.
pub open spec fn zone_rect(z: InteractionZone) -> Rectangle {
    Rectangle { center: z.origin, size: z.size }
}

/// A trigger that was `was_held` last frame fires on a frame where it is `pressed`.
pub open spec fn edge_fires(was_held: bool, pressed: bool) -> bool {
    pressed && !was_held
}

/// Frame by frame, whether a trigger that starts as `held` fires when it
/// sees the signals `frames`.
pub open spec fn firings(held: bool, frames: Seq<bool>) -> Seq<bool> {
    Seq::new(
        frames.len(),
        |i: int|
            edge_fires(
                if i == 0 {
                    held
                } else {
                    frames[i - 1]
                },
                frames[i],
            ),
    )
}

/// The event of `owner`'s zone: same size, centered at the owner's position
/// plus the zone's offset.
pub open spec fn event_for(owner: ZoneOwner) -> InteractionEvent {
    InteractionEvent {
        entity: owner.entity,
        zone: InteractionZone { size: owner.zone.size, origin: moved(owner.position, owner.zone.origin) },
    }
}

/// Whether `t` intersects the zone of `e`; `None` where `t` has no size.
pub open spec fn interactable_hit(e: InteractionEvent, t: Interactable) -> Option<bool> {
    match t.size {
        Some(s) => Some(rects_overlap(Rectangle { center: t.position, size: s }, zone_rect(e.zone))),
        None => None,
    }
}

/// The first direction pressed, looking at up, down, left and right in that order.
pub open spec fn first_direction(up: bool, down: bool, left: bool, right: bool) -> Option<MOVEMENT> {
    if up {
        Some(MOVEMENT::UP)
    } else if down {
        Some(MOVEMENT::DOWN)
    } else if left {
        Some(MOVEMENT::LEFT)
    } else if right {
        Some(MOVEMENT::RIGHT)
    } else {
        None
    }
}

/// The offset (in half units) that puts a zone of `zone` size flush against
/// the side of a body of `body` size that faces `dir`: half the sum of the two
/// extents along that axis, with the direction's sign.
pub open spec fn flush_origin(dir: MOVEMENT, body: UVec2, zone: UVec2) -> IVec2 {
    let half_x = body.x + zone.x;
    let half_y = body.y + zone.y;
    match dir {
        MOVEMENT::UP => IVec2 { x: 0, y: half_y as i32 },
        MOVEMENT::DOWN => IVec2 { x: 0, y: (-half_y) as i32 },
        MOVEMENT::LEFT => IVec2 { x: (-half_x) as i32, y: 0 },
        MOVEMENT::RIGHT => IVec2 { x: half_x as i32, y: 0 },
    }
}

/// The offset that `flush_origin` gives for `dir` is representable.
pub open spec fn reaim_fits(dir: MOVEMENT, body: UVec2, zone: UVec2) -> bool {
    match dir {
        MOVEMENT::UP | MOVEMENT::DOWN => body.y + zone.y <= i32::MAX,
        MOVEMENT::LEFT | MOVEMENT::RIGHT => body.x + zone.x <= i32::MAX,
    }
}

/// `zone` touches the side of `body` that faces `dir`, edge to edge, and is
/// centered on `body` along the other axis.
pub open spec fn flush_against(dir: MOVEMENT, zone: Rectangle, body: Rectangle) -> bool {
    match dir {
        MOVEMENT::UP => min_y(zone) == max_y(body) && zone.center.x == body.center.x,
        MOVEMENT::DOWN => max_y(zone) == min_y(body) && zone.center.x == body.center.x,
        MOVEMENT::LEFT => max_x(zone) == min_x(body) && zone.center.y == body.center.y,
        MOVEMENT::RIGHT => min_x(zone) == max_x(body) && zone.center.y == body.center.y,
    }
}

/// The rectangle of a body of `size` centered on its own position.
pub open spec fn own_rect(size: UVec2) -> Rectangle {
    Rectangle { center: IVec2 { x: 0, y: 0 }, size }
}

impl InteractionZone {
    pub fn new(size: UVec2, origin: IVec2) -> (r: InteractionZone)
        ensures
            r.size == size,
            r.origin == origin,
    {
        InteractionZone { size, origin }
    }

    pub fn update_origin(&mut self, origin: IVec2)
        ensures
            final(self).size == old(self).size,
            final(self).origin == origin,
    {
        self.origin = origin;
    }

    pub fn update_size(&mut self, size: UVec2)
        ensures
            final(self).size == size,
            final(self).origin == old(self).origin,
    {
        self.size = size;
    }

    /// Whether the two zones, each taken as centered at its `origin`, share
    /// an intersection of positive area.
    pub fn intersects_with_zone(&self, other: &InteractionZone) -> (r: bool)
        ensures
            r == rects_overlap(zone_rect(*self), zone_rect(*other)),
    {
        let a = Rectangle::from_center_size(self.origin, self.size);
        let b = Rectangle::from_center_size(other.origin, other.size);
        crate::geometry::overlaps(&a, &b)
    }
}

impl Default for InteractionZone {
    fn default() -> (r: InteractionZone)
        ensures
            r == (InteractionZone {
                size: UVec2 { x: DEFAULT_ZONE_SIDE, y: DEFAULT_ZONE_SIDE },
                origin: IVec2 { x: 0, y: 0 },
            }),
    {
        InteractionZone {
            size: UVec2::new(DEFAULT_ZONE_SIDE, DEFAULT_ZONE_SIDE),
            origin: IVec2::new(0, 0),
        }
    }
}

impl EdgeTrigger {
    pub fn new() -> (r: EdgeTrigger)
        ensures
            !r.held,
    {
        EdgeTrigger { held: false }
    }

    /// Records this frame's signal; true only on a frame where it is
    /// pressed after a frame where it was not.
    pub fn just_pressed(&mut self, pressed: bool) -> (r: bool)
        ensures
            r == edge_fires(old(self).held, pressed),
            final(self).held == pressed,
    {
        let fired = pressed && !self.held;
        self.held = pressed;
        fired
    }
}

/// Feeds this frame's interact signal to `trigger`. On the frame where it
/// fires, returns one event per owner, in order; on any other frame none.
pub fn input_handler(trigger: &mut EdgeTrigger, pressed: bool, owners: &Vec<ZoneOwner>) -> (r: Vec<
    InteractionEvent,
>)
    requires
        edge_fires(old(trigger).held, pressed) ==> forall|i: int|
            0 <= i < owners@.len() ==> can_move(owners@[i].position, #[trigger] owners@[i].zone.origin),
    ensures
        final(trigger).held == pressed,
        r@.len() == if edge_fires(old(trigger).held, pressed) {
            owners@.len()
        } else {
            0
        },
        forall|i: int| 0 <= i < r@.len() ==> #[trigger] r@[i] == event_for(owners@[i]),
{
    let mut events: Vec<InteractionEvent> = Vec::new();
    if !trigger.just_pressed(pressed) {
        return events;
    }
    let mut i: usize = 0;
    while i < owners.len()
        invariant
            i <= owners@.len(),
            events@.len() == i,
            forall|k: int| 0 <= k < owners@.len() ==> can_move(owners@[k].position, #[trigger] owners@[k].zone.origin),
            forall|k: int| 0 <= k < i ==> #[trigger] events@[k] == event_for(owners@[k]),
        decreases owners@.len() - i,
    {
        let owner = owners[i];
        assert(can_move(owners@[i as int].position, owners@[i as int].zone.origin));
        let center = IVec2::new(
            owner.position.x + owner.zone.origin.x,
            owner.position.y + owner.zone.origin.y,
        );
        events.push(InteractionEvent { entity: owner.entity, zone: InteractionZone::new(owner.zone.size, center) });
        i += 1;
    }
    events
}

/// For each event, in order, and each interactable, in order: whether the
/// interactable's rectangle intersects the event's zone, or `None` where the
/// interactable has no size.
pub fn interact(events: &Vec<InteractionEvent>, interactables: &Vec<Interactable>) -> (r: Vec<
    Vec<Option<bool>>,
>)
    ensures
        r@.len() == events@.len(),
        forall|i: int| 0 <= i < r@.len() ==> (#[trigger] r@[i])@.len() == interactables@.len(),
        forall|i: int, j: int|
            0 <= i < r@.len() && 0 <= j < interactables@.len() ==> #[trigger] r@[i]@[j]
                == interactable_hit(events@[i], interactables@[j]),
{
    let mut report: Vec<Vec<Option<bool>>> = Vec::new();
    let mut i: usize = 0;
    while i < events.len()
        invariant
            i <= events@.len(),
            report@.len() == i,
            forall|k: int| 0 <= k < i ==> (#[trigger] report@[k])@.len() == interactables@.len(),
            forall|k: int, j: int|
                0 <= k < i && 0 <= j < interactables@.len() ==> #[trigger] report@[k]@[j]
                    == interactable_hit(events@[k], interactables@[j]),
        decreases events@.len() - i,
    {
        let event = events[i];
        let mut row: Vec<Option<bool>> = Vec::new();
        let mut j: usize = 0;
        while j < interactables.len()
            invariant
                j <= interactables@.len(),
                row@.len() == j,
                event == events@[i as int],
                forall|l: int| 0 <= l < j ==> #[trigger] row@[l] == interactable_hit(event, interactables@[l]),
            decreases interactables@.len() - j,
        {
            let t = interactables[j];
            let hit = match t.size {
                Some(size) => {
                    let zone = InteractionZone::new(size, t.position);
                    Some(zone.intersects_with_zone(&event.zone))
                },
                None => None,
            };
            row.push(hit);
            j += 1;
        }
        report.push(row);
        i += 1;
    }
    report
}

/// Re-aims `zone` at the first direction the body has just moved in (up,
/// down, left, right, in that order), putting it flush against that side of
/// a body of `body_size`. Without any such movement the zone is unchanged.
pub fn update_interaction_zone_based_on_input(
    zone: &mut InteractionZone,
    body_size: UVec2,
    up: bool,
    down: bool,
    left: bool,
    right: bool,
)
    requires
        first_direction(up, down, left, right) is Some ==> reaim_fits(
            first_direction(up, down, left, right)->Some_0,
            body_size,
            old(zone).size,
        ),
    ensures
        final(zone).size == old(zone).size,
        final(zone).origin == match first_direction(up, down, left, right) {
            Some(dir) => flush_origin(dir, body_size, old(zone).size),
            None => old(zone).origin,
        },
        first_direction(up, down, left, right) is Some ==> flush_against(
            first_direction(up, down, left, right)->Some_0,
            zone_rect(*final(zone)),
            own_rect(body_size),
        ),
        first_direction(up, down, left, right) is Some ==> !rects_overlap(
            zone_rect(*final(zone)),
            own_rect(body_size),
        ),
{
    if up {
        let half_y = (body_size.y as u64 + zone.size.y as u64) as i64;
        zone.update_origin(IVec2::new(0, half_y as i32));
    } else if down {
        let half_y = (body_size.y as u64 + zone.size.y as u64) as i64;
        zone.update_origin(IVec2::new(0, (-half_y) as i32));
    } else if left {
        let half_x = (body_size.x as u64 + zone.size.x as u64) as i64;
        zone.update_origin(IVec2::new((-half_x) as i32, 0));
    } else if right {
        let half_x = (body_size.x as u64 + zone.size.x as u64) as i64;
        zone.update_origin(IVec2::new(half_x as i32, 0));
    }
}

/// Wherever the body stands, a zone placed at the offset `flush_origin`
/// gives touches the body's side that faces `dir` and does not overlap it.
pub proof fn lemma_reaimed_zone_flush(dir: MOVEMENT, body_size: UVec2, zone_size: UVec2, position: IVec2)
    requires
        reaim_fits(dir, body_size, zone_size),
        can_move(position, flush_origin(dir, body_size, zone_size)),
    ensures
        flush_against(
            dir,
            Rectangle { center: moved(position, flush_origin(dir, body_size, zone_size)), size: zone_size },
            body_rect(position, body_size),
        ),
        !rects_overlap(
            Rectangle { center: moved(position, flush_origin(dir, body_size, zone_size)), size: zone_size },
            body_rect(position, body_size),
        ),
{
}

/// A signal that is released and then held from frame `k` on fires exactly
/// once, on frame `k`.
pub proof fn lemma_held_fires_once(frames: Seq<bool>, k: int)
    requires
        0 <= k < frames.len(),
        forall|i: int| 0 <= i < frames.len() ==> #[trigger] frames[i] == (i >= k),
    ensures
        forall|i: int| 0 <= i < frames.len() ==> #[trigger] firings(false, frames)[i] == (i == k),
{
    assert forall|i: int| 0 <= i < frames.len() implies #[trigger] firings(false, frames)[i] == (i == k) by {
        if i > 0 {
            assert(frames[i - 1] == (i - 1 >= k));
        }
        assert(frames[i] == (i >= k));
    }
}

} // verus!
