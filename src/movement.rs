//! Clamping the controlled body's wished movement against static colliders,
//! and committing what is left of it to the body's position.
use vstd::prelude::*;
use vstd::seq_lib::to_multiset_contains;
use crate::geometry::{classify_collision, collision_of, rects_overlap, Collision, IVec2, Rectangle, UVec2};

verus! {

/// Marks an entity as blocking movement. The rectangle has this size and is
/// centered on the entity's position.
#[derive(Clone, Copy, Debug, PartialEq, Eq, Structural)]
pub struct Collider {
    pub size: UVec2,
}

/// The body whose movement is resolved: where it is, and its collider if it has one.
#[derive(Clone, Copy, Debug, PartialEq, Eq, Structural)]
pub struct ControlledBody {
    pub position: IVec2,
    pub collider: Option<Collider>,
}

/// The displacement (in half units) that the controlled body wishes to make
/// this frame, before it is clamped against obstacles.
#[derive(Clone, Copy, Debug, PartialEq, Eq, Structural)]
pub struct PlayerMovement {
    pub player_movement: IVec2,
}

impl PlayerMovement {
    pub fn new(x: i32, y: i32) -> (r: PlayerMovement)
        ensures
            r.player_movement == (IVec2 { x, y }),
    {
        PlayerMovement { player_movement: IVec2::new(x, y) }
    }
}

pub open spec fn fits_i32(v: int) -> bool {
    i32::MIN <= v <= i32::MAX
}

/// `position + p` is representable.
pub open spec fn can_move(position: IVec2, p: IVec2) -> bool {
    fits_i32(position.x + p.x) && fits_i32(position.y + p.y)
}

pub open spec fn moved(position: IVec2, p: IVec2) -> IVec2 {
    IVec2 { x: (position.x + p.x) as i32, y: (position.y + p.y) as i32 }
}

/// The rectangle of a body of size `size` standing at `position`.
pub open spec fn body_rect(position: IVec2, size: UVec2) -> Rectangle {
    Rectangle { center: position, size }
}

/// An x movement of `dx` goes into an obstacle entered through side `c`.
pub open spec fn blocks_x(c: Option<Collision>, dx: int) -> bool {
    (c == Some(Collision::Right) && dx < 0) || (c == Some(Collision::Left) && dx > 0)
}

/// A y movement of `dy` goes into an obstacle entered through side `c`.
pub open spec fn blocks_y(c: Option<Collision>, dy: int) -> bool {
    (c == Some(Collision::Bottom) && dy > 0) || (c == Some(Collision::Top) && dy < 0)
}

/// `p` with each component zeroed that goes into an obstacle entered through `c`.
pub open spec fn clamped(c: Option<Collision>, p: IVec2) -> IVec2 {
    IVec2 {
        x: if blocks_x(c, p.x as int) { 0 } else { p.x },
        y: if blocks_y(c, p.y as int) { 0 } else { p.y },
    }
}

/// Some obstacle, entered by `next`, blocks an x movement of `dx`.
pub open spec fn x_blocked(next: Rectangle, obstacles: Seq<Rectangle>, dx: int) -> bool {
    exists|i: int| 0 <= i < obstacles.len() && blocks_x(collision_of(next, #[trigger] obstacles[i]), dx)
}

/// Some obstacle, entered by `next`, blocks a y movement of `dy`.
pub open spec fn y_blocked(next: Rectangle, obstacles: Seq<Rectangle>, dy: int) -> bool {
    exists|i: int| 0 <= i < obstacles.len() && blocks_y(collision_of(next, #[trigger] obstacles[i]), dy)
}

/// The movement `p` after clamping, for a body about to occupy `next`: each
/// component is zeroed when any obstacle blocks it, and kept otherwise.
pub open spec fn resolved_movement(next: Rectangle, obstacles: Seq<Rectangle>, p: IVec2) -> IVec2 {
    IVec2 {
        x: if x_blocked(next, obstacles, p.x as int) { 0 } else { p.x },
        y: if y_blocked(next, obstacles, p.y as int) { 0 } else { p.y },
    }
}

/// Exactly one controlled body, and it has a collider.
pub open spec fn single_collider(players: Seq<ControlledBody>) -> bool {
    players.len() == 1 && players[0].collider is Some
}

/// What the wished movement `p` becomes: clamped against `obstacles` when
/// there is exactly one controlled body and it has a collider, else unchanged.
pub open spec fn movement_after_check(
    players: Seq<ControlledBody>,
    obstacles: Seq<Rectangle>,
    p: IVec2,
) -> IVec2 {
    if single_collider(players) {
        let body = players[0];
        resolved_movement(
            body_rect(moved(body.position, p), body.collider->Some_0.size),
            obstacles,
            p,
        )
    } else {
        p
    }
}

/// Zeroes the component of `player_movement` that goes into an obstacle
/// entered through side `collided`; a movement away from it is kept.
pub fn deal_with_collision(collided: Collision, player_movement: &mut IVec2)
    ensures
        *final(player_movement) == clamped(Some(collided), *old(player_movement)),
{
    match collided {
        Collision::Right => {
            if player_movement.x < 0 {
                player_movement.x = 0;
            }
        },
        Collision::Left => {
            if player_movement.x > 0 {
                player_movement.x = 0;
            }
        },
        Collision::Bottom => {
            if player_movement.y > 0 {
                player_movement.y = 0;
            }
        },
        Collision::Top => {
            if player_movement.y < 0 {
                player_movement.y = 0;
            }
        },
        Collision::Inside => {},
    }
}

/// Clamps the wished movement against every static collider. Does nothing
/// unless `players` holds exactly one body and that body has a collider.
pub fn check_for_collisions(
    players: &Vec<ControlledBody>,
    colliders: &Vec<Rectangle>,
    player_movement: &mut PlayerMovement,
)
    requires
        single_collider(players@) ==> can_move(players@[0].position, old(player_movement).player_movement),
    ensures
        final(player_movement).player_movement == movement_after_check(
            players@,
            colliders@,
            old(player_movement).player_movement,
        ),
{
    if players.len() != 1 {
        return;
    }
    let body = players[0];
    let size = match body.collider {
        Some(c) => c.size,
        None => return ,
    };
    let p = player_movement.player_movement;
    let next = Rectangle::from_center_size(
        IVec2::new(body.position.x + p.x, body.position.y + p.y),
        size,
    );
    let mut m = p;
    let mut i: usize = 0;
    while i < colliders.len()
        invariant
            i <= colliders@.len(),
            m.x == if (exists|j: int|
                0 <= j < i && blocks_x(collision_of(next, #[trigger] colliders@[j]), p.x as int)) {
                0
            } else {
                p.x
            },
            m.y == if (exists|j: int|
                0 <= j < i && blocks_y(collision_of(next, #[trigger] colliders@[j]), p.y as int)) {
                0
            } else {
                p.y
            },
        decreases colliders@.len() - i,
    {
        let c = classify_collision(&next, &colliders[i]);
        match c {
            Some(side) => deal_with_collision(side, &mut m),
            None => {},
        }
        assert(c == collision_of(next, colliders@[i as int]));
        i += 1;
    }
    player_movement.player_movement = m;
}

/// Commits the wished movement to the position of the controlled body.
/// Does nothing unless `players` holds exactly one body.
pub fn move_player(players: &mut Vec<ControlledBody>, player_movement: &PlayerMovement)
    requires
        old(players)@.len() == 1 ==> can_move(old(players)@[0].position, player_movement.player_movement),
    ensures
        final(players)@ == if old(players)@.len() == 1 {
            old(players)@.update(
                0,
                ControlledBody {
                    position: moved(old(players)@[0].position, player_movement.player_movement),
                    collider: old(players)@[0].collider,
                },
            )
        } else {
            old(players)@
        },
{
    if players.len() != 1 {
        return;
    }
    let mut body = players[0];
    let p = player_movement.player_movement;
    body.position = IVec2::new(body.position.x + p.x, body.position.y + p.y);
    players[0] = body;
}

/// A body that would enter an obstacle through the obstacle's right face has
/// its x movement zeroed when it moves left, and kept when it moves right.
pub proof fn lemma_right_face_clamp(next: Rectangle, obstacle: Rectangle, p: IVec2)
    requires
        collision_of(next, obstacle) == Some(Collision::Right),
    ensures
        resolved_movement(next, seq![obstacle], p).x == if p.x < 0 {
            0
        } else {
            p.x
        },
        resolved_movement(next, seq![obstacle], p).y == p.y,
{
    let s = seq![obstacle];
    if p.x < 0 {
        assert(blocks_x(collision_of(next, s[0]), p.x as int));
    }
    assert(!y_blocked(next, s, p.y as int));
}

/// A move that does not go left is left whole by obstacles that are each
/// either not entered or entered through their right face.
pub proof fn lemma_right_faces_keep_move(next: Rectangle, obstacles: Seq<Rectangle>, p: IVec2)
    requires
        p.x >= 0,
        forall|i: int|
            0 <= i < obstacles.len() ==> #[trigger] collision_of(next, obstacles[i]) == None::<Collision>
                || collision_of(next, obstacles[i]) == Some(Collision::Right),
    ensures
        resolved_movement(next, obstacles, p) == p,
{
}

/// A move right is stopped on x by any obstacle entered through its left face.
pub proof fn lemma_left_face_clamp(next: Rectangle, obstacles: Seq<Rectangle>, i: int, p: IVec2)
    requires
        0 <= i < obstacles.len(),
        collision_of(next, obstacles[i]) == Some(Collision::Left),
        p.x > 0,
    ensures
        resolved_movement(next, obstacles, p).x == 0,
{
    assert(blocks_x(collision_of(next, obstacles[i]), p.x as int));
}

/// The face of an obstacle that a movement along one axis runs into.
pub open spec fn facing_side(p: IVec2) -> Collision {
    if p.x > 0 {
        Collision::Left
    } else if p.x < 0 {
        Collision::Right
    } else if p.y > 0 {
        Collision::Bottom
    } else if p.y < 0 {
        Collision::Top
    } else {
        Collision::Inside
    }
}

/// A body that starts clear of a single obstacle and moves along one axis
/// ends clear of it, wherever the move would overlap the obstacle through the
/// face that the move runs into. (A move classified as entering through
/// another side, such as a shallow graze of a corner, is not stopped.)
pub proof fn lemma_non_penetration(body: ControlledBody, obstacle: Rectangle, p: IVec2)
    requires
        body.collider is Some,
        can_move(body.position, p),
        p.x == 0 || p.y == 0,
        !rects_overlap(body_rect(body.position, body.collider->Some_0.size), obstacle),
        rects_overlap(body_rect(moved(body.position, p), body.collider->Some_0.size), obstacle)
            ==> collision_of(body_rect(moved(body.position, p), body.collider->Some_0.size), obstacle)
            == Some(facing_side(p)),
    ensures
        !rects_overlap(
            body_rect(
                moved(body.position, movement_after_check(seq![body], seq![obstacle], p)),
                body.collider->Some_0.size,
            ),
            obstacle,
        ),
{
    let size = body.collider->Some_0.size;
    let next = body_rect(moved(body.position, p), size);
    let s = seq![obstacle];
    assert(seq![body][0] == body);
    assert(s[0] == obstacle);
    if rects_overlap(next, obstacle) {
        if p.x != 0 {
            assert(blocks_x(collision_of(next, s[0]), p.x as int));
        } else if p.y != 0 {
            assert(blocks_y(collision_of(next, s[0]), p.y as int));
        }
        assert(moved(body.position, resolved_movement(next, s, p)) == body.position);
    } else {
        assert(!x_blocked(next, s, p.x as int));
        assert(!y_blocked(next, s, p.y as int));
    }
}

/// Obstacles that block a move right (entered through their left face) and a
/// move down (entered through their top face) in the same frame zero both
/// components.
pub proof fn lemma_left_and_top(next: Rectangle, obstacles: Seq<Rectangle>, i: int, j: int, p: IVec2)
    requires
        0 <= i < obstacles.len(),
        0 <= j < obstacles.len(),
        collision_of(next, obstacles[i]) == Some(Collision::Left),
        collision_of(next, obstacles[j]) == Some(Collision::Top),
        p.x > 0,
        p.y < 0,
    ensures
        resolved_movement(next, obstacles, p) == (IVec2 { x: 0, y: 0 }),
{
    assert(blocks_x(collision_of(next, obstacles[i]), p.x as int));
    assert(blocks_y(collision_of(next, obstacles[j]), p.y as int));
}

proof fn lemma_blocked_by_subset(next: Rectangle, a: Seq<Rectangle>, b: Seq<Rectangle>, p: IVec2)
    requires
        forall|r: Rectangle| a.contains(r) ==> b.contains(r),
    ensures
        x_blocked(next, a, p.x as int) ==> x_blocked(next, b, p.x as int),
        y_blocked(next, a, p.y as int) ==> y_blocked(next, b, p.y as int),
{
    if x_blocked(next, a, p.x as int) {
        let i = choose|i: int|
            0 <= i < a.len() && blocks_x(collision_of(next, #[trigger] a[i]), p.x as int);
        assert(a.contains(a[i]));
        let j = choose|j: int| 0 <= j < b.len() && b[j] == a[i];
        assert(blocks_x(collision_of(next, b[j]), p.x as int));
    }
    if y_blocked(next, a, p.y as int) {
        let i = choose|i: int|
            0 <= i < a.len() && blocks_y(collision_of(next, #[trigger] a[i]), p.y as int);
        assert(a.contains(a[i]));
        let j = choose|j: int| 0 <= j < b.len() && b[j] == a[i];
        assert(blocks_y(collision_of(next, b[j]), p.y as int));
    }
}

/// The order in which obstacles are enumerated does not change the resolved
/// movement.
pub proof fn lemma_order_independent(next: Rectangle, a: Seq<Rectangle>, b: Seq<Rectangle>, p: IVec2)
    requires
        a.to_multiset() == b.to_multiset(),
    ensures
        resolved_movement(next, a, p) == resolved_movement(next, b, p),
{
    assert forall|r: Rectangle| a.contains(r) <==> b.contains(r) by {
        to_multiset_contains(a, r);
        to_multiset_contains(b, r);
    }
    lemma_blocked_by_subset(next, a, b, p);
    lemma_blocked_by_subset(next, b, a, p);
}

} // verus!
