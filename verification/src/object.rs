//! The moving box: where it is, where it heads, what it runs into.

use crate::angle::{wrap_turn, wrapped, FULL_TURN, HALF_TURN, QUARTER_TURN, THREE_QUARTER_TURN};
use crate::chance::draw_between;
use vstd::prelude::*;

verus! {

/// What goes wrong inside the rules themselves.
#[derive(Clone, Copy, Debug, PartialEq, Eq, Structural)]
pub enum Fault {
    /// A case was reached that the geometry should have ruled out.
    InvalidState,
}

/// How fast a box travels, if it travels.
#[derive(Clone, Copy, Debug, PartialEq, Eq, Structural)]
pub enum Speed {
    /// `scala` length units per second.
    Go { scala: u64 },
    /// At rest.
    Still,
}

/// The edge of the arena that a box came in from.
#[derive(Clone, Copy, Debug, PartialEq, Eq, Structural)]
pub enum Side {
    /// Not placed yet.
    Nowhere,
    Center,
    Up,
    Down,
    Right,
    Left,
}

/// A steering input.
#[derive(Clone, Copy, Debug, PartialEq, Eq, Structural)]
pub enum Input {
    Right,
    Left,
    Up,
    Down,
    /// Any input that does not steer.
    Other,
}

/// A direction, as an angle in ticks. The angle is kept as given: any whole
/// number is a direction, and only a rebound brings it into one turn.
#[derive(Clone, Copy, Debug, PartialEq, Eq, Structural)]
pub struct Arrow {
    theta: i64,
}

impl View for Arrow {
    type V = int;

    closed spec fn view(&self) -> int {
        self.theta as int
    }
}

impl Arrow {
    /// The direction at angle `theta`.
    pub fn new(theta: i64) -> (arrow: Arrow)
        ensures
            arrow@ == theta,
    {
        Arrow { theta }
    }

    /// The angle of this direction.
    pub fn show_theta(&self) -> (theta: i64)
        ensures
            theta == self@,
    {
        self.theta
    }
}

/// Whether a box of length `extent` that starts at `at` lies within a room
/// of length `room`, its ends included.
pub open spec fn fits(room: int, extent: int, at: int) -> bool {
    0 <= at <= room - extent
}

/// Whether a box of `size` at `pos` lies within `arena` on both axes.
pub open spec fn contained(arena: (u32, u32), size: (i32, i32), pos: (int, int)) -> bool {
    fits(arena.0 as int, size.0 as int, pos.0) && fits(arena.1 as int, size.1 as int, pos.1)
}

/// The angle that a rebound mirrors the heading `theta` about: a half turn
/// off a side wall, a full turn off the top or the bottom, twice the heading
/// in a corner. There is none where the box left on neither axis.
pub open spec fn bounce_target(inside_x: bool, inside_y: bool, theta: int) -> Option<int> {
    if !inside_x && inside_y {
        Some(HALF_TURN as int)
    } else if inside_x && !inside_y {
        Some(FULL_TURN as int)
    } else if !inside_x && !inside_y {
        Some(2 * theta)
    } else {
        None
    }
}

/// The heading after a rebound, where there is one.
pub open spec fn rebounded(inside_x: bool, inside_y: bool, theta: int) -> Option<int> {
    match bounce_target(inside_x, inside_y, theta) {
        Some(target) => Some(wrapped(target - theta)),
        None => None,
    }
}

/// The absolute heading that a steering input stands for.
pub open spec fn key_theta(key: Input) -> Option<int> {
    match key {
        Input::Right => Some(0int),
        Input::Left => Some(HALF_TURN as int),
        Input::Up => Some(THREE_QUARTER_TURN as int),
        Input::Down => Some(QUARTER_TURN as int),
        Input::Other => None,
    }
}

/// The heading after `key`, coming from heading `theta`.
pub open spec fn turned(theta: int, key: Input) -> int {
    match key_theta(key) {
        Some(absolute) => absolute,
        None => theta,
    }
}

/// Whether the box `a` hits the box `b`. On each axis the distance between
/// the two corners is held against one box only: against `b` where `a` is
/// not before `b`, against `a` where it is.
pub open spec fn hits(
    a_pos: (int, int),
    a_size: (i32, i32),
    b_pos: (int, int),
    b_size: (i32, i32),
) -> bool {
    let dx = a_pos.0 - b_pos.0;
    let dy = a_pos.1 - b_pos.1;
    (if dx >= 0 {
        dx <= b_size.0
    } else {
        -dx <= a_size.0
    }) && (if dy >= 0 {
        dy <= b_size.1
    } else {
        -dy <= a_size.1
    })
}

/// The interval that the heading of a box from `side` is drawn from, as its
/// first angle and the angle just beyond its last: half a turn that points
/// into the arena, or the whole turn from the centre. A box that was never
/// placed has none.
pub open spec fn spread(side: Side) -> Option<(int, int)> {
    match side {
        Side::Up => Some((0int, HALF_TURN as int)),
        Side::Right => Some((QUARTER_TURN as int, THREE_QUARTER_TURN as int)),
        Side::Down => Some((HALF_TURN as int, FULL_TURN as int)),
        Side::Left => Some((-QUARTER_TURN as int, QUARTER_TURN as int)),
        Side::Center => Some((0int, FULL_TURN as int)),
        Side::Nowhere => None,
    }
}

/// How many places along its edge a box of `size` has to start from: the
/// room that the arena leaves along the top and bottom edges, or along the
/// left and right ones. The centre has no such choice.
pub open spec fn edge_room(arena: (u32, u32), size: (i32, i32), side: Side) -> int {
    match side {
        Side::Up | Side::Down => arena.0 - size.0,
        Side::Left | Side::Right => arena.1 - size.1,
        Side::Center | Side::Nowhere => 0,
    }
}

/// Where a box of `size` starts that comes in from `side`, `along` units
/// down that edge: against the edge, or at the centre of the arena where no
/// edge is named.
pub open spec fn edge_place(arena: (u32, u32), size: (i32, i32), side: Side, along: int) -> (
    int,
    int,
) {
    match side {
        Side::Up => (along, 0int),
        Side::Down => (along, arena.1 - size.1),
        Side::Left => (0int, along),
        Side::Right => (arena.0 - size.0, along),
        Side::Center | Side::Nowhere => (arena.0 as int / 2, arena.1 as int / 2),
    }
}

/// Whether `at` is a place where a box of `size` may start that comes in
/// from `side`: against that edge, with room left to the far end of it, or
/// at the centre of the arena where no edge is named.
pub open spec fn on_edge(arena: (u32, u32), size: (i32, i32), side: Side, at: (int, int)) -> bool {
    match side {
        Side::Up | Side::Down => 0 <= at.0 < edge_room(arena, size, side) && at == edge_place(
            arena,
            size,
            side,
            at.0,
        ),
        Side::Left | Side::Right => 0 <= at.1 < edge_room(arena, size, side) && at == edge_place(
            arena,
            size,
            side,
            at.1,
        ),
        Side::Center | Side::Nowhere => at == edge_place(arena, size, side, 0),
    }
}

fn between(low: i128, high: i128, target: i128) -> (inside: bool)
    ensures
        inside == (low <= target <= high),
{
    low <= target && target <= high
}

/// The heading that leaves an arena wall behind.
///
/// `inside_x` and `inside_y` say on which axes the attempted position still
/// lay within the arena. Where it did on both there is nothing to rebound
/// from, and the call fails.
pub fn rebound(inside_x: bool, inside_y: bool, theta: i64) -> (r: Result<i64, Fault>)
    ensures
        inside_x && inside_y <==> r == Err::<i64, Fault>(Fault::InvalidState),
        !(inside_x && inside_y) <==> r is Ok,
        r matches Ok(heading) ==> rebounded(inside_x, inside_y, theta as int) == Some(
            heading as int,
        ),
        r matches Ok(heading) ==> 0 <= heading <= FULL_TURN,
{
    if inside_x && inside_y {
        Err(Fault::InvalidState)
    } else {
        Ok(bounce(inside_x, inside_y, theta))
    }
}

/// The heading that leaves the wall behind which the attempted position
/// lies, given that it lies behind one.
fn bounce(inside_x: bool, inside_y: bool, theta: i64) -> (heading: i64)
    requires
        !(inside_x && inside_y),
    ensures
        rebounded(inside_x, inside_y, theta as int) == Some(heading as int),
        0 <= heading <= FULL_TURN,
{
    let before: i128 = theta as i128;
    let target: i128 = if inside_y {
        HALF_TURN as i128
    } else if inside_x {
        FULL_TURN as i128
    } else {
        2 * before
    };
    wrap_turn(target - before)
}

/// The heading after `key`, coming from heading `theta`: each steering input
/// stands for one absolute heading, and any other input changes nothing.
pub fn steer(theta: i64, key: Input) -> (heading: i64)
    ensures
        heading == turned(theta as int, key),
{
    match key {
        Input::Right => 0,
        Input::Left => HALF_TURN,
        Input::Up => THREE_QUARTER_TURN,
        Input::Down => QUARTER_TURN,
        Input::Other => theta,
    }
}

/// The interval that the heading of a box from `side` is drawn from.
pub fn spread_of(side: Side) -> (interval: Option<(i64, i64)>)
    ensures
        spread(side) is None <==> interval is None,
        spread(side) matches Some(s) ==> interval == Some((s.0 as i64, s.1 as i64)) && s.0 < s.1,
{
    match side {
        Side::Up => Some((0, HALF_TURN)),
        Side::Right => Some((QUARTER_TURN, THREE_QUARTER_TURN)),
        Side::Down => Some((HALF_TURN, FULL_TURN)),
        Side::Left => Some((-QUARTER_TURN, QUARTER_TURN)),
        Side::Center => Some((0, FULL_TURN)),
        Side::Nowhere => None,
    }
}

/// A box in an arena: the player or an obstacle.
#[derive(Clone, Copy, Debug)]
pub struct Object {
    /// Width and height of the arena that the box was last told of.
    pub background: (u32, u32),
    /// How fast the box travels.
    pub current_speed: Speed,
    /// The corner of the box nearest the arena's first corner.
    pub current_state: (i64, i64),
    /// Width and height of the box.
    pub size: (i32, i32),
    /// The side that the box came in from.
    pub spawn: Side,
    /// Where the box heads.
    pub arrow: Arrow,
}

impl Object {
    /// The position of the box as a pair of mathematical integers.
    pub open spec fn at(&self) -> (int, int) {
        (self.current_state.0 as int, self.current_state.1 as int)
    }

    /// Whether the box would lie within its arena at `pos`.
    pub open spec fn inside_at(&self, pos: (int, int)) -> bool {
        contained(self.background, self.size, pos)
    }

    /// Whether the box lies within its arena.
    pub open spec fn inside(&self) -> bool {
        self.inside_at(self.at())
    }

    /// The heading that the box rebounds to from an attempt to be at `pos`.
    /// There is none where `pos` lies within the arena.
    pub open spec fn rebound_at(&self, pos: (int, int)) -> Option<int> {
        rebounded(
            fits(self.background.0 as int, self.size.0 as int, pos.0),
            fits(self.background.1 as int, self.size.1 as int, pos.1),
            self.arrow@,
        )
    }

    /// Where a displacement of `step` would take the box: nowhere while it is
    /// at rest.
    pub open spec fn attempt(&self, step: (i64, i64)) -> (int, int) {
        match self.current_speed {
            Speed::Go { .. } => (self.current_state.0 + step.0, self.current_state.1 + step.1),
            Speed::Still => self.at(),
        }
    }

    /// Whether `self` and `before` agree in all but position and heading.
    pub open spec fn same_frame(&self, before: &Object) -> bool {
        &&& self.background == before.background
        &&& self.current_speed == before.current_speed
        &&& self.spawn == before.spawn
        &&& self.size == before.size
    }

    /// A box of the given size: at rest at the first corner of an empty
    /// arena, heading at angle zero, not yet placed.
    pub fn new(width: i32, height: i32) -> (object: Object)
        ensures
            object.size == (width, height),
            object.current_state == (0i64, 0i64),
            object.background == (0u32, 0u32),
            object.current_speed == Speed::Still,
            object.spawn == Side::Nowhere,
            object.arrow@ == 0,
    {
        Object {
            background: (0, 0),
            current_state: (0, 0),
            current_speed: Speed::Still,
            size: (width, height),
            spawn: Side::Nowhere,
            arrow: Arrow::new(0),
        }
    }

    /// Tells the box how large the arena is.
    pub fn set_place(&mut self, arena: (u32, u32))
        ensures
            final(self).background == arena,
            final(self).current_speed == old(self).current_speed,
            final(self).spawn == old(self).spawn,
            final(self).size == old(self).size,
            final(self).current_state == old(self).current_state,
            final(self).arrow == old(self).arrow,
    {
        self.background = arena;
    }

    /// Sets the box going at `scala` length units per second.
    pub fn set_speed(&mut self, scala: u64)
        ensures
            final(self).current_speed == (Speed::Go { scala }),
            final(self).background == old(self).background,
            final(self).spawn == old(self).spawn,
            final(self).size == old(self).size,
            final(self).current_state == old(self).current_state,
            final(self).arrow == old(self).arrow,
    {
        self.current_speed = Speed::Go { scala };
    }

    /// Points the box at angle `theta`, which is kept as given.
    pub fn arrow_set(&mut self, theta: i64)
        ensures
            final(self).arrow@ == theta,
            final(self).same_frame(old(self)),
            final(self).current_state == old(self).current_state,
    {
        self.arrow = Arrow::new(theta);
    }

    /// Whether the box lies within its arena, resting against a wall
    /// included.
    pub fn is_wall(&mut self) -> (inside: bool)
        ensures
            inside == old(self).inside(),
            *final(self) == *old(self),
    {
        let room_x: i128 = self.background.0 as i128 - self.size.0 as i128;
        let room_y: i128 = self.background.1 as i128 - self.size.1 as i128;
        between(0, room_x, self.current_state.0 as i128) && between(
            0,
            room_y,
            self.current_state.1 as i128,
        )
    }

    /// Turns the heading of a box that has left its arena back towards it.
    ///
    /// The new heading lies within one turn. A box inside its arena has
    /// nothing to rebound from: the call fails and changes nothing.
    pub fn collide(&mut self) -> (r: Result<(), Fault>)
        ensures
            final(self).same_frame(old(self)),
            final(self).current_state == old(self).current_state,
            old(self).inside() <==> r == Err::<(), Fault>(Fault::InvalidState),
            old(self).inside() ==> final(self).arrow == old(self).arrow,
            !old(self).inside() <==> r is Ok,
            !old(self).inside() ==> old(self).rebound_at(old(self).at()) == Some(
                final(self).arrow@,
            ),
            !old(self).inside() ==> 0 <= final(self).arrow@ <= FULL_TURN,
    {
        let room_x: i128 = self.background.0 as i128 - self.size.0 as i128;
        let room_y: i128 = self.background.1 as i128 - self.size.1 as i128;
        let inside_x = between(0, room_x, self.current_state.0 as i128);
        let inside_y = between(0, room_y, self.current_state.1 as i128);
        match rebound(inside_x, inside_y, self.arrow.show_theta()) {
            Ok(heading) => {
                self.arrow = Arrow::new(heading);
                Ok(())
            },
            Err(fault) => Err(fault),
        }
    }

    /// Moves the box by `step`, the displacement that its heading and speed
    /// give over one frame, unless that takes it out of the arena.
    ///
    /// A box at rest attempts no move. Where the attempted position lies
    /// within the arena, the box takes it. Where it does not, the box stays
    /// where it was and only turns: its heading rebounds off the wall, or
    /// the corner, that the attempt went through.
    pub fn update(&mut self, step: (i64, i64))
        ensures
            final(self).same_frame(old(self)),
            old(self).inside_at(old(self).attempt(step)) ==> final(self).at() == old(self).attempt(
                step,
            ),
            old(self).inside_at(old(self).attempt(step)) ==> final(self).arrow == old(self).arrow,
            !old(self).inside_at(old(self).attempt(step)) ==> final(self).at() == old(self).at(),
            !old(self).inside_at(old(self).attempt(step)) ==> old(self).rebound_at(
                old(self).attempt(step),
            ) == Some(final(self).arrow@),
            !old(self).inside_at(old(self).attempt(step)) ==> 0 <= final(self).arrow@ <= FULL_TURN,
            old(self).inside() ==> final(self).inside(),
    {
        let (x, y): (i128, i128) = match self.current_speed {
            Speed::Go { .. } => (
                self.current_state.0 as i128 + step.0 as i128,
                self.current_state.1 as i128 + step.1 as i128,
            ),
            Speed::Still => (self.current_state.0 as i128, self.current_state.1 as i128),
        };
        let room_x: i128 = self.background.0 as i128 - self.size.0 as i128;
        let room_y: i128 = self.background.1 as i128 - self.size.1 as i128;
        let inside_x = between(0, room_x, x);
        let inside_y = between(0, room_y, y);
        if inside_x && inside_y {
            self.current_state = (x as i64, y as i64);
        } else {
            self.arrow = Arrow::new(bounce(inside_x, inside_y, self.arrow.show_theta()));
        }
    }

    /// Places the box where one that comes in from `pos` starts, `along`
    /// units down that edge, and remembers the side.
    pub fn set_pos_along(&mut self, arena: (u32, u32), pos: Side, along: i64)
        ensures
            final(self).at() == edge_place(arena, old(self).size, pos, along as int),
            final(self).spawn == pos,
            final(self).background == old(self).background,
            final(self).current_speed == old(self).current_speed,
            final(self).size == old(self).size,
            final(self).arrow == old(self).arrow,
    {
        let far_x: i64 = arena.0 as i64 - self.size.0 as i64;
        let far_y: i64 = arena.1 as i64 - self.size.1 as i64;
        self.current_state = match pos {
            Side::Up => (along, 0),
            Side::Right => (far_x, along),
            Side::Down => (along, far_y),
            Side::Left => (0, along),
            Side::Center | Side::Nowhere => ((arena.0 / 2) as i64, (arena.1 / 2) as i64),
        };
        self.spawn = pos;
    }

    /// Places the box at a place drawn by chance along the edge `pos` of the
    /// arena, or at the centre of the arena where `pos` names no edge, and
    /// remembers the side.
    ///
    /// Along the edge named, the arena has to be larger than the box.
    pub fn set_pos(&mut self, arena: (u32, u32), pos: Side)
        requires
            pos != Side::Center && pos != Side::Nowhere ==> edge_room(arena, old(self).size, pos)
                > 0,
        ensures
            on_edge(arena, old(self).size, pos, final(self).at()),
            final(self).spawn == pos,
            final(self).background == old(self).background,
            final(self).current_speed == old(self).current_speed,
            final(self).size == old(self).size,
            final(self).arrow == old(self).arrow,
    {
        let along: i64 = match pos {
            Side::Up | Side::Down => draw_between(0, arena.0 as i64 - self.size.0 as i64),
            Side::Left | Side::Right => draw_between(0, arena.1 as i64 - self.size.1 as i64),
            Side::Center | Side::Nowhere => 0,
        };
        self.set_pos_along(arena, pos, along);
    }

    /// Points the box at an angle drawn by chance from the interval that
    /// belongs to the side it came in from. A box that was never placed has
    /// no such interval: the call fails and changes nothing.
    pub fn random_arrow_set(&mut self) -> (r: Result<(), Fault>)
        ensures
            final(self).same_frame(old(self)),
            final(self).current_state == old(self).current_state,
            old(self).spawn == Side::Nowhere <==> r == Err::<(), Fault>(Fault::InvalidState),
            old(self).spawn == Side::Nowhere ==> final(self).arrow == old(self).arrow,
            old(self).spawn != Side::Nowhere <==> r is Ok,
            spread(old(self).spawn) matches Some(interval) ==> interval.0 <= final(self).arrow@
                < interval.1,
    {
        match spread_of(self.spawn) {
            Some((low, high)) => {
                self.arrow = Arrow::new(draw_between(low, high));
                Ok(())
            },
            None => Err(Fault::InvalidState),
        }
    }

    /// Whether this box hits `other`. The rule is one-sided on each axis:
    /// `a.is_hit(&b)` and `b.is_hit(&a)` agree where no size is negative, and
    /// may differ where one is.
    pub fn is_hit(&self, other: &Object) -> (hit: bool)
        ensures
            hit == hits(self.at(), self.size, other.at(), other.size),
    {
        let dx: i128 = self.current_state.0 as i128 - other.current_state.0 as i128;
        let dy: i128 = self.current_state.1 as i128 - other.current_state.1 as i128;
        let near_x = if dx < 0 {
            -dx <= self.size.0 as i128
        } else {
            dx <= other.size.0 as i128
        };
        let near_y = if dy < 0 {
            -dy <= self.size.1 as i128
        } else {
            dy <= other.size.1 as i128
        };
        near_x && near_y
    }

    /// Steers the box: a steering input sets its absolute heading, any other
    /// input leaves the heading as it is.
    pub fn move_it(&mut self, control: Input)
        ensures
            final(self).arrow@ == turned(old(self).arrow@, control),
            final(self).same_frame(old(self)),
            final(self).current_state == old(self).current_state,
    {
        self.arrow = Arrow::new(steer(self.arrow.show_theta(), control));
    }
}

/// A steering input gives the same heading whatever the heading before.
pub proof fn lemma_steering_forgets(first: int, second: int, key: Input)
    requires
        key != Input::Other,
    ensures
        turned(first, key) == turned(second, key),
        key_theta(key) == Some(turned(first, key)),
{
}

/// Between boxes whose sizes are not negative, the one-sided rule gives the
/// same answer whichever of the two is asked.
pub proof fn lemma_hits_mirrored(
    a_pos: (int, int),
    a_size: (i32, i32),
    b_pos: (int, int),
    b_size: (i32, i32),
)
    requires
        a_size.0 >= 0 && a_size.1 >= 0,
        b_size.0 >= 0 && b_size.1 >= 0,
    ensures
        hits(a_pos, a_size, b_pos, b_size) == hits(b_pos, b_size, a_pos, a_size),
{
}

/// A box that starts on an edge of an arena in which it fits starts within
/// that arena.
pub proof fn lemma_edge_start_contained(
    arena: (u32, u32),
    size: (i32, i32),
    side: Side,
    at: (int, int),
)
    requires
        side != Side::Center && side != Side::Nowhere,
        size.0 <= arena.0,
        size.1 <= arena.1,
        on_edge(arena, size, side, at),
    ensures
        contained(arena, size, at),
{
}

/// A rebound in a corner keeps a heading that lies within one turn: what is
/// mirrored about twice the heading is the heading itself.
pub proof fn lemma_corner_keeps_heading(theta: int)
    requires
        0 <= theta <= FULL_TURN,
    ensures
        rebounded(false, false, theta) == Some(theta),
{
}

/// Two rebounds off the same wall give back the heading that the first one
/// started from, up to whole turns, and exactly that heading where it lay
/// within one turn and was not a full turn itself.
pub proof fn lemma_rebound_twice(inside_x: bool, inside_y: bool, theta: int)
    requires
        inside_x != inside_y,
    ensures
        rebounded(inside_x, inside_y, theta) matches Some(once) && rebounded(
            inside_x,
            inside_y,
            once,
        ) matches Some(twice) && (twice - theta) % (FULL_TURN as int) == 0 && (0 <= theta
            < FULL_TURN ==> twice == theta),
{
}

/// A box that is no larger than the arena is contained in it at the arena's
/// first corner and at the last place where it still fits.
pub proof fn lemma_corners_contained(arena: (u32, u32), size: (i32, i32))
    requires
        size.0 <= arena.0,
        size.1 <= arena.1,
    ensures
        contained(arena, size, (0, 0)),
        contained(arena, size, (arena.0 - size.0, arena.1 - size.1)),
{
}

} // verus!
