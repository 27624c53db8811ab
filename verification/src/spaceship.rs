//! The craft: a body rectangle with two portholes, a head wedge above it and
//! two tail wedges at its lower corners. It moves up and down, dies when a
//! projectile touches it and may come back once a cooldown has passed.

use crate::geometry::is_point_within_triangle;
use crate::geometry::point_in_triangle;
use crate::geometry::Color;
use crate::geometry::Point;
use crate::geometry::Rect;
use crate::missile::Missile;
use crate::missile::ToPoints;
use crate::time::nanos_since;
use crate::WINDOW_HEIGHT;
use crate::WINDOW_WIDTH;
use std::time::Instant;
use vstd::prelude::*;

verus! {

/// The distance a craft covers in one move (in pixels).
pub const SPACESHIP_SPEED: i32 = 8;

/// The width of a craft's body (in pixels).
pub const SPACESHIP_BODY_WIDTH: u32 = 25;

/// The height of a craft's body (in pixels).
pub const SPACESHIP_BODY_HEIGHT: u32 = 60;

/// The height of the head wedge: as much as the body is wide.
pub const SPACESHIP_HEAD_SIZE: u32 = SPACESHIP_BODY_WIDTH;

/// How far each tail wedge reaches out of the body, sideways and downwards.
pub const SPACESHIP_TAIL_SIZE: i16 = (SPACESHIP_BODY_WIDTH / 4 * 3) as i16;

/// Where the first player's craft appears: centred on the first quarter of
/// the screen's width.
pub const SPACESHIP_P1_X: i32 = (WINDOW_WIDTH / 4 - SPACESHIP_BODY_WIDTH / 2) as i32;

/// Where the first player's craft appears: its body stands on the lower edge
/// of the screen.
pub const SPACESHIP_P1_Y: i32 = (WINDOW_HEIGHT - SPACESHIP_BODY_HEIGHT) as i32;

/// Where the second player's craft appears: half a screen to the right of
/// the first.
pub const SPACESHIP_P2_X: i32 = SPACESHIP_P1_X + (WINDOW_WIDTH / 2) as i32;

/// The second player's craft appears as high as the first.
pub const SPACESHIP_P2_Y: i32 = SPACESHIP_P1_Y;

/// How long a craft stays away after its death, in nanoseconds: one second.
pub const SPACESHIP_DEATH_TIME: u128 = 1_000_000_000;

/// A craft: the three parts of its shape, whether it is alive, and when it
/// last died.
pub struct Spaceship {
    pub body: SpaceshipBody,
    pub head: SpaceshipHead,
    pub tail: SpaceshipTail,
    pub is_alive: bool,
    /// When the craft last died, or was created if it never did. A craft
    /// always has one, so a dead craft's cooldown can always be measured.
    pub death_instant: Instant,
}

/// The main part of a craft: a rectangle with two round portholes.
pub struct SpaceshipBody {
    pub rect: Rect,
    pub body_color: Color,
    pub porthole_1: (i16, i16),
    pub porthole_2: (i16, i16),
    pub porthole_r: i16,
    pub porthole_color: Color,
}

/// The tip of a craft: a wedge on top of the body.
pub struct SpaceshipHead {
    pub triangle_x: [i16; 3],
    pub triangle_y: [i16; 3],
    pub color: Color,
}

/// The legs of a craft: a wedge at each lower corner of the body.
pub struct SpaceshipTail {
    pub left_triangle_x: [i16; 3],
    pub left_triangle_y: [i16; 3],
    pub right_triangle_x: [i16; 3],
    pub right_triangle_y: [i16; 3],
    pub color: Color,
}

/// Whether a 16-bit coordinate can be moved by `dy` without leaving its type.
pub open spec fn can_shift(v: i16, dy: int) -> bool {
    i16::MIN <= v + dy <= i16::MAX
}

/// Whether each of a wedge's three Y coordinates can be moved by `dy`.
pub open spec fn can_shift_all(ys: [i16; 3], dy: int) -> bool {
    can_shift(ys[0], dy) && can_shift(ys[1], dy) && can_shift(ys[2], dy)
}

/// A wedge's Y coordinates moved by `dy`.
pub open spec fn shifted(ys: [i16; 3], dy: int) -> [i16; 3] {
    [(ys[0] + dy) as i16, (ys[1] + dy) as i16, (ys[2] + dy) as i16]
}

fn shift_all(ys: &[i16; 3], dy: i16) -> (r: [i16; 3])
    requires
        can_shift_all(*ys, dy as int),
    ensures
        r == shifted(*ys, dy as int),
{
    [ys[0] + dy, ys[1] + dy, ys[2] + dy]
}

impl SpaceshipBody {
    /// Whether a body of that width at `(pos_x, pos_y)` has its portholes
    /// within 16-bit coordinates.
    pub open spec fn fits(pos_x: int, pos_y: int, width: int) -> bool {
        &&& 0 <= width
        &&& (width / 3) * 5 <= i16::MAX
        &&& i16::MIN <= pos_x
        &&& pos_x + width / 2 <= i16::MAX
        &&& i16::MIN <= pos_y
        &&& pos_y + (width / 3) * 5 <= i16::MAX
    }

    /// The body at `(pos_x, pos_y)`. Both portholes sit on the vertical axis
    /// of the body, two and five radii below its upper edge; a radius is a
    /// third of the width.
    pub open spec fn spec_new(pos_x: i32, pos_y: i32, width: u32, height: u32) -> SpaceshipBody {
        SpaceshipBody {
            rect: Rect { x: pos_x, y: pos_y, width, height },
            body_color: Color::spec_white(),
            porthole_1: ((pos_x + width / 2) as i16, (pos_y + (width / 3) * 2) as i16),
            porthole_2: ((pos_x + width / 2) as i16, (pos_y + (width / 3) * 5) as i16),
            porthole_r: (width / 3) as i16,
            porthole_color: Color::spec_blue(),
        }
    }

    /// Builds the body at `(pos_x, pos_y)` with its portholes.
    pub fn new(pos_x: i32, pos_y: i32, width: u32, height: u32) -> (b: SpaceshipBody)
        requires
            SpaceshipBody::fits(pos_x as int, pos_y as int, width as int),
        ensures
            b == SpaceshipBody::spec_new(pos_x, pos_y, width, height),
    {
        let porthole_radius: i16 = (width / 3) as i16;
        SpaceshipBody {
            rect: Rect::new(pos_x, pos_y, width, height),
            body_color: Color::white(),
            porthole_1: (pos_x as i16 + width as i16 / 2, pos_y as i16 + porthole_radius * 2),
            porthole_2: (pos_x as i16 + width as i16 / 2, pos_y as i16 + porthole_radius * 5),
            porthole_r: porthole_radius,
            porthole_color: Color::blue(),
        }
    }

    /// Whether the body and its portholes can be moved by `dy`.
    pub open spec fn can_move(&self, dy: int) -> bool {
        &&& i32::MIN <= self.rect.y + dy <= i32::MAX
        &&& can_shift(self.porthole_1.1, dy)
        &&& can_shift(self.porthole_2.1, dy)
    }

    /// The body moved by `dy` along the Y axis, its portholes with it.
    pub open spec fn moved(&self, dy: int) -> SpaceshipBody {
        SpaceshipBody {
            rect: Rect { y: (self.rect.y + dy) as i32, ..self.rect },
            porthole_1: (self.porthole_1.0, (self.porthole_1.1 + dy) as i16),
            porthole_2: (self.porthole_2.0, (self.porthole_2.1 + dy) as i16),
            ..*self
        }
    }

    /// Moves the part up by one step.
    pub fn move_upward(&mut self)
        requires
            old(self).can_move(-SPACESHIP_SPEED),
        ensures
            *final(self) == old(self).moved(-SPACESHIP_SPEED),
    {
        let speed: i16 = SPACESHIP_SPEED as i16;
        self.rect.y = self.rect.y - SPACESHIP_SPEED;
        self.porthole_1.1 = self.porthole_1.1 - speed;
        self.porthole_2.1 = self.porthole_2.1 - speed;
    }

    /// Moves the part down by one step.
    pub fn move_downward(&mut self)
        requires
            old(self).can_move(SPACESHIP_SPEED as int),
        ensures
            *final(self) == old(self).moved(SPACESHIP_SPEED as int),
    {
        let speed: i16 = SPACESHIP_SPEED as i16;
        self.rect.y = self.rect.y + SPACESHIP_SPEED;
        self.porthole_1.1 = self.porthole_1.1 + speed;
        self.porthole_2.1 = self.porthole_2.1 + speed;
    }

    /// Whether `(x, y)` lies in the body's rectangle, edges included.
    pub open spec fn contains(&self, x: int, y: int) -> bool {
        self.rect.contains(x, y)
    }

    /// Tests whether `(x, y)` belongs to the part.
    pub fn is_point_within(&self, x: i32, y: i32) -> (r: bool)
        ensures
            r == self.contains(x as int, y as int),
    {
        self.rect.contains_point(x, y)
    }
}

impl SpaceshipHead {
    /// Whether every vertex of the wedge on top of a body at
    /// `(pos_x, pos_y)` can be written in 16-bit coordinates.
    pub open spec fn fits(pos_x: i16, pos_y: i16) -> bool {
        &&& pos_x + SPACESHIP_BODY_WIDTH <= i16::MAX
        &&& i16::MIN <= pos_y - SPACESHIP_HEAD_SIZE
    }

    /// The wedge on top of a body at `(pos_x, pos_y)`: its base is the body's
    /// upper edge, its tip lies above the middle of it.
    pub open spec fn spec_new(pos_x: i16, pos_y: i16) -> SpaceshipHead {
        SpaceshipHead {
            triangle_x: [
                pos_x,
                (pos_x + SPACESHIP_HEAD_SIZE / 2) as i16,
                (pos_x + SPACESHIP_BODY_WIDTH) as i16,
            ],
            triangle_y: [pos_y, (pos_y - SPACESHIP_HEAD_SIZE) as i16, pos_y],
            color: Color::spec_red(),
        }
    }

    /// Builds the wedge on top of a body at `(pos_x, pos_y)`.
    pub fn new(pos_x: i16, pos_y: i16) -> (h: SpaceshipHead)
        requires
            SpaceshipHead::fits(pos_x, pos_y),
        ensures
            h == SpaceshipHead::spec_new(pos_x, pos_y),
    {
        SpaceshipHead {
            triangle_x: [
                pos_x,
                pos_x + (SPACESHIP_HEAD_SIZE / 2) as i16,
                pos_x + SPACESHIP_BODY_WIDTH as i16,
            ],
            triangle_y: [pos_y, pos_y - SPACESHIP_HEAD_SIZE as i16, pos_y],
            color: Color::red(),
        }
    }

    /// Whether the wedge can be moved by `dy`.
    pub open spec fn can_move(&self, dy: int) -> bool {
        can_shift_all(self.triangle_y, dy)
    }

    /// The wedge moved by `dy` along the Y axis.
    pub open spec fn moved(&self, dy: int) -> SpaceshipHead {
        SpaceshipHead { triangle_y: shifted(self.triangle_y, dy), ..*self }
    }

    /// Moves the part up by one step.
    pub fn move_upward(&mut self)
        requires
            old(self).can_move(-SPACESHIP_SPEED),
        ensures
            *final(self) == old(self).moved(-SPACESHIP_SPEED),
    {
        self.triangle_y = shift_all(&self.triangle_y, -(SPACESHIP_SPEED as i16));
    }

    /// Moves the part down by one step.
    pub fn move_downward(&mut self)
        requires
            old(self).can_move(SPACESHIP_SPEED as int),
        ensures
            *final(self) == old(self).moved(SPACESHIP_SPEED as int),
    {
        self.triangle_y = shift_all(&self.triangle_y, SPACESHIP_SPEED as i16);
    }

    /// Whether `(x, y)` counts as inside the wedge.
    pub open spec fn contains(&self, x: int, y: int) -> bool {
        point_in_triangle(self.triangle_x@, self.triangle_y@, x, y)
    }

    /// Tests whether `(x, y)` belongs to the part.
    pub fn is_point_within(&self, x: i32, y: i32) -> (r: bool)
        ensures
            r == self.contains(x as int, y as int),
    {
        is_point_within_triangle(&self.triangle_x, &self.triangle_y, x, y)
    }
}

impl SpaceshipTail {
    /// Whether every vertex of the wedges at the lower corners of a body at
    /// `(pos_x, pos_y)` can be written in 16-bit coordinates.
    pub open spec fn fits(pos_x: i16, pos_y: i16) -> bool {
        &&& i16::MIN <= pos_x - SPACESHIP_TAIL_SIZE
        &&& pos_x + SPACESHIP_BODY_WIDTH + SPACESHIP_TAIL_SIZE <= i16::MAX
        &&& pos_y + SPACESHIP_BODY_HEIGHT + SPACESHIP_TAIL_SIZE <= i16::MAX
    }

    /// The two wedges at the lower corners of a body at `(pos_x, pos_y)`.
    /// Each has a vertical side on the body's flank, centred on the body's
    /// lower edge, and a tip that points away from the body.
    pub open spec fn spec_new(pos_x: i16, pos_y: i16) -> SpaceshipTail {
        let flank = (pos_x + SPACESHIP_BODY_WIDTH) as i16;
        let upper = (pos_y + SPACESHIP_BODY_HEIGHT - SPACESHIP_TAIL_SIZE) as i16;
        let lower = (pos_y + SPACESHIP_BODY_HEIGHT + SPACESHIP_TAIL_SIZE) as i16;
        let middle = (pos_y + SPACESHIP_BODY_HEIGHT) as i16;
        SpaceshipTail {
            left_triangle_x: [pos_x, pos_x, (pos_x - SPACESHIP_TAIL_SIZE) as i16],
            left_triangle_y: [upper, lower, middle],
            right_triangle_x: [flank, flank, (flank + SPACESHIP_TAIL_SIZE) as i16],
            right_triangle_y: [upper, lower, middle],
            color: Color::spec_red(),
        }
    }

    /// Builds the two wedges at the lower corners of a body at
    /// `(pos_x, pos_y)`.
    pub fn new(pos_x: i16, pos_y: i16) -> (t: SpaceshipTail)
        requires
            SpaceshipTail::fits(pos_x, pos_y),
        ensures
            t == SpaceshipTail::spec_new(pos_x, pos_y),
    {
        let width: i16 = SPACESHIP_BODY_WIDTH as i16;
        let height: i16 = SPACESHIP_BODY_HEIGHT as i16;
        SpaceshipTail {
            left_triangle_x: [pos_x, pos_x, pos_x - SPACESHIP_TAIL_SIZE],
            left_triangle_y: [
                pos_y + height - SPACESHIP_TAIL_SIZE,
                pos_y + height + SPACESHIP_TAIL_SIZE,
                pos_y + height,
            ],
            right_triangle_x: [pos_x + width, pos_x + width, pos_x + width + SPACESHIP_TAIL_SIZE],
            right_triangle_y: [
                pos_y + height - SPACESHIP_TAIL_SIZE,
                pos_y + height + SPACESHIP_TAIL_SIZE,
                pos_y + height,
            ],
            color: Color::red(),
        }
    }

    /// Whether both wedges can be moved by `dy`.
    pub open spec fn can_move(&self, dy: int) -> bool {
        can_shift_all(self.left_triangle_y, dy) && can_shift_all(self.right_triangle_y, dy)
    }

    /// Both wedges moved by `dy` along the Y axis.
    pub open spec fn moved(&self, dy: int) -> SpaceshipTail {
        SpaceshipTail {
            left_triangle_y: shifted(self.left_triangle_y, dy),
            right_triangle_y: shifted(self.right_triangle_y, dy),
            ..*self
        }
    }

    /// Moves the part up by one step.
    pub fn move_upward(&mut self)
        requires
            old(self).can_move(-SPACESHIP_SPEED),
        ensures
            *final(self) == old(self).moved(-SPACESHIP_SPEED),
    {
        self.left_triangle_y = shift_all(&self.left_triangle_y, -(SPACESHIP_SPEED as i16));
        self.right_triangle_y = shift_all(&self.right_triangle_y, -(SPACESHIP_SPEED as i16));
    }

    /// Moves the part down by one step.
    pub fn move_downward(&mut self)
        requires
            old(self).can_move(SPACESHIP_SPEED as int),
        ensures
            *final(self) == old(self).moved(SPACESHIP_SPEED as int),
    {
        self.left_triangle_y = shift_all(&self.left_triangle_y, SPACESHIP_SPEED as i16);
        self.right_triangle_y = shift_all(&self.right_triangle_y, SPACESHIP_SPEED as i16);
    }

    /// Whether `(x, y)` counts as inside the left wedge or the right one.
    pub open spec fn contains(&self, x: int, y: int) -> bool {
        ||| point_in_triangle(self.left_triangle_x@, self.left_triangle_y@, x, y)
        ||| point_in_triangle(self.right_triangle_x@, self.right_triangle_y@, x, y)
    }

    /// Tests whether `(x, y)` belongs to the part.
    pub fn is_point_within(&self, x: i32, y: i32) -> (r: bool)
        ensures
            r == self.contains(x as int, y as int),
    {
        is_point_within_triangle(&self.left_triangle_x, &self.left_triangle_y, x, y)
            || is_point_within_triangle(&self.right_triangle_x, &self.right_triangle_y, x, y)
    }
}

impl Spaceship {
    /// Whether a craft may have the upper left corner of its body at
    /// `(x, y)`: the corner, the portholes and every vertex of the wedges
    /// can be written in 16-bit coordinates.
    pub open spec fn in_bounds(x: int, y: int) -> bool {
        &&& i16::MIN <= x <= i16::MAX
        &&& i16::MIN <= y <= i16::MAX
        &&& SpaceshipBody::fits(x, y, SPACESHIP_BODY_WIDTH as int)
        &&& SpaceshipHead::fits(x as i16, y as i16)
        &&& SpaceshipTail::fits(x as i16, y as i16)
    }

    /// The craft whose body has its upper left corner at `(x, y)`: every part
    /// is derived from that corner.
    pub open spec fn spec_placed(x: i32, y: i32, is_alive: bool, death_instant: Instant) -> Spaceship {
        Spaceship {
            body: SpaceshipBody::spec_new(x, y, SPACESHIP_BODY_WIDTH, SPACESHIP_BODY_HEIGHT),
            head: SpaceshipHead::spec_new(x as i16, y as i16),
            tail: SpaceshipTail::spec_new(x as i16, y as i16),
            is_alive,
            death_instant,
        }
    }

    /// The X coordinate of the body's upper left corner.
    pub open spec fn x(&self) -> i32 {
        self.body.rect.x
    }

    /// The Y coordinate of the body's upper left corner.
    pub open spec fn y(&self) -> i32 {
        self.body.rect.y
    }

    /// The invariant of a craft: its body is within bounds, and all its parts
    /// are those derived from the body's position.
    pub open spec fn wf(&self) -> bool {
        &&& Spaceship::in_bounds(self.x() as int, self.y() as int)
        &&& *self == Spaceship::spec_placed(self.x(), self.y(), self.is_alive, self.death_instant)
    }

    /// The craft moved by `dy` along the Y axis, every part alike.
    pub open spec fn moved(&self, dy: int) -> Spaceship {
        Spaceship {
            body: self.body.moved(dy),
            head: self.head.moved(dy),
            tail: self.tail.moved(dy),
            ..*self
        }
    }

    /// Builds a living craft at `(pos_x, pos_y)` whose last death is `now`.
    pub fn placed(pos_x: i32, pos_y: i32, now: Instant) -> (s: Spaceship)
        requires
            Spaceship::in_bounds(pos_x as int, pos_y as int),
        ensures
            s == Spaceship::spec_placed(pos_x, pos_y, true, now),
            s.wf(),
    {
        Spaceship {
            body: SpaceshipBody::new(pos_x, pos_y, SPACESHIP_BODY_WIDTH, SPACESHIP_BODY_HEIGHT),
            head: SpaceshipHead::new(pos_x as i16, pos_y as i16),
            tail: SpaceshipTail::new(pos_x as i16, pos_y as i16),
            is_alive: true,
            death_instant: now,
        }
    }

    /// Builds a living craft at `(pos_x, pos_y)` and reads the clock for the
    /// instant from which its cooldown would count.
    pub fn new(pos_x: i32, pos_y: i32) -> (s: Spaceship)
        requires
            Spaceship::in_bounds(pos_x as int, pos_y as int),
        ensures
            s == Spaceship::spec_placed(pos_x, pos_y, true, s.death_instant),
            s.wf(),
    {
        Spaceship::placed(pos_x, pos_y, Instant::now())
    }

    /// Marks the craft as dead since `now`. Its shape stays as it is.
    pub fn die_at(&mut self, now: Instant)
        ensures
            *final(self) == (Spaceship { is_alive: false, death_instant: now, ..*old(self) }),
    {
        self.is_alive = false;
        self.death_instant = now;
    }

    /// Marks the craft as dead since the moment of the call.
    pub fn die(&mut self)
        ensures
            *final(self) == (Spaceship {
                is_alive: false,
                death_instant: final(self).death_instant,
                ..*old(self)
            }),
    {
        self.die_at(Instant::now());
    }

    /// Moves the craft up by one step, every part alike.
    pub fn move_upward(&mut self)
        requires
            old(self).wf(),
            Spaceship::in_bounds(old(self).x() as int, old(self).y() - SPACESHIP_SPEED),
        ensures
            *final(self) == old(self).moved(-SPACESHIP_SPEED),
            *final(self) == Spaceship::spec_placed(
                old(self).x(),
                (old(self).y() - SPACESHIP_SPEED) as i32,
                old(self).is_alive,
                old(self).death_instant,
            ),
            final(self).wf(),
    {
        self.body.move_upward();
        self.head.move_upward();
        self.tail.move_upward();
    }

    /// Moves the craft down by one step, every part alike. Whether the
    /// craft leaves the screen by it is the caller's concern: see
    /// `can_move_downward`.
    pub fn move_downward(&mut self)
        requires
            old(self).wf(),
            Spaceship::in_bounds(old(self).x() as int, old(self).y() + SPACESHIP_SPEED),
        ensures
            *final(self) == old(self).moved(SPACESHIP_SPEED as int),
            *final(self) == Spaceship::spec_placed(
                old(self).x(),
                (old(self).y() + SPACESHIP_SPEED) as i32,
                old(self).is_alive,
                old(self).death_instant,
            ),
            final(self).wf(),
    {
        self.body.move_downward();
        self.head.move_downward();
        self.tail.move_downward();
    }

    /// Whether one more move down keeps the craft on the screen: the head's
    /// height, the body's Y coordinate and twice the tail's size together do
    /// not exceed the screen's height.
    pub open spec fn spec_can_move_downward(&self) -> bool {
        SPACESHIP_HEAD_SIZE + self.y() + 2 * SPACESHIP_TAIL_SIZE <= WINDOW_HEIGHT
    }

    /// Decides whether one more move down keeps the craft on the screen.
    pub fn can_move_downward(&self) -> (r: bool)
        ensures
            r == self.spec_can_move_downward(),
    {
        SPACESHIP_HEAD_SIZE as i64 + self.body.rect.y as i64 + 2 * (SPACESHIP_TAIL_SIZE as i64)
            <= WINDOW_HEIGHT as i64
    }

    /// Whether a craft may come back: it is dead and more than the cooldown
    /// has passed since its death.
    pub open spec fn spec_respawn_due(is_alive: bool, elapsed_nanos: u128) -> bool {
        !is_alive && elapsed_nanos > SPACESHIP_DEATH_TIME
    }

    /// Decides whether a craft may come back, from its state and from the
    /// time in nanoseconds that has passed since its last death.
    #[verifier::when_used_as_spec(spec_respawn_due)]
    pub fn respawn_due(is_alive: bool, elapsed_nanos: u128) -> (r: bool)
        ensures
            r == Spaceship::spec_respawn_due(is_alive, elapsed_nanos),
    {
        !is_alive && elapsed_nanos > SPACESHIP_DEATH_TIME
    }

    /// A dead craft may not come back while the cooldown runs, its last
    /// instant included, and may come back at any time after it. A living
    /// craft never may.
    pub proof fn lemma_respawn_gating(elapsed_nanos: u128)
        ensures
            elapsed_nanos <= SPACESHIP_DEATH_TIME ==> !Spaceship::spec_respawn_due(
                false,
                elapsed_nanos,
            ),
            elapsed_nanos > SPACESHIP_DEATH_TIME ==> Spaceship::spec_respawn_due(
                false,
                elapsed_nanos,
            ),
            !Spaceship::spec_respawn_due(true, elapsed_nanos),
    {
    }

    /// Whether the craft may come back now. The clock decides for a dead
    /// craft; a living one never may.
    pub fn can_respawn(&self) -> (r: bool)
        ensures
            self.is_alive ==> !r,
    {
        Spaceship::respawn_due(self.is_alive, nanos_since(&self.death_instant))
    }

    /// Whether a point touches the craft: it lies in the body's rectangle or
    /// counts as inside the head wedge or one of the tail wedges.
    pub open spec fn hits(&self, p: Point) -> bool {
        ||| self.head.contains(p.x as int, p.y as int)
        ||| self.body.contains(p.x as int, p.y as int)
        ||| self.tail.contains(p.x as int, p.y as int)
    }

    /// Whether at least one of the points touches the craft.
    pub open spec fn hits_any(&self, points: Seq<Point>) -> bool {
        exists|i: int| 0 <= i < points.len() && self.hits(#[trigger] points[i])
    }

    /// Whether a projectile touches the craft with one of its vertices.
    pub open spec fn spec_collide_with(&self, missile: &Missile) -> bool {
        self.hits_any(missile.spec_points())
    }

    /// Tests the points one by one and stops at the first that touches the
    /// craft.
    pub fn collide_with_points(&self, points: &Vec<Point>) -> (r: bool)
        ensures
            r == self.hits_any(points@),
    {
        let mut i: usize = 0;
        while i < points.len()
            invariant
                0 <= i <= points.len(),
                forall|j: int| 0 <= j < i ==> !self.hits(#[trigger] points@[j]),
            decreases points.len() - i,
        {
            let p = points[i];
            let head_collision = self.head.is_point_within(p.x, p.y);
            let body_collision = self.body.is_point_within(p.x, p.y);
            let tail_collision = self.tail.is_point_within(p.x, p.y);
            if head_collision || body_collision || tail_collision {
                return true;
            }
            i += 1;
        }
        false
    }

    /// Tests whether a projectile touches the craft with one of its
    /// vertices.
    pub fn collide_with(&self, missile: &Missile) -> (r: bool)
        requires
            missile.has_points(),
        ensures
            r == self.spec_collide_with(missile),
    {
        let m_points = missile.points();
        self.collide_with_points(&m_points)
    }
}

} // verus!
