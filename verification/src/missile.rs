//! The projectile: a body rectangle, a head wedge that points where it flies
//! and two tail wedges behind it. It crosses the screen at constant speed and
//! re-enters on the opposite edge once it has left.

use crate::geometry::Color;
use crate::geometry::Point;
use crate::geometry::Rect;
use crate::WINDOW_HEIGHT;
use crate::WINDOW_WIDTH;
use rand::rngs::ThreadRng;
use rand::Rng;
use vstd::prelude::*;

verus! {

/// The height of a projectile's body (in pixels).
pub const MISSILE_HEIGHT: u32 = 5;

/// The width of a projectile's body (in pixels).
pub const MISSILE_WIDTH: u32 = 10;

/// The distance a projectile covers in one update (in pixels).
pub const MISSILE_SPEED: i32 = 2;

/// The height of the head wedge.
pub const MISSILE_HEAD_SIZE: u32 = MISSILE_HEIGHT;

/// The height of each tail wedge.
pub const MISSILE_TAIL_SIZE: u32 = MISSILE_HEIGHT;

/// The greatest X coordinate at which a projectile spawns: the whole width of
/// the screen is open to it.
pub const MISSILE_SPAWN_MAX_X: u32 = WINDOW_WIDTH;

/// The greatest Y coordinate at which a projectile spawns. The band below is
/// left to the crafts, so that none is hit as soon as it appears.
pub const MISSILE_SPAWN_MAX_Y: u32 = WINDOW_HEIGHT - 200;

/// The two directions a projectile can fly in.
#[derive(Clone, Copy, Debug, PartialEq, Eq, Structural)]
pub enum MissileDirection {
    Left,
    Right,
}

/// The hazard that the crafts must avoid.
pub struct Missile {
    pub x: i32,
    pub y: i32,
    pub body: MissileBody,
    pub tail: MissileTail,
    pub head: MissileHead,
    pub direction: MissileDirection,
}

/// The main part of a projectile: a single rectangle.
pub struct MissileBody {
    pub rect: Rect,
    pub color: Color,
}

/// The side opposite to the direction of flight: one wedge above the body and
/// one below it.
pub struct MissileTail {
    pub top_triangle_x: [i16; 3],
    pub top_triangle_y: [i16; 3],
    pub bot_triangle_x: [i16; 3],
    pub bot_triangle_y: [i16; 3],
    pub color: Color,
}

/// The tip of a projectile: a single wedge pointing in the direction of flight.
pub struct MissileHead {
    pub triangle_x: [i16; 3],
    pub triangle_y: [i16; 3],
    pub color: Color,
}

impl MissileDirection {
    /// The signed distance covered along the X axis in one update.
    pub open spec fn step(self) -> int {
        match self {
            MissileDirection::Left => -(MISSILE_SPEED as int),
            MissileDirection::Right => MISSILE_SPEED as int,
        }
    }

    /// The direction that a random byte selects: left for an even byte, right
    /// for an odd one.
    pub open spec fn spec_from_byte(b: u8) -> MissileDirection {
        if b % 2 == 0 {
            MissileDirection::Left
        } else {
            MissileDirection::Right
        }
    }

    /// Picks the direction that a random byte selects.
    #[verifier::when_used_as_spec(spec_from_byte)]
    pub fn from_byte(b: u8) -> (d: MissileDirection)
        ensures
            d == MissileDirection::spec_from_byte(b),
    {
        if b % 2 == 0 {
            MissileDirection::Left
        } else {
            MissileDirection::Right
        }
    }
}

impl MissileBody {
    /// The body that fills a rectangle.
    pub open spec fn spec_new(r: Rect) -> MissileBody {
        MissileBody { rect: r, color: Color::spec_white() }
    }

    #[verifier::when_used_as_spec(spec_new)]
    pub fn new(r: Rect) -> (b: MissileBody)
        ensures
            b == MissileBody::spec_new(r),
    {
        MissileBody { rect: r, color: Color::white() }
    }

    /// The body of a projectile whose origin is `(x, y)`.
    pub open spec fn spec_at(x: i32, y: i32) -> MissileBody {
        MissileBody::spec_new(Rect { x, y, width: MISSILE_WIDTH, height: MISSILE_HEIGHT })
    }
}

impl MissileTail {
    /// Whether every vertex of the wedges behind a body with that origin
    /// can be written in 16-bit coordinates.
    pub open spec fn fits(origin_x: i16, origin_y: i16, direction: MissileDirection) -> bool {
        &&& i16::MIN <= origin_y - MISSILE_TAIL_SIZE
        &&& origin_y + MISSILE_HEIGHT + MISSILE_TAIL_SIZE <= i16::MAX
        &&& match direction {
            MissileDirection::Left => origin_x + MISSILE_WIDTH <= i16::MAX,
            MissileDirection::Right => origin_x + MISSILE_TAIL_SIZE <= i16::MAX,
        }
    }

    /// The wedges behind a body whose origin is given. Each has one side on
    /// the rear part of the body's upper or lower edge and a tip that points
    /// away from the body. Both wedges share their X coordinates.
    pub open spec fn spec_new(origin_x: i16, origin_y: i16, direction: MissileDirection) -> MissileTail {
        let top_y = origin_y;
        let bot_y = (origin_y + MISSILE_HEIGHT) as i16;
        let above = (origin_y - MISSILE_TAIL_SIZE) as i16;
        let below = (origin_y + MISSILE_HEIGHT + MISSILE_TAIL_SIZE) as i16;
        match direction {
            MissileDirection::Left => {
                let inner = (origin_x + MISSILE_WIDTH - MISSILE_TAIL_SIZE) as i16;
                let rear = (origin_x + MISSILE_WIDTH) as i16;
                MissileTail {
                    top_triangle_x: [inner, rear, rear],
                    top_triangle_y: [top_y, top_y, above],
                    bot_triangle_x: [inner, rear, rear],
                    bot_triangle_y: [bot_y, bot_y, below],
                    color: Color::spec_grey(),
                }
            },
            MissileDirection::Right => {
                let inner = (origin_x + MISSILE_TAIL_SIZE) as i16;
                let rear = origin_x;
                MissileTail {
                    top_triangle_x: [rear, rear, inner],
                    top_triangle_y: [top_y, above, top_y],
                    bot_triangle_x: [rear, rear, inner],
                    bot_triangle_y: [bot_y, below, bot_y],
                    color: Color::spec_grey(),
                }
            },
        }
    }

    /// Builds the two wedges behind a body whose origin is given. Both wedges
    /// share their X coordinates.
    pub fn new(origin_x: i16, origin_y: i16, direction: &MissileDirection) -> (t: MissileTail)
        requires
            MissileTail::fits(origin_x, origin_y, *direction),
        ensures
            t == MissileTail::spec_new(origin_x, origin_y, *direction),
    {
        let width: i16 = MISSILE_WIDTH as i16;
        let height: i16 = MISSILE_HEIGHT as i16;
        let size: i16 = MISSILE_TAIL_SIZE as i16;
        let top_triangle_xs: [i16; 3];
        let top_triangle_ys: [i16; 3];
        let bot_triangle_ys: [i16; 3];
        match direction {
            MissileDirection::Left => {
                top_triangle_xs = [origin_x + (width - size), origin_x + width, origin_x + width];
                top_triangle_ys = [origin_y, origin_y, origin_y - size];
                bot_triangle_ys =
                [origin_y + height, origin_y + height, origin_y + (height + size)];
            },
            MissileDirection::Right => {
                top_triangle_xs = [origin_x, origin_x, origin_x + size];
                top_triangle_ys = [origin_y, origin_y - size, origin_y];
                bot_triangle_ys =
                [origin_y + height, origin_y + (height + size), origin_y + height];
            },
        }
        MissileTail {
            top_triangle_x: top_triangle_xs,
            top_triangle_y: top_triangle_ys,
            bot_triangle_x: top_triangle_xs,
            bot_triangle_y: bot_triangle_ys,
            color: Color::grey(),
        }
    }
}

impl MissileHead {
    /// Whether every vertex of the wedge in front of a body with that origin
    /// can be written in 16-bit coordinates.
    pub open spec fn fits(origin_x: i16, origin_y: i16, direction: MissileDirection) -> bool {
        &&& origin_y + MISSILE_HEIGHT <= i16::MAX
        &&& match direction {
            MissileDirection::Left => i16::MIN <= origin_x - MISSILE_HEAD_SIZE,
            MissileDirection::Right => origin_x + MISSILE_WIDTH + MISSILE_HEAD_SIZE <= i16::MAX,
        }
    }

    /// The wedge in front of a body whose origin is given: its base is the
    /// body's front edge, its tip points in the direction of flight.
    pub open spec fn spec_new(origin_x: i16, origin_y: i16, direction: MissileDirection) -> MissileHead {
        let front = match direction {
            MissileDirection::Left => origin_x,
            MissileDirection::Right => (origin_x + MISSILE_WIDTH) as i16,
        };
        let tip = match direction {
            MissileDirection::Left => (origin_x - MISSILE_HEAD_SIZE) as i16,
            MissileDirection::Right => (origin_x + MISSILE_WIDTH + MISSILE_HEAD_SIZE) as i16,
        };
        MissileHead {
            triangle_x: [front, tip, front],
            triangle_y: [
                origin_y,
                (origin_y + MISSILE_HEIGHT / 2) as i16,
                (origin_y + MISSILE_HEIGHT) as i16,
            ],
            color: Color::spec_red(),
        }
    }

    /// Builds the wedge in front of a body whose origin is given.
    pub fn new(origin_x: i16, origin_y: i16, direction: &MissileDirection) -> (h: MissileHead)
        requires
            MissileHead::fits(origin_x, origin_y, *direction),
        ensures
            h == MissileHead::spec_new(origin_x, origin_y, *direction),
    {
        let width: i16 = MISSILE_WIDTH as i16;
        let height: i16 = MISSILE_HEIGHT as i16;
        let size: i16 = MISSILE_HEAD_SIZE as i16;
        let triangle_xs: [i16; 3];
        let triangle_ys: [i16; 3];
        match direction {
            MissileDirection::Left => {
                triangle_xs = [origin_x, origin_x - size, origin_x];
                triangle_ys = [origin_y, origin_y + size / 2, origin_y + height];
            },
            MissileDirection::Right => {
                triangle_xs = [origin_x + width, origin_x + (width + size), origin_x + width];
                triangle_ys = [origin_y, origin_y + height / 2, origin_y + height];
            },
        }
        MissileHead { triangle_x: triangle_xs, triangle_y: triangle_ys, color: Color::red() }
    }
}

/// The vertices of a shape, in a fixed order, for collision detection.
pub trait ToPoints {
    /// Whether every vertex can be written in 32-bit coordinates.
    spec fn has_points(&self) -> bool;

    /// The vertices, in the order in which `points` hands them out.
    spec fn spec_points(&self) -> Seq<Point>;

    /// Hands out the vertices.
    fn points(&self) -> (r: Vec<Point>)
        requires
            self.has_points(),
        ensures
            r@ == self.spec_points(),
    ;
}

impl ToPoints for MissileHead {
    open spec fn has_points(&self) -> bool {
        true
    }

    open spec fn spec_points(&self) -> Seq<Point> {
        seq![
            Point { x: self.triangle_x[0] as i32, y: self.triangle_y[0] as i32 },
            Point { x: self.triangle_x[1] as i32, y: self.triangle_y[1] as i32 },
            Point { x: self.triangle_x[2] as i32, y: self.triangle_y[2] as i32 },
        ]
    }

    fn points(&self) -> (r: Vec<Point>) {
        let r = vec![
            Point::new(self.triangle_x[0] as i32, self.triangle_y[0] as i32),
            Point::new(self.triangle_x[1] as i32, self.triangle_y[1] as i32),
            Point::new(self.triangle_x[2] as i32, self.triangle_y[2] as i32),
        ];
        assert(r@ =~= self.spec_points());
        r
    }
}

impl ToPoints for MissileBody {
    open spec fn has_points(&self) -> bool {
        &&& self.rect.x + self.rect.width <= i32::MAX
        &&& self.rect.y + self.rect.height <= i32::MAX
    }

    /// The four corners: top left, top right, bottom left, bottom right.
    open spec fn spec_points(&self) -> Seq<Point> {
        seq![
            Point { x: self.rect.x, y: self.rect.y },
            Point { x: (self.rect.x + self.rect.width) as i32, y: self.rect.y },
            Point { x: self.rect.x, y: (self.rect.y + self.rect.height) as i32 },
            Point {
                x: (self.rect.x + self.rect.width) as i32,
                y: (self.rect.y + self.rect.height) as i32,
            },
        ]
    }

    fn points(&self) -> (r: Vec<Point>) {
        let right: i32 = (self.rect.x as i64 + self.rect.width as i64) as i32;
        let bottom: i32 = (self.rect.y as i64 + self.rect.height as i64) as i32;
        let r = vec![
            Point::new(self.rect.x, self.rect.y),
            Point::new(right, self.rect.y),
            Point::new(self.rect.x, bottom),
            Point::new(right, bottom),
        ];
        assert(r@ =~= self.spec_points());
        r
    }
}

impl ToPoints for MissileTail {
    open spec fn has_points(&self) -> bool {
        true
    }

    /// The three vertices of the upper wedge, then those of the lower one.
    /// The second and third vertex of the upper wedge take their X coordinate
    /// from the lower wedge.
    open spec fn spec_points(&self) -> Seq<Point> {
        seq![
            Point { x: self.top_triangle_x[0] as i32, y: self.top_triangle_y[0] as i32 },
            Point { x: self.bot_triangle_x[1] as i32, y: self.top_triangle_y[1] as i32 },
            Point { x: self.bot_triangle_x[2] as i32, y: self.top_triangle_y[2] as i32 },
            Point { x: self.bot_triangle_x[0] as i32, y: self.bot_triangle_y[0] as i32 },
            Point { x: self.bot_triangle_x[1] as i32, y: self.bot_triangle_y[1] as i32 },
            Point { x: self.bot_triangle_x[2] as i32, y: self.bot_triangle_y[2] as i32 },
        ]
    }

    fn points(&self) -> (r: Vec<Point>) {
        let r = vec![
            Point::new(self.top_triangle_x[0] as i32, self.top_triangle_y[0] as i32),
            Point::new(self.bot_triangle_x[1] as i32, self.top_triangle_y[1] as i32),
            Point::new(self.bot_triangle_x[2] as i32, self.top_triangle_y[2] as i32),
            Point::new(self.bot_triangle_x[0] as i32, self.bot_triangle_y[0] as i32),
            Point::new(self.bot_triangle_x[1] as i32, self.bot_triangle_y[1] as i32),
            Point::new(self.bot_triangle_x[2] as i32, self.bot_triangle_y[2] as i32),
        ];
        assert(r@ =~= self.spec_points());
        r
    }
}

impl ToPoints for Missile {
    open spec fn has_points(&self) -> bool {
        self.body.has_points()
    }

    /// Every vertex of the head, then of the body, then of the tail.
    open spec fn spec_points(&self) -> Seq<Point> {
        self.head.spec_points() + self.body.spec_points() + self.tail.spec_points()
    }

    fn points(&self) -> (r: Vec<Point>) {
        let mut result: Vec<Point> = Vec::new();
        let mut head_points = self.head.points();
        let mut body_points = self.body.points();
        let mut tail_points = self.tail.points();
        result.append(&mut head_points);
        result.append(&mut body_points);
        result.append(&mut tail_points);
        assert(result@ =~= self.spec_points());
        result
    }
}

/// The movement of a projectile and of each of its parts: one step along the
/// X axis, to the side that the direction names.
pub trait MissileMovement: Sized {
    /// Whether one step to that side stays within the coordinates' range.
    spec fn can_move(&self, direction: MissileDirection) -> bool;

    /// The value after one step to that side.
    spec fn moved(&self, direction: MissileDirection) -> Self;

    /// Takes one step to the side that the direction names.
    fn move_toward(&mut self, direction: &MissileDirection)
        requires
            old(self).can_move(*direction),
        ensures
            *final(self) == old(self).moved(*direction),
    ;
}

/// Whether a 16-bit coordinate can take one step in a direction.
pub open spec fn can_step(v: i16, direction: MissileDirection) -> bool {
    i16::MIN <= v + direction.step() <= i16::MAX
}

/// Whether each of a wedge's three X coordinates can take one step.
pub open spec fn can_step_all(xs: [i16; 3], direction: MissileDirection) -> bool {
    can_step(xs[0], direction) && can_step(xs[1], direction) && can_step(xs[2], direction)
}

/// A wedge's X coordinates after one step in a direction.
pub open spec fn stepped(xs: [i16; 3], direction: MissileDirection) -> [i16; 3] {
    [
        (xs[0] + direction.step()) as i16,
        (xs[1] + direction.step()) as i16,
        (xs[2] + direction.step()) as i16,
    ]
}

fn step_all(xs: &[i16; 3], direction: &MissileDirection) -> (r: [i16; 3])
    requires
        can_step_all(*xs, *direction),
    ensures
        r == stepped(*xs, *direction),
{
    let speed: i16 = MISSILE_SPEED as i16;
    match direction {
        MissileDirection::Left => [xs[0] - speed, xs[1] - speed, xs[2] - speed],
        MissileDirection::Right => [xs[0] + speed, xs[1] + speed, xs[2] + speed],
    }
}

impl MissileMovement for Missile {
    open spec fn can_move(&self, direction: MissileDirection) -> bool {
        &&& i32::MIN <= self.x + direction.step() <= i32::MAX
        &&& self.body.can_move(direction)
        &&& self.head.can_move(direction)
        &&& self.tail.can_move(direction)
    }

    /// The origin and every part take the step together.
    open spec fn moved(&self, direction: MissileDirection) -> Missile {
        Missile {
            x: (self.x + direction.step()) as i32,
            y: self.y,
            body: self.body.moved(direction),
            tail: self.tail.moved(direction),
            head: self.head.moved(direction),
            direction: self.direction,
        }
    }

    fn move_toward(&mut self, direction: &MissileDirection) {
        match direction {
            MissileDirection::Left => {
                self.x -= MISSILE_SPEED;
            },
            MissileDirection::Right => {
                self.x += MISSILE_SPEED;
            },
        }
        self.body.move_toward(direction);
        self.head.move_toward(direction);
        self.tail.move_toward(direction);
    }
}

impl MissileMovement for MissileHead {
    open spec fn can_move(&self, direction: MissileDirection) -> bool {
        can_step_all(self.triangle_x, direction)
    }

    open spec fn moved(&self, direction: MissileDirection) -> MissileHead {
        MissileHead { triangle_x: stepped(self.triangle_x, direction), ..*self }
    }

    fn move_toward(&mut self, direction: &MissileDirection) {
        self.triangle_x = step_all(&self.triangle_x, direction);
    }
}

impl MissileMovement for MissileBody {
    open spec fn can_move(&self, direction: MissileDirection) -> bool {
        i32::MIN <= self.rect.x + direction.step() <= i32::MAX
    }

    open spec fn moved(&self, direction: MissileDirection) -> MissileBody {
        MissileBody {
            rect: Rect { x: (self.rect.x + direction.step()) as i32, ..self.rect },
            ..*self
        }
    }

    fn move_toward(&mut self, direction: &MissileDirection) {
        match direction {
            MissileDirection::Left => {
                self.rect.x = self.rect.x - MISSILE_SPEED;
            },
            MissileDirection::Right => {
                self.rect.x = self.rect.x + MISSILE_SPEED;
            },
        }
    }
}

impl MissileMovement for MissileTail {
    open spec fn can_move(&self, direction: MissileDirection) -> bool {
        can_step_all(self.top_triangle_x, direction) && can_step_all(self.bot_triangle_x, direction)
    }

    open spec fn moved(&self, direction: MissileDirection) -> MissileTail {
        MissileTail {
            top_triangle_x: stepped(self.top_triangle_x, direction),
            bot_triangle_x: stepped(self.bot_triangle_x, direction),
            ..*self
        }
    }

    fn move_toward(&mut self, direction: &MissileDirection) {
        self.top_triangle_x = step_all(&self.top_triangle_x, direction);
        self.bot_triangle_x = step_all(&self.bot_triangle_x, direction);
    }
}

/// The thread-local generator of `rand`. Nothing is known of its state.
#[verifier::external_type_specification]
#[verifier::external_body]
pub struct ExThreadRng(rand::rngs::ThreadRng);

/// `rand::thread_rng`: a handle to the generator of the calling thread.
#[verifier::external_body]
fn thread_generator() -> (rng: ThreadRng) {
    rand::thread_rng()
}

/// `Rng::gen_range` on an inclusive range of `u32`. The range must not be
/// empty, else the call panics; the value drawn lies within it, both ends
/// included. Nothing else is claimed of the value.
#[verifier::external_body]
fn random_within(rng: &mut ThreadRng, low: u32, high: u32) -> (n: u32)
    requires
        low <= high,
    ensures
        low <= n <= high,
{
    rng.gen_range(low..=high)
}

/// `rand::random` for a byte. Any byte may come back.
#[verifier::external_body]
fn random_byte() -> (b: u8) {
    rand::random::<u8>()
}

impl Missile {
    /// Whether a projectile that flies in that direction may have its origin
    /// at `(x, y)`: the origin and every vertex of the wedges can be written
    /// in 16-bit coordinates.
    pub open spec fn in_bounds(x: int, y: int, direction: MissileDirection) -> bool {
        &&& i16::MIN <= x <= i16::MAX
        &&& i16::MIN <= y <= i16::MAX
        &&& MissileTail::fits(x as i16, y as i16, direction)
        &&& MissileHead::fits(x as i16, y as i16, direction)
    }

    /// The projectile with its origin at `(x, y)`: every part is derived from
    /// the origin and the direction.
    pub open spec fn spec_at(x: i32, y: i32, direction: MissileDirection) -> Missile {
        Missile {
            x,
            y,
            body: MissileBody::spec_at(x, y),
            tail: MissileTail::spec_new(x as i16, y as i16, direction),
            head: MissileHead::spec_new(x as i16, y as i16, direction),
            direction,
        }
    }

    /// The invariant of a projectile: its origin is within bounds and its
    /// parts are those derived from the origin and the direction.
    pub open spec fn wf(&self) -> bool {
        &&& Missile::in_bounds(self.x as int, self.y as int, self.direction)
        &&& *self == Missile::spec_at(self.x, self.y, self.direction)
    }

    /// Whether the projectile has left the screen on the side it flies to.
    pub open spec fn is_off_screen(&self) -> bool {
        match self.direction {
            MissileDirection::Left => self.x < 0,
            MissileDirection::Right => self.x > WINDOW_WIDTH,
        }
    }

    /// The X coordinate at which a projectile re-enters: the edge opposite to
    /// its direction.
    pub open spec fn entry_x(direction: MissileDirection) -> i32 {
        match direction {
            MissileDirection::Left => WINDOW_WIDTH as i32,
            MissileDirection::Right => 0,
        }
    }

    /// The projectile after the wraparound check: re-entered at the opposite
    /// edge if it had left the screen, unchanged if not.
    pub open spec fn spec_wrapped(&self) -> Missile {
        if self.is_off_screen() {
            Missile::spec_at(Missile::entry_x(self.direction), self.y, self.direction)
        } else {
            *self
        }
    }

    /// The projectile after one update: first the wraparound check, then one
    /// step in its direction.
    pub open spec fn spec_update(&self) -> Missile {
        let w = self.spec_wrapped();
        Missile::spec_at((w.x + w.direction.step()) as i32, w.y, w.direction)
    }

    /// The projectile with its origin and every part moved by `dx` along the
    /// X axis.
    pub open spec fn translated(&self, dx: int) -> Missile {
        Missile {
            x: (self.x + dx) as i32,
            y: self.y,
            body: MissileBody {
                rect: Rect { x: (self.body.rect.x + dx) as i32, ..self.body.rect },
                ..self.body
            },
            tail: MissileTail {
                top_triangle_x: [
                    (self.tail.top_triangle_x[0] + dx) as i16,
                    (self.tail.top_triangle_x[1] + dx) as i16,
                    (self.tail.top_triangle_x[2] + dx) as i16,
                ],
                bot_triangle_x: [
                    (self.tail.bot_triangle_x[0] + dx) as i16,
                    (self.tail.bot_triangle_x[1] + dx) as i16,
                    (self.tail.bot_triangle_x[2] + dx) as i16,
                ],
                ..self.tail
            },
            head: MissileHead {
                triangle_x: [
                    (self.head.triangle_x[0] + dx) as i16,
                    (self.head.triangle_x[1] + dx) as i16,
                    (self.head.triangle_x[2] + dx) as i16,
                ],
                ..self.head
            },
            direction: self.direction,
        }
    }

    /// Builds the projectile with its origin at `(x, y)`.
    pub fn at(x: i32, y: i32, direction: MissileDirection) -> (m: Missile)
        requires
            Missile::in_bounds(x as int, y as int, direction),
        ensures
            m == Missile::spec_at(x, y, direction),
            m.wf(),
    {
        let r = Rect::new(x, y, MISSILE_WIDTH, MISSILE_HEIGHT);
        let b = MissileBody::new(r);
        let t = MissileTail::new(x as i16, y as i16, &direction);
        let h = MissileHead::new(x as i16, y as i16, &direction);
        Missile { x, y, direction, body: b, tail: t, head: h }
    }

    /// Spawns a projectile at a random place of the band above the crafts,
    /// flying to a random side. What is drawn decides the origin and the
    /// direction only: the shape follows from them.
    pub fn new() -> (m: Missile)
        ensures
            m.wf(),
            0 <= m.x <= MISSILE_SPAWN_MAX_X,
            0 <= m.y <= MISSILE_SPAWN_MAX_Y,
    {
        let mut rng = thread_generator();
        let pos_x: i32 = random_within(&mut rng, 0, MISSILE_SPAWN_MAX_X) as i32;
        let pos_y: i32 = random_within(&mut rng, 0, MISSILE_SPAWN_MAX_Y) as i32;
        let d = MissileDirection::from_byte(random_byte());
        Missile::at(pos_x, pos_y, d)
    }

    /// Advances the projectile by one frame. A projectile that has left the
    /// screen first re-enters at the opposite edge; then it takes one step in
    /// its direction, all its parts with it.
    pub fn update(&mut self)
        requires
            old(self).wf(),
        ensures
            *final(self) == old(self).spec_update(),
            final(self).wf(),
    {
        self.check_screen_wrapping();
        let d = self.direction;
        self.move_toward(&d);
    }

    /// Puts a projectile that has left the screen back at the opposite edge
    /// and rebuilds all its parts there.
    pub fn check_screen_wrapping(&mut self)
        requires
            old(self).wf(),
        ensures
            *final(self) == old(self).spec_wrapped(),
            final(self).wf(),
    {
        if self.direction == MissileDirection::Left && self.x < 0 {
            *self = Missile::at(WINDOW_WIDTH as i32, self.y, self.direction);
        } else if self.direction == MissileDirection::Right && self.x > WINDOW_WIDTH as i32 {
            *self = Missile::at(0, self.y, self.direction);
        }
    }

    /// A step to either side moves a well-formed projectile as a whole: the
    /// result is the projectile derived from the new origin, and it is the
    /// old one with the origin and every part translated by the step.
    pub proof fn lemma_move_keeps_shape(m: Missile, direction: MissileDirection)
        requires
            m.wf(),
            Missile::in_bounds(m.x + direction.step(), m.y as int, m.direction),
        ensures
            m.can_move(direction),
            m.moved(direction) == Missile::spec_at(
                (m.x + direction.step()) as i32,
                m.y,
                m.direction,
            ),
            m.moved(direction) == m.translated(direction.step()),
            m.moved(direction).wf(),
    {
    }

    /// An update keeps a projectile well formed: its parts stay those derived
    /// from its origin. It also keeps the projectile within one step of the
    /// screen, once it is there.
    pub proof fn lemma_update_keeps_shape(m: Missile)
        requires
            m.wf(),
        ensures
            m.spec_update().wf(),
            -MISSILE_SPEED <= m.x <= WINDOW_WIDTH + MISSILE_SPEED ==> -MISSILE_SPEED
                <= m.spec_update().x <= WINDOW_WIDTH + MISSILE_SPEED,
    {
    }

    /// Two updates in a row, neither of which starts off screen, move the
    /// projectile exactly as one move of twice the step does, the origin and
    /// every part alike.
    pub proof fn lemma_update_twice(m: Missile)
        requires
            m.wf(),
            !m.is_off_screen(),
            !m.spec_update().is_off_screen(),
        ensures
            m.spec_update().spec_update() == m.translated(2 * m.direction.step()),
            m.spec_update().spec_update() == Missile::spec_at(
                (m.x + 2 * m.direction.step()) as i32,
                m.y,
                m.direction,
            ),
    {
    }

    /// An update that starts on screen moves the origin and every part by one
    /// step; one that starts off screen leaves the projectile one step inside
    /// the opposite edge.
    pub proof fn lemma_update_moves(m: Missile)
        requires
            m.wf(),
        ensures
            !m.is_off_screen() ==> m.spec_update() == m.translated(m.direction.step()),
            m.is_off_screen() ==> m.spec_update().x == Missile::entry_x(m.direction)
                + m.direction.step(),
            m.spec_update().y == m.y,
            m.spec_update().direction == m.direction,
    {
    }
}

} // verus!
