//! River traffic: logs and turtles, and the lanes that own them.
//!
//! A river lane is one row of same-kind transports.  The kind is derived
//! from the randomly drawn direction — left-to-right rows carry logs,
//! right-to-left rows carry turtles — and the count, speed and spacing are
//! drawn from kind-specific bounded ranges.  Transports move and wrap
//! exactly as road vehicles do; they carry the player instead of harming it.

use vstd::prelude::*;
use rand::rngs::StdRng;
use crate::constants::{
    COLOUR_LOG,
    COLOUR_TURTLE,
    LOG_W,
    MAX_DELAY,
    MAX_NUM_OF_LOGS,
    MAX_NUM_OF_TURTLES,
    MAX_SPEED_OF_OBSTACLES,
    MIN_DELAY,
    MIN_SPEED_OF_OBSTACLES,
    SQUARE_SIZE,
    TURTLE_W,
    WIN_H,
    WIN_W,
    WRAP_MARGIN,
};
use crate::rng::rand_range;
use crate::sprites::{DrawCmd, Rectangle};
use crate::traffic::{ltr_of_die, starting_x};

verus! {

/// One moving river platform: a rectangle, a speed, and a direction
/// (`true` is left-to-right).
#[derive(Clone, Copy, PartialEq, Eq, Structural, Debug)]
pub struct RiverTransport {
    pub form: Rectangle,
    pub speed: i32,
    pub direction: bool,
}

/// One motion step of a river transport: wrap to the opposite off-screen
/// edge when the play-field has been left, then advance by the speed.
pub open spec fn transport_after_update(t: RiverTransport) -> RiverTransport {
    if t.direction {
        let x0: int = if t.form.x >= WIN_W + WRAP_MARGIN {
            0 - t.form.w - WRAP_MARGIN
        } else {
            t.form.x as int
        };
        RiverTransport { form: Rectangle { x: (x0 + t.speed) as i32, ..t.form }, ..t }
    } else {
        let x0: int = if t.form.x <= 0 - t.form.w {
            WIN_W - WRAP_MARGIN
        } else {
            t.form.x as int
        };
        RiverTransport { form: Rectangle { x: (x0 - t.speed) as i32, ..t.form }, ..t }
    }
}

impl RiverTransport {
    /// Well-formedness: positive speed within the drawn range, one cell tall,
    /// a modest width, and a position inside the wrap window of its
    /// direction of travel.
    pub open spec fn wf(self) -> bool {
        &&& 0 < self.speed <= MAX_SPEED_OF_OBSTACLES
        &&& 0 < self.form.w <= 10_000
        &&& self.form.h == SQUARE_SIZE
        &&& -1_000_000 <= self.form.y <= 1_000_000
        &&& -100_000 <= self.form.x
        &&& self.direction ==> self.form.x < WIN_W + WRAP_MARGIN + self.speed
        &&& !self.direction ==> self.form.x <= WIN_W - WRAP_MARGIN
    }

    /// A transport of width `w` at row `y`, with the lane's shared speed and
    /// direction, started off-screen behind `delay` units of spacing, painted
    /// as a log for kind zero and as a turtle otherwise.
    pub fn construct(
        w: i32,
        y: i32,
        speed: i32,
        delay: i32,
        ltr_direction: bool,
        river_transport_type: i32,
    ) -> (t: RiverTransport)
        requires
            0 < w <= 10_000,
            -1_000_000 <= y <= 1_000_000,
            0 < speed <= MAX_SPEED_OF_OBSTACLES,
            0 <= delay <= 50_000,
        ensures
            t.wf(),
            t.form.x == starting_x(ltr_direction, w as int, delay as int),
            t.form.y == y,
            t.form.w == w,
            t.form.h == SQUARE_SIZE,
            t.form.colour == (if river_transport_type == 0 {
                COLOUR_LOG
            } else {
                COLOUR_TURTLE
            }),
            t.speed == speed,
            t.direction == ltr_direction,
    {
        let h: i32 = SQUARE_SIZE;
        let x: i32 = RiverTransport::assign_starting_x(ltr_direction, w, delay);
        RiverTransport {
            form: Rectangle::construct(
                x,
                y,
                w,
                h,
                RiverTransport::assign_color(river_transport_type),
            ),
            speed,
            direction: ltr_direction,
        }
    }

    /// The starting x coordinate: off-screen in the direction of travel,
    /// offset by the accumulated delay.
    fn assign_starting_x(ltr_direction: bool, w: i32, delay: i32) -> (x: i32)
        requires
            0 < w <= 10_000,
            0 <= delay <= 50_000,
        ensures
            x == starting_x(ltr_direction, w as int, delay as int),
    {
        match ltr_direction {
            true => 0 - w - WRAP_MARGIN - delay,
            false => WIN_W - WRAP_MARGIN - delay,
        }
    }

    /// The palette code of the row's kind: logs for kind zero, turtles else.
    fn assign_color(river_transport_type: i32) -> (c: i32)
        ensures
            c == (if river_transport_type == 0 {
                COLOUR_LOG
            } else {
                COLOUR_TURTLE
            }),
    {
        match river_transport_type {
            0 => COLOUR_LOG,
            _ => COLOUR_TURTLE,
        }
    }

    /// Requests this transport's rectangle to be painted.
    fn draw(&self) -> (c: DrawCmd)
        ensures
            c == DrawCmd::Rect(self.form),
    {
        self.form.draw()
    }

    /// One motion step: advance by the speed in the direction of travel,
    /// first wrapping to the opposite off-screen edge when the play-field
    /// has been left.
    fn update(&mut self)
        requires
            old(self).wf(),
        ensures
            final(self).wf(),
            *final(self) == transport_after_update(*old(self)),
    {
        if self.direction {
            if self.form.x >= WIN_W + WRAP_MARGIN {
                self.form.x = 0 - self.form.w - WRAP_MARGIN;
            }
            self.form.x = self.form.x + self.speed;
        } else {
            if self.form.x <= 0 - self.form.w {
                self.form.x = WIN_W - WRAP_MARGIN;
            }
            self.form.x = self.form.x - self.speed;
        }
    }

    /// The left x coordinate of the transport.
    pub fn get_left_edge(&self) -> (r: i32)
        ensures
            r == self.form.x,
    {
        self.form.x
    }

    /// The right x coordinate of the transport.
    pub fn get_right_edge(&self) -> (r: i32)
        requires
            i32::MIN <= self.form.x + self.form.w <= i32::MAX,
        ensures
            r == self.form.x + self.form.w,
    {
        self.form.x + self.form.w
    }

    /// The bottom y coordinate of the transport.
    pub fn get_bottom_edge(&self) -> (r: i32)
        ensures
            r == self.form.y,
    {
        self.form.y
    }

    /// The top y coordinate of the transport.
    pub fn get_top_edge(&self) -> (r: i32)
        requires
            i32::MIN <= self.form.y - self.form.h <= i32::MAX,
        ensures
            r == self.form.y - self.form.h,
    {
        self.form.y - self.form.h
    }

    /// The speed of the transport, imparted to a player riding it.
    pub fn get_speed(&self) -> (r: i32)
        ensures
            r == self.speed,
    {
        self.speed
    }

    /// The direction of the transport, imparted to a player riding it.
    pub fn get_direction(&self) -> (r: bool)
        ensures
            r == self.direction,
    {
        self.direction
    }
}

/// One row of river traffic: an ordered sequence of same-kind transports.
pub struct RiverLane {
    pub river_transports: Vec<RiverTransport>,
}

impl RiverLane {
    /// Well-formedness: at least one transport, all well formed, and all
    /// sharing the lane's row, width, colour, speed and direction.
    pub open spec fn wf(self) -> bool {
        &&& self.river_transports@.len() >= 1
        &&& forall|i: int|
            0 <= i < self.river_transports@.len() ==> (#[trigger] self.river_transports@[i]).wf()
        &&& forall|i: int|
            0 <= i < self.river_transports@.len() ==> (#[trigger] self.river_transports@[i]).speed
                == self.river_transports@[0].speed
        &&& forall|i: int|
            0 <= i < self.river_transports@.len() ==> (
            #[trigger] self.river_transports@[i]).direction
                == self.river_transports@[0].direction
        &&& forall|i: int|
            0 <= i < self.river_transports@.len() ==> (#[trigger] self.river_transports@[i]).form.y
                == self.river_transports@[0].form.y
        &&& forall|i: int|
            0 <= i < self.river_transports@.len() ==> (#[trigger] self.river_transports@[i]).form.w
                == self.river_transports@[0].form.w
        &&& forall|i: int|
            0 <= i < self.river_transports@.len() ==> (
            #[trigger] self.river_transports@[i]).form.colour
                == self.river_transports@[0].form.colour
    }

    /// A new river lane at row offset `y_modifier`: the direction is drawn,
    /// the kind follows from it (left-to-right rows are logs, right-to-left
    /// rows are turtles), and count, speed and spacing are drawn from the
    /// kind's bounded ranges.
    pub fn construct(rng: &mut StdRng, y_modifier: i32) -> (lane: RiverLane)
        requires
            0 <= y_modifier <= 1_000,
        ensures
            lane.wf(),
            2 <= lane.river_transports@.len() < MAX_NUM_OF_TURTLES,
            lane.river_transports@[0].form.y == WIN_H - y_modifier * SQUARE_SIZE,
            lane.river_transports@[0].direction ==> {
                &&& lane.river_transports@[0].form.w == LOG_W
                &&& lane.river_transports@[0].form.colour == COLOUR_LOG
                &&& lane.river_transports@.len() < MAX_NUM_OF_LOGS
            },
            !lane.river_transports@[0].direction ==> {
                &&& lane.river_transports@[0].form.w == TURTLE_W
                &&& lane.river_transports@[0].form.colour == COLOUR_TURTLE
            },
            MIN_SPEED_OF_OBSTACLES <= lane.river_transports@[0].speed < MAX_SPEED_OF_OBSTACLES,
            !lane.river_transports@[0].direction ==> lane.river_transports@[0].speed
                < MAX_SPEED_OF_OBSTACLES - MIN_SPEED_OF_OBSTACLES,
            forall|i: int|
                0 <= i && i + 1 < lane.river_transports@.len() ==> #[trigger] lane.river_transports@[i
                    + 1].form.x <= lane.river_transports@[i].form.x - MIN_DELAY,
            lane.river_transports@[0].direction ==> forall|i: int|
                0 <= i && i + 1 < lane.river_transports@.len() ==> #[trigger] lane.river_transports@[i
                    + 1].form.x <= lane.river_transports@[i].form.x - 2 * MIN_DELAY,
    {
        let y: i32 = WIN_H - y_modifier * SQUARE_SIZE;
        let ltr_direction: bool = RiverLane::generate_direction(rng);
        let river_transport_type: i32 = RiverLane::generate_river_transport_type(ltr_direction);
        let num_of_river_transports: i32 = RiverLane::generate_number_of_river_transports(
            rng,
            river_transport_type,
        );
        let speed: i32 = RiverLane::generate_speed(rng, river_transport_type);
        RiverLane {
            river_transports: RiverLane::create_river_transport(
                rng,
                river_transport_type,
                y,
                num_of_river_transports,
                speed,
                ltr_direction,
            ),
        }
    }

    /// Builds the row's transports: logs for kind zero, turtles otherwise.
    fn create_river_transport(
        rng: &mut StdRng,
        river_transport_type: i32,
        y: i32,
        num_of_river_transports: i32,
        speed: i32,
        ltr_direction: bool,
    ) -> (transports: Vec<RiverTransport>)
        requires
            -1_000_000 <= y <= 1_000_000,
            1 <= num_of_river_transports <= 10,
            0 < speed <= MAX_SPEED_OF_OBSTACLES,
        ensures
            transports@.len() == num_of_river_transports,
            forall|i: int| 0 <= i < transports@.len() ==> (#[trigger] transports@[i]).wf(),
            forall|i: int| 0 <= i < transports@.len() ==> (#[trigger] transports@[i]).form.y == y,
            forall|i: int| 0 <= i < transports@.len() ==> (#[trigger] transports@[i]).speed == speed,
            forall|i: int|
                0 <= i < transports@.len() ==> (#[trigger] transports@[i]).direction
                    == ltr_direction,
            river_transport_type == 0 ==> forall|i: int|
                0 <= i < transports@.len() ==> (#[trigger] transports@[i]).form.w == LOG_W
                    && transports@[i].form.colour == COLOUR_LOG,
            river_transport_type != 0 ==> forall|i: int|
                0 <= i < transports@.len() ==> (#[trigger] transports@[i]).form.w == TURTLE_W
                    && transports@[i].form.colour == COLOUR_TURTLE,
            forall|i: int|
                0 <= i && i + 1 < transports@.len() ==> #[trigger] transports@[i + 1].form.x
                    <= transports@[i].form.x - MIN_DELAY,
            river_transport_type == 0 && num_of_river_transports != MAX_NUM_OF_LOGS ==> forall|
                i: int,
            |
                0 <= i && i + 1 < transports@.len() ==> #[trigger] transports@[i + 1].form.x
                    <= transports@[i].form.x - 2 * MIN_DELAY,
    {
        match river_transport_type {
            0 => RiverLane::create_logs(rng, y, num_of_river_transports, speed, ltr_direction, 0),
            _ => RiverLane::create_turtles(
                rng,
                y,
                num_of_river_transports,
                speed,
                ltr_direction,
                1,
            ),
        }
    }

    /// Builds a row of logs staggered by randomly drawn spacing.
    fn create_logs(
        rng: &mut StdRng,
        y: i32,
        num_of_logs: i32,
        speed: i32,
        ltr_direction: bool,
        river_transport_type: i32,
    ) -> (logs: Vec<RiverTransport>)
        requires
            -1_000_000 <= y <= 1_000_000,
            1 <= num_of_logs <= 10,
            0 < speed <= MAX_SPEED_OF_OBSTACLES,
            river_transport_type == 0,
        ensures
            logs@.len() == num_of_logs,
            forall|i: int| 0 <= i < logs@.len() ==> (#[trigger] logs@[i]).wf(),
            forall|i: int| 0 <= i < logs@.len() ==> (#[trigger] logs@[i]).form.y == y,
            forall|i: int| 0 <= i < logs@.len() ==> (#[trigger] logs@[i]).speed == speed,
            forall|i: int| 0 <= i < logs@.len() ==> (#[trigger] logs@[i]).direction == ltr_direction,
            forall|i: int| 0 <= i < logs@.len() ==> (#[trigger] logs@[i]).form.w == LOG_W,
            forall|i: int|
                0 <= i < logs@.len() ==> (#[trigger] logs@[i]).form.colour == COLOUR_LOG,
            forall|i: int|
                0 <= i && i + 1 < logs@.len() ==> #[trigger] logs@[i + 1].form.x <= logs@[i].form.x
                    - (MIN_DELAY + SQUARE_SIZE * 2),
            num_of_logs != MAX_NUM_OF_LOGS ==> forall|i: int|
                0 <= i && i + 1 < logs@.len() ==> #[trigger] logs@[i + 1].form.x
                    <= logs@[i].form.x - 2 * MIN_DELAY,
    {
        let mut logs: Vec<RiverTransport> = Vec::new();
        let mut delay: i32 = 0;
        let n: usize = num_of_logs as usize;
        while logs.len() < n
            invariant
                n == num_of_logs,
                1 <= num_of_logs <= 10,
                -1_000_000 <= y <= 1_000_000,
                0 < speed <= MAX_SPEED_OF_OBSTACLES,
                river_transport_type == 0,
                logs@.len() <= n,
                0 <= delay,
                delay <= 3_500 * logs@.len(),
                logs@.len() == 0 ==> delay == 0,
                forall|i: int| 0 <= i < logs@.len() ==> (#[trigger] logs@[i]).wf(),
                forall|i: int| 0 <= i < logs@.len() ==> (#[trigger] logs@[i]).form.y == y,
                forall|i: int| 0 <= i < logs@.len() ==> (#[trigger] logs@[i]).speed == speed,
                forall|i: int|
                    0 <= i < logs@.len() ==> (#[trigger] logs@[i]).direction == ltr_direction,
                forall|i: int| 0 <= i < logs@.len() ==> (#[trigger] logs@[i]).form.w == LOG_W,
                forall|i: int|
                    0 <= i < logs@.len() ==> (#[trigger] logs@[i]).form.colour == COLOUR_LOG,
                forall|i: int|
                    0 <= i && i + 1 < logs@.len() ==> #[trigger] logs@[i + 1].form.x
                        <= logs@[i].form.x - (MIN_DELAY + SQUARE_SIZE * 2),
                num_of_logs != MAX_NUM_OF_LOGS ==> forall|i: int|
                    0 <= i && i + 1 < logs@.len() ==> #[trigger] logs@[i + 1].form.x
                        <= logs@[i].form.x - 2 * MIN_DELAY,
                logs@.len() > 0 ==> starting_x(ltr_direction, LOG_W as int, delay as int)
                    <= logs@[logs@.len() - 1].form.x - (MIN_DELAY + SQUARE_SIZE * 2),
                num_of_logs != MAX_NUM_OF_LOGS && logs@.len() > 0 ==> starting_x(
                    ltr_direction,
                    LOG_W as int,
                    delay as int,
                ) <= logs@[logs@.len() - 1].form.x - 2 * MIN_DELAY,
            decreases n - logs.len(),
        {
            let ghost prev = logs@;
            logs.push(
                RiverTransport::construct(LOG_W, y, speed, delay, ltr_direction, river_transport_type),
            );
            proof {
                assert forall|i: int|
                    0 <= i && i + 1 < logs@.len() implies #[trigger] logs@[i + 1].form.x
                    <= logs@[i].form.x - (MIN_DELAY + SQUARE_SIZE * 2) by {
                    if i + 1 < logs@.len() - 1 {
                        assert(logs@[i + 1] == prev[i + 1]);
                        assert(logs@[i] == prev[i]);
                        assert(prev[i + 1].form.x <= prev[i].form.x - (MIN_DELAY + SQUARE_SIZE
                            * 2));
                    } else {
                        assert(logs@[i] == prev[prev.len() - 1]);
                    }
                }
                if num_of_logs != MAX_NUM_OF_LOGS {
                    assert forall|i: int|
                        0 <= i && i + 1 < logs@.len() implies #[trigger] logs@[i + 1].form.x
                        <= logs@[i].form.x - 2 * MIN_DELAY by {
                        if i + 1 < logs@.len() - 1 {
                            assert(logs@[i + 1] == prev[i + 1]);
                            assert(logs@[i] == prev[i]);
                            assert(prev[i + 1].form.x <= prev[i].form.x - 2 * MIN_DELAY);
                        } else {
                            assert(logs@[i] == prev[prev.len() - 1]);
                        }
                    }
                }
            }
            let step: i32 = RiverLane::generate_log_delay(rng, num_of_logs);
            delay += step;
        }
        logs
    }

    /// Builds a row of turtles staggered by randomly drawn spacing.
    fn create_turtles(
        rng: &mut StdRng,
        y: i32,
        num_of_turtles: i32,
        speed: i32,
        ltr_direction: bool,
        river_transport_type: i32,
    ) -> (turtles: Vec<RiverTransport>)
        requires
            -1_000_000 <= y <= 1_000_000,
            1 <= num_of_turtles <= 10,
            0 < speed <= MAX_SPEED_OF_OBSTACLES,
            river_transport_type != 0,
        ensures
            turtles@.len() == num_of_turtles,
            forall|i: int| 0 <= i < turtles@.len() ==> (#[trigger] turtles@[i]).wf(),
            forall|i: int| 0 <= i < turtles@.len() ==> (#[trigger] turtles@[i]).form.y == y,
            forall|i: int| 0 <= i < turtles@.len() ==> (#[trigger] turtles@[i]).speed == speed,
            forall|i: int|
                0 <= i < turtles@.len() ==> (#[trigger] turtles@[i]).direction == ltr_direction,
            forall|i: int| 0 <= i < turtles@.len() ==> (#[trigger] turtles@[i]).form.w == TURTLE_W,
            forall|i: int|
                0 <= i < turtles@.len() ==> (#[trigger] turtles@[i]).form.colour == COLOUR_TURTLE,
            forall|i: int|
                0 <= i && i + 1 < turtles@.len() ==> #[trigger] turtles@[i + 1].form.x
                    <= turtles@[i].form.x - MIN_DELAY,
    {
        let mut turtles: Vec<RiverTransport> = Vec::new();
        let mut delay: i32 = 0;
        let n: usize = num_of_turtles as usize;
        while turtles.len() < n
            invariant
                n == num_of_turtles,
                1 <= num_of_turtles <= 10,
                -1_000_000 <= y <= 1_000_000,
                0 < speed <= MAX_SPEED_OF_OBSTACLES,
                river_transport_type != 0,
                turtles@.len() <= n,
                0 <= delay,
                delay <= 3_500 * turtles@.len(),
                turtles@.len() == 0 ==> delay == 0,
                forall|i: int| 0 <= i < turtles@.len() ==> (#[trigger] turtles@[i]).wf(),
                forall|i: int| 0 <= i < turtles@.len() ==> (#[trigger] turtles@[i]).form.y == y,
                forall|i: int| 0 <= i < turtles@.len() ==> (#[trigger] turtles@[i]).speed == speed,
                forall|i: int|
                    0 <= i < turtles@.len() ==> (#[trigger] turtles@[i]).direction == ltr_direction,
                forall|i: int|
                    0 <= i < turtles@.len() ==> (#[trigger] turtles@[i]).form.w == TURTLE_W,
                forall|i: int|
                    0 <= i < turtles@.len() ==> (#[trigger] turtles@[i]).form.colour
                        == COLOUR_TURTLE,
                forall|i: int|
                    0 <= i && i + 1 < turtles@.len() ==> #[trigger] turtles@[i + 1].form.x
                        <= turtles@[i].form.x - MIN_DELAY,
                turtles@.len() > 0 ==> starting_x(ltr_direction, TURTLE_W as int, delay as int)
                    <= turtles@[turtles@.len() - 1].form.x - MIN_DELAY,
            decreases n - turtles.len(),
        {
            let ghost prev = turtles@;
            turtles.push(
                RiverTransport::construct(
                    TURTLE_W,
                    y,
                    speed,
                    delay,
                    ltr_direction,
                    river_transport_type,
                ),
            );
            proof {
                assert forall|i: int|
                    0 <= i && i + 1 < turtles@.len() implies #[trigger] turtles@[i + 1].form.x
                    <= turtles@[i].form.x - MIN_DELAY by {
                    if i + 1 < turtles@.len() - 1 {
                        assert(turtles@[i + 1] == prev[i + 1]);
                        assert(turtles@[i] == prev[i]);
                        assert(prev[i + 1].form.x <= prev[i].form.x - MIN_DELAY);
                    } else {
                        assert(turtles@[i] == prev[prev.len() - 1]);
                    }
                }
            }
            let step: i32 = RiverLane::generate_turtle_delay(rng, num_of_turtles);
            delay += step;
        }
        turtles
    }

    /// The kind that goes with a direction: left-to-right rows carry logs
    /// (kind zero), right-to-left rows carry turtles (kind one).
    fn generate_river_transport_type(ltr_direction: bool) -> (t: i32)
        ensures
            t == (if ltr_direction {
                0int
            } else {
                1int
            }),
    {
        match ltr_direction {
            true => 0,
            false => 1,
        }
    }

    /// Draws how many transports the row holds, bounded by the kind's
    /// maximum.
    fn generate_number_of_river_transports(rng: &mut StdRng, river_transport_type: i32) -> (n: i32)
        ensures
            2 <= n < MAX_NUM_OF_TURTLES,
            river_transport_type == 0 ==> n < MAX_NUM_OF_LOGS,
    {
        match river_transport_type {
            0 => rand_range(rng, 2, MAX_NUM_OF_LOGS),
            _ => rand_range(rng, 2, MAX_NUM_OF_TURTLES),
        }
    }

    /// Draws the row's shared speed; turtles get a slightly lower upper
    /// bound — half a pixel less — because they swim against the current.
    fn generate_speed(rng: &mut StdRng, river_transport_type: i32) -> (s: i32)
        ensures
            MIN_SPEED_OF_OBSTACLES <= s < MAX_SPEED_OF_OBSTACLES,
            river_transport_type != 0 ==> s < MAX_SPEED_OF_OBSTACLES - MIN_SPEED_OF_OBSTACLES,
    {
        match river_transport_type {
            0 => rand_range(rng, MIN_SPEED_OF_OBSTACLES, MAX_SPEED_OF_OBSTACLES),
            _ => rand_range(
                rng,
                MIN_SPEED_OF_OBSTACLES,
                MAX_SPEED_OF_OBSTACLES - MIN_SPEED_OF_OBSTACLES,
            ),
        }
    }

    /// Draws the spacing added behind one turtle; when the row is at the
    /// turtle maximum the spacing is the fixed minimum, to prevent crowding.
    fn generate_turtle_delay(rng: &mut StdRng, num_of_river_transports: i32) -> (d: i32)
        ensures
            MIN_DELAY <= d < 2 * MAX_DELAY,
            num_of_river_transports == MAX_NUM_OF_TURTLES ==> d == MIN_DELAY,
    {
        if num_of_river_transports == MAX_NUM_OF_TURTLES {
            MIN_DELAY
        } else {
            rand_range(rng, MIN_DELAY, MAX_DELAY)
        }
    }

    /// Draws the spacing added behind one log; when the row is at the log
    /// maximum the spacing is a fixed larger value.
    fn generate_log_delay(rng: &mut StdRng, num_of_river_transports: i32) -> (d: i32)
        ensures
            MIN_DELAY + SQUARE_SIZE * 2 <= d < 2 * MAX_DELAY,
            num_of_river_transports == MAX_NUM_OF_LOGS ==> d == MIN_DELAY + SQUARE_SIZE * 2,
            num_of_river_transports != MAX_NUM_OF_LOGS ==> d >= 2 * MIN_DELAY,
    {
        if num_of_river_transports == MAX_NUM_OF_LOGS {
            MIN_DELAY + SQUARE_SIZE * 2
        } else {
            rand_range(rng, MIN_DELAY * 2, MAX_DELAY * 2)
        }
    }

    /// Draws the row's direction from a six-sided die, mapped by
    /// `ltr_of_die`: three faces each way.
    fn generate_direction(rng: &mut StdRng) -> bool {
        let six_sided_die: i32 = rand_range(rng, 0, 99999) % 6;
        RiverLane::direction_of_die(six_sided_die)
    }

    /// The fixed die mapping: faces one, four and five go left-to-right,
    /// faces zero, two and three go right-to-left.
    fn direction_of_die(six_sided_die: i32) -> (r: bool)
        requires
            0 <= six_sided_die < 6,
        ensures
            r == ltr_of_die(six_sided_die as int),
    {
        match six_sided_die {
            0 => false,
            1 => true,
            2 => false,
            3 => false,
            4 => true,
            _ => true,
        }
    }

    /// Requests every transport in the row to be painted, in order.
    pub fn draw_river_transports_in_river_lane(&self) -> (cmds: Vec<DrawCmd>)
        ensures
            cmds@.len() == self.river_transports@.len(),
            forall|i: int|
                0 <= i < cmds@.len() ==> #[trigger] cmds@[i] == DrawCmd::Rect(
                    self.river_transports@[i].form,
                ),
    {
        let mut cmds: Vec<DrawCmd> = Vec::new();
        let mut j: usize = 0;
        while j < self.river_transports.len()
            invariant
                j == cmds@.len() <= self.river_transports@.len(),
                forall|i: int|
                    0 <= i < cmds@.len() ==> #[trigger] cmds@[i] == DrawCmd::Rect(
                        self.river_transports@[i].form,
                    ),
            decreases self.river_transports@.len() - j,
        {
            cmds.push(self.river_transports[j].draw());
            j += 1;
        }
        cmds
    }

    /// Advances every transport in the row by one motion step.
    pub fn update_river_transports_in_river_lane(&mut self)
        requires
            old(self).wf(),
        ensures
            final(self).wf(),
            final(self).river_transports@.len() == old(self).river_transports@.len(),
            forall|i: int|
                0 <= i < old(self).river_transports@.len()
                    ==> #[trigger] final(self).river_transports@[i] == transport_after_update(
                    old(self).river_transports@[i],
                ),
    {
        let mut j: usize = 0;
        while j < self.river_transports.len()
            invariant
                self.river_transports@.len() == old(self).river_transports@.len(),
                j <= self.river_transports@.len(),
                forall|i: int|
                    0 <= i < j ==> #[trigger] self.river_transports@[i] == transport_after_update(
                        old(self).river_transports@[i],
                    ),
                forall|i: int|
                    0 <= i < j ==> (#[trigger] self.river_transports@[i]).wf(),
                forall|i: int|
                    j <= i < self.river_transports@.len() ==> #[trigger] self.river_transports@[i]
                        == old(self).river_transports@[i],
                forall|i: int|
                    0 <= i < old(self).river_transports@.len() ==> (#[trigger] old(self).river_transports@[i]).wf(),
            decreases self.river_transports@.len() - j,
        {
            self.river_transports[j].update();
            j += 1;
        }
    }
}

} // verus!
