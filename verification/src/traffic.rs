//! Road traffic: vehicles and the lanes that own them.
//!
//! A lane is one row of same-kind vehicles (trucks or cars, never mixed)
//! that share a randomly drawn direction and speed and start staggered by
//! randomly drawn delays, so they never overlap.  Every tick each vehicle
//! advances by its speed and wraps to the opposite off-screen edge once it
//! leaves the play-field.

use vstd::prelude::*;
use rand::rngs::StdRng;
use crate::constants::{
    CAR_W,
    COLOUR_VEHICLE_BASE,
    MAX_DELAY,
    MAX_NUM_OF_CARS,
    MAX_NUM_OF_TRUCKS,
    MAX_SPEED_OF_OBSTACLES,
    MIN_DELAY,
    MIN_SPEED_OF_OBSTACLES,
    NUM_VEHICLE_COLOURS,
    SQUARE_SIZE,
    TRUCK_W,
    WIN_H,
    WIN_W,
    WRAP_MARGIN,
};
use crate::rng::rand_range;
use crate::sprites::{DrawCmd, Rectangle};

verus! {

/// One moving road hazard: a rectangle, a speed, and a direction
/// (`true` is left-to-right).
#[derive(Clone, Copy, PartialEq, Eq, Structural, Debug)]
pub struct Vehicle {
    pub form: Rectangle,
    pub speed: i32,
    pub direction: bool,
}

/// Where an obstacle of width `w`, delayed by `delay`, starts: off-screen in
/// the direction it will move from, pushed further out by the delay.
pub open spec fn starting_x(ltr_direction: bool, w: int, delay: int) -> int {
    if ltr_direction {
        0 - w - WRAP_MARGIN - delay
    } else {
        WIN_W - WRAP_MARGIN - delay
    }
}

/// Which way a six-sided die face sends a lane: faces one, four and five go
/// left-to-right, faces zero, two and three go right-to-left — half the
/// faces each way.
pub open spec fn ltr_of_die(die: int) -> bool {
    die == 1 || die == 4 || die == 5
}

/// One motion step of an obstacle: wrap to the opposite off-screen edge when
/// the play-field has been left, then advance by the speed.
pub open spec fn vehicle_after_update(v: Vehicle) -> Vehicle {
    if v.direction {
        let x0: int = if v.form.x >= WIN_W + WRAP_MARGIN {
            0 - v.form.w - WRAP_MARGIN
        } else {
            v.form.x as int
        };
        Vehicle { form: Rectangle { x: (x0 + v.speed) as i32, ..v.form }, ..v }
    } else {
        let x0: int = if v.form.x <= 0 - v.form.w {
            WIN_W - WRAP_MARGIN
        } else {
            v.form.x as int
        };
        Vehicle { form: Rectangle { x: (x0 - v.speed) as i32, ..v.form }, ..v }
    }
}

impl Vehicle {
    /// Well-formedness: positive speed within the drawn range, one cell tall,
    /// a modest width, and a position inside the wrap window of its
    /// direction of travel.
    pub open spec fn wf(self) -> bool {
        &&& 0 < self.speed <= MAX_SPEED_OF_OBSTACLES
        &&& 0 < self.form.w <= 10_000
        &&& self.form.h == SQUARE_SIZE
        &&& -1_000_000 <= self.form.y <= 1_000_000
        &&& -100_000 <= self.form.x
        &&& self.direction ==> self.form.x < WIN_W + WRAP_MARGIN + self.speed
        &&& !self.direction ==> self.form.x <= WIN_W - WRAP_MARGIN
    }

    /// A vehicle of width `w` at row `y`, with the lane's shared speed and
    /// direction, started off-screen behind `delay` units of spacing, painted
    /// with a randomly drawn palette code.
    pub fn construct(rng: &mut StdRng, w: i32, y: i32, speed: i32, delay: i32, ltr_direction: bool) -> (v: Vehicle)
        requires
            0 < w <= 10_000,
            -1_000_000 <= y <= 1_000_000,
            0 < speed <= MAX_SPEED_OF_OBSTACLES,
            0 <= delay <= 50_000,
        ensures
            v.wf(),
            v.form.x == starting_x(ltr_direction, w as int, delay as int),
            v.form.y == y,
            v.form.w == w,
            v.form.h == SQUARE_SIZE,
            COLOUR_VEHICLE_BASE <= v.form.colour < COLOUR_VEHICLE_BASE + NUM_VEHICLE_COLOURS,
            v.speed == speed,
            v.direction == ltr_direction,
    {
        let h: i32 = SQUARE_SIZE;
        let x: i32 = Vehicle::assign_starting_x(ltr_direction, w, delay);
        let colour: i32 = Vehicle::assign_color(rng);
        Vehicle {
            form: Rectangle::construct(x, y, w, h, colour),
            speed,
            direction: ltr_direction,
        }
    }

    /// The starting x coordinate: off-screen in the direction of travel,
    /// offset by the accumulated delay.
    fn assign_starting_x(ltr_direction: bool, w: i32, delay: i32) -> (x: i32)
        requires
            0 < w <= 10_000,
            0 <= delay <= 50_000,
        ensures
            x == starting_x(ltr_direction, w as int, delay as int),
    {
        match ltr_direction {
            true => 0 - w - WRAP_MARGIN - delay,
            false => WIN_W - WRAP_MARGIN - delay,
        }
    }

    /// Draws one of the seven vehicle palette codes at random.
    fn assign_color(rng: &mut StdRng) -> (c: i32)
        ensures
            COLOUR_VEHICLE_BASE <= c < COLOUR_VEHICLE_BASE + NUM_VEHICLE_COLOURS,
    {
        let colour: i32 = rand_range(rng, 0, 99999) % NUM_VEHICLE_COLOURS;
        COLOUR_VEHICLE_BASE + colour
    }

    /// Requests this vehicle's rectangle to be painted.
    fn draw(&self) -> (c: DrawCmd)
        ensures
            c == DrawCmd::Rect(self.form),
    {
        self.form.draw()
    }

    /// One motion step: advance by the speed in the direction of travel,
    /// first wrapping to the opposite off-screen edge when the play-field
    /// has been left.
    fn update(&mut self)
        requires
            old(self).wf(),
        ensures
            final(self).wf(),
            *final(self) == vehicle_after_update(*old(self)),
    {
        if self.direction {
            if self.form.x >= WIN_W + WRAP_MARGIN {
                self.form.x = 0 - self.form.w - WRAP_MARGIN;
            }
            self.form.x = self.form.x + self.speed;
        } else {
            if self.form.x <= 0 - self.form.w {
                self.form.x = WIN_W - WRAP_MARGIN;
            }
            self.form.x = self.form.x - self.speed;
        }
    }

    /// The left x coordinate of the vehicle.
    pub fn get_left_edge(&self) -> (r: i32)
        ensures
            r == self.form.x,
    {
        self.form.x
    }

    /// The right x coordinate of the vehicle.
    pub fn get_right_edge(&self) -> (r: i32)
        requires
            i32::MIN <= self.form.x + self.form.w <= i32::MAX,
        ensures
            r == self.form.x + self.form.w,
    {
        self.form.x + self.form.w
    }

    /// The bottom y coordinate of the vehicle.
    pub fn get_bottom_edge(&self) -> (r: i32)
        ensures
            r == self.form.y,
    {
        self.form.y
    }

    /// The top y coordinate of the vehicle.
    pub fn get_top_edge(&self) -> (r: i32)
        requires
            i32::MIN <= self.form.y - self.form.h <= i32::MAX,
        ensures
            r == self.form.y - self.form.h,
    {
        self.form.y - self.form.h
    }
}

/// Obstacle wrap boundedness: an obstacle that has left the play-field in
/// its direction of travel resets to the one fixed off-screen position on
/// the opposite side — the overshoot is absorbed, not carried over — and a
/// step never takes an obstacle beyond the wrap window, so its position
/// never drifts without bound.
pub proof fn lemma_wrap_bounded(v: Vehicle)
    requires
        v.wf(),
    ensures
        v.direction && v.form.x >= WIN_W + WRAP_MARGIN ==> vehicle_after_update(v).form.x == 0
            - v.form.w - WRAP_MARGIN + v.speed,
        !v.direction && v.form.x <= 0 - v.form.w ==> vehicle_after_update(v).form.x == WIN_W
            - WRAP_MARGIN - v.speed,
        vehicle_after_update(v).wf(),
{
}

/// One row of road traffic: an ordered sequence of same-kind vehicles.
pub struct Lane {
    pub vehicles: Vec<Vehicle>,
}

impl Lane {
    /// Well-formedness: at least one vehicle, all well formed, and all
    /// sharing the lane's row, width, speed and direction.
    pub open spec fn wf(self) -> bool {
        &&& self.vehicles@.len() >= 1
        &&& forall|i: int|
            0 <= i < self.vehicles@.len() ==> (#[trigger] self.vehicles@[i]).wf()
        &&& forall|i: int|
            0 <= i < self.vehicles@.len() ==> (#[trigger] self.vehicles@[i]).speed
                == self.vehicles@[0].speed
        &&& forall|i: int|
            0 <= i < self.vehicles@.len() ==> (#[trigger] self.vehicles@[i]).direction
                == self.vehicles@[0].direction
        &&& forall|i: int|
            0 <= i < self.vehicles@.len() ==> (#[trigger] self.vehicles@[i]).form.y
                == self.vehicles@[0].form.y
        &&& forall|i: int|
            0 <= i < self.vehicles@.len() ==> (#[trigger] self.vehicles@[i]).form.w
                == self.vehicles@[0].form.w
    }

    /// A new lane at row offset `y_modifier`: direction, vehicle kind, count
    /// and speed are drawn from the generator, and the vehicles start
    /// staggered so that each is at least one minimum spacing behind the one
    /// before it.
    pub fn construct(rng: &mut StdRng, y_modifier: i32) -> (lane: Lane)
        requires
            0 <= y_modifier <= 1_000,
        ensures
            lane.wf(),
            1 <= lane.vehicles@.len() < MAX_NUM_OF_CARS,
            lane.vehicles@[0].form.y == WIN_H - y_modifier * SQUARE_SIZE,
            lane.vehicles@[0].form.w == CAR_W || lane.vehicles@[0].form.w == TRUCK_W,
            lane.vehicles@[0].form.w == TRUCK_W ==> lane.vehicles@.len() < MAX_NUM_OF_TRUCKS,
            MIN_SPEED_OF_OBSTACLES <= lane.vehicles@[0].speed < MAX_SPEED_OF_OBSTACLES,
            forall|i: int|
                0 <= i && i + 1 < lane.vehicles@.len() ==> #[trigger] lane.vehicles@[i + 1].form.x
                    <= lane.vehicles@[i].form.x - MIN_DELAY,
            lane.vehicles@[0].form.w == TRUCK_W ==> forall|i: int|
                0 <= i && i + 1 < lane.vehicles@.len() ==> #[trigger] lane.vehicles@[i + 1].form.x
                    <= lane.vehicles@[i].form.x - 2 * MIN_DELAY,
    {
        let y: i32 = WIN_H - y_modifier * SQUARE_SIZE;
        let ltr_direction: bool = Lane::generate_direction(rng);
        let vehicle_type: i32 = Lane::generate_vehicle_type(rng);
        let num_of_vehicles: i32 = Lane::generate_number_of_vehicles(rng, vehicle_type);
        let speed: i32 = Lane::generate_speed(rng);
        Lane {
            vehicles: Lane::create_vehicle(rng, vehicle_type, y, num_of_vehicles, speed, ltr_direction),
        }
    }

    /// Builds the row's vehicles: trucks for kind zero, cars otherwise.
    fn create_vehicle(
        rng: &mut StdRng,
        vehicle_type: i32,
        y: i32,
        num_of_vehicles: i32,
        speed: i32,
        ltr_direction: bool,
    ) -> (vehicles: Vec<Vehicle>)
        requires
            -1_000_000 <= y <= 1_000_000,
            1 <= num_of_vehicles <= 10,
            0 < speed <= MAX_SPEED_OF_OBSTACLES,
        ensures
            vehicles@.len() == num_of_vehicles,
            forall|i: int| 0 <= i < vehicles@.len() ==> (#[trigger] vehicles@[i]).wf(),
            forall|i: int|
                0 <= i < vehicles@.len() ==> (#[trigger] vehicles@[i]).form.y == y,
            forall|i: int|
                0 <= i < vehicles@.len() ==> (#[trigger] vehicles@[i]).speed == speed,
            forall|i: int|
                0 <= i < vehicles@.len() ==> (#[trigger] vehicles@[i]).direction == ltr_direction,
            vehicle_type == 0 ==> forall|i: int|
                0 <= i < vehicles@.len() ==> (#[trigger] vehicles@[i]).form.w == TRUCK_W,
            vehicle_type != 0 ==> forall|i: int|
                0 <= i < vehicles@.len() ==> (#[trigger] vehicles@[i]).form.w == CAR_W,
            forall|i: int|
                0 <= i && i + 1 < vehicles@.len() ==> #[trigger] vehicles@[i + 1].form.x
                    <= vehicles@[i].form.x - MIN_DELAY,
            vehicle_type == 0 && num_of_vehicles != MAX_NUM_OF_TRUCKS ==> forall|i: int|
                0 <= i && i + 1 < vehicles@.len() ==> #[trigger] vehicles@[i + 1].form.x
                    <= vehicles@[i].form.x - 2 * MIN_DELAY,
    {
        match vehicle_type {
            0 => Lane::create_trucks(rng, y, num_of_vehicles, speed, ltr_direction),
            _ => Lane::create_cars(rng, y, num_of_vehicles, speed, ltr_direction),
        }
    }

    /// Builds a row of trucks staggered by randomly drawn spacing.
    fn create_trucks(rng: &mut StdRng, y: i32, num_of_trucks: i32, speed: i32, ltr_direction: bool) -> (trucks: Vec<Vehicle>)
        requires
            -1_000_000 <= y <= 1_000_000,
            1 <= num_of_trucks <= 10,
            0 < speed <= MAX_SPEED_OF_OBSTACLES,
        ensures
            trucks@.len() == num_of_trucks,
            forall|i: int| 0 <= i < trucks@.len() ==> (#[trigger] trucks@[i]).wf(),
            forall|i: int| 0 <= i < trucks@.len() ==> (#[trigger] trucks@[i]).form.y == y,
            forall|i: int| 0 <= i < trucks@.len() ==> (#[trigger] trucks@[i]).speed == speed,
            forall|i: int|
                0 <= i < trucks@.len() ==> (#[trigger] trucks@[i]).direction == ltr_direction,
            forall|i: int| 0 <= i < trucks@.len() ==> (#[trigger] trucks@[i]).form.w == TRUCK_W,
            forall|i: int|
                0 <= i && i + 1 < trucks@.len() ==> #[trigger] trucks@[i + 1].form.x
                    <= trucks@[i].form.x - (MIN_DELAY + SQUARE_SIZE * 2),
            num_of_trucks != MAX_NUM_OF_TRUCKS ==> forall|i: int|
                0 <= i && i + 1 < trucks@.len() ==> #[trigger] trucks@[i + 1].form.x
                    <= trucks@[i].form.x - 2 * MIN_DELAY,
    {
        let mut trucks: Vec<Vehicle> = Vec::new();
        let mut delay: i32 = 0;
        let n: usize = num_of_trucks as usize;
        while trucks.len() < n
            invariant
                n == num_of_trucks,
                1 <= num_of_trucks <= 10,
                -1_000_000 <= y <= 1_000_000,
                0 < speed <= MAX_SPEED_OF_OBSTACLES,
                trucks@.len() <= n,
                0 <= delay,
                delay <= 3_500 * trucks@.len(),
                trucks@.len() == 0 ==> delay == 0,
                forall|i: int| 0 <= i < trucks@.len() ==> (#[trigger] trucks@[i]).wf(),
                forall|i: int| 0 <= i < trucks@.len() ==> (#[trigger] trucks@[i]).form.y == y,
                forall|i: int| 0 <= i < trucks@.len() ==> (#[trigger] trucks@[i]).speed == speed,
                forall|i: int|
                    0 <= i < trucks@.len() ==> (#[trigger] trucks@[i]).direction == ltr_direction,
                forall|i: int|
                    0 <= i < trucks@.len() ==> (#[trigger] trucks@[i]).form.w == TRUCK_W,
                forall|i: int|
                    0 <= i && i + 1 < trucks@.len() ==> #[trigger] trucks@[i + 1].form.x
                        <= trucks@[i].form.x - (MIN_DELAY + SQUARE_SIZE * 2),
                num_of_trucks != MAX_NUM_OF_TRUCKS ==> forall|i: int|
                    0 <= i && i + 1 < trucks@.len() ==> #[trigger] trucks@[i + 1].form.x
                        <= trucks@[i].form.x - 2 * MIN_DELAY,
                trucks@.len() > 0 ==> starting_x(ltr_direction, TRUCK_W as int, delay as int)
                    <= trucks@[trucks@.len() - 1].form.x - (MIN_DELAY + SQUARE_SIZE * 2),
                num_of_trucks != MAX_NUM_OF_TRUCKS && trucks@.len() > 0 ==> starting_x(
                    ltr_direction,
                    TRUCK_W as int,
                    delay as int,
                ) <= trucks@[trucks@.len() - 1].form.x - 2 * MIN_DELAY,
            decreases n - trucks.len(),
        {
            let ghost prev = trucks@;
            trucks.push(Vehicle::construct(rng, TRUCK_W, y, speed, delay, ltr_direction));
            proof {
                assert forall|i: int|
                    0 <= i && i + 1 < trucks@.len() implies #[trigger] trucks@[i + 1].form.x
                    <= trucks@[i].form.x - (MIN_DELAY + SQUARE_SIZE * 2) by {
                    if i + 1 < trucks@.len() - 1 {
                        assert(trucks@[i + 1] == prev[i + 1]);
                        assert(trucks@[i] == prev[i]);
                        assert(prev[i + 1].form.x <= prev[i].form.x - (MIN_DELAY + SQUARE_SIZE
                            * 2));
                    } else {
                        assert(trucks@[i] == prev[prev.len() - 1]);
                    }
                }
                if num_of_trucks != MAX_NUM_OF_TRUCKS {
                    assert forall|i: int|
                        0 <= i && i + 1 < trucks@.len() implies #[trigger] trucks@[i + 1].form.x
                        <= trucks@[i].form.x - 2 * MIN_DELAY by {
                        if i + 1 < trucks@.len() - 1 {
                            assert(trucks@[i + 1] == prev[i + 1]);
                            assert(trucks@[i] == prev[i]);
                            assert(prev[i + 1].form.x <= prev[i].form.x - 2 * MIN_DELAY);
                        } else {
                            assert(trucks@[i] == prev[prev.len() - 1]);
                        }
                    }
                }
            }
            let step: i32 = Lane::generate_truck_delay(rng, num_of_trucks);
            delay += step;
        }
        trucks
    }

    /// Builds a row of cars staggered by randomly drawn spacing.
    fn create_cars(rng: &mut StdRng, y: i32, num_of_cars: i32, speed: i32, ltr_direction: bool) -> (cars: Vec<Vehicle>)
        requires
            -1_000_000 <= y <= 1_000_000,
            1 <= num_of_cars <= 10,
            0 < speed <= MAX_SPEED_OF_OBSTACLES,
        ensures
            cars@.len() == num_of_cars,
            forall|i: int| 0 <= i < cars@.len() ==> (#[trigger] cars@[i]).wf(),
            forall|i: int| 0 <= i < cars@.len() ==> (#[trigger] cars@[i]).form.y == y,
            forall|i: int| 0 <= i < cars@.len() ==> (#[trigger] cars@[i]).speed == speed,
            forall|i: int|
                0 <= i < cars@.len() ==> (#[trigger] cars@[i]).direction == ltr_direction,
            forall|i: int| 0 <= i < cars@.len() ==> (#[trigger] cars@[i]).form.w == CAR_W,
            forall|i: int|
                0 <= i && i + 1 < cars@.len() ==> #[trigger] cars@[i + 1].form.x
                    <= cars@[i].form.x - MIN_DELAY,
    {
        let mut cars: Vec<Vehicle> = Vec::new();
        let mut delay: i32 = 0;
        let n: usize = num_of_cars as usize;
        while cars.len() < n
            invariant
                n == num_of_cars,
                1 <= num_of_cars <= 10,
                -1_000_000 <= y <= 1_000_000,
                0 < speed <= MAX_SPEED_OF_OBSTACLES,
                cars@.len() <= n,
                0 <= delay,
                delay <= 3_500 * cars@.len(),
                cars@.len() == 0 ==> delay == 0,
                forall|i: int| 0 <= i < cars@.len() ==> (#[trigger] cars@[i]).wf(),
                forall|i: int| 0 <= i < cars@.len() ==> (#[trigger] cars@[i]).form.y == y,
                forall|i: int| 0 <= i < cars@.len() ==> (#[trigger] cars@[i]).speed == speed,
                forall|i: int|
                    0 <= i < cars@.len() ==> (#[trigger] cars@[i]).direction == ltr_direction,
                forall|i: int| 0 <= i < cars@.len() ==> (#[trigger] cars@[i]).form.w == CAR_W,
                forall|i: int|
                    0 <= i && i + 1 < cars@.len() ==> #[trigger] cars@[i + 1].form.x
                        <= cars@[i].form.x - MIN_DELAY,
                cars@.len() > 0 ==> starting_x(ltr_direction, CAR_W as int, delay as int)
                    <= cars@[cars@.len() - 1].form.x - MIN_DELAY,
            decreases n - cars.len(),
        {
            let ghost prev = cars@;
            cars.push(Vehicle::construct(rng, CAR_W, y, speed, delay, ltr_direction));
            proof {
                assert forall|i: int|
                    0 <= i && i + 1 < cars@.len() implies #[trigger] cars@[i + 1].form.x
                    <= cars@[i].form.x - MIN_DELAY by {
                    if i + 1 < cars@.len() - 1 {
                        assert(cars@[i + 1] == prev[i + 1]);
                        assert(cars@[i] == prev[i]);
                        assert(prev[i + 1].form.x <= prev[i].form.x - MIN_DELAY);
                    } else {
                        assert(cars@[i] == prev[prev.len() - 1]);
                    }
                }
            }
            let step: i32 = Lane::generate_car_delay(rng, num_of_cars);
            delay += step;
        }
        cars
    }

    /// Draws the row's vehicle kind: zero is trucks, anything else is cars,
    /// so cars come up three times as often.
    fn generate_vehicle_type(rng: &mut StdRng) -> (t: i32)
        ensures
            0 <= t < 4,
    {
        rand_range(rng, 0, 4)
    }

    /// Draws how many vehicles the row holds, bounded by the kind's maximum.
    fn generate_number_of_vehicles(rng: &mut StdRng, vehicle_type: i32) -> (n: i32)
        ensures
            1 <= n < MAX_NUM_OF_CARS,
            vehicle_type == 0 ==> n < MAX_NUM_OF_TRUCKS,
    {
        match vehicle_type {
            0 => rand_range(rng, 1, MAX_NUM_OF_TRUCKS),
            _ => rand_range(rng, 1, MAX_NUM_OF_CARS),
        }
    }

    /// Draws the row's shared speed from the bounded obstacle-speed range.
    fn generate_speed(rng: &mut StdRng) -> (s: i32)
        ensures
            MIN_SPEED_OF_OBSTACLES <= s < MAX_SPEED_OF_OBSTACLES,
    {
        rand_range(rng, MIN_SPEED_OF_OBSTACLES, MAX_SPEED_OF_OBSTACLES)
    }

    /// Draws the spacing added behind one car; when the row is at the car
    /// maximum the spacing is the fixed minimum, to prevent crowding.
    fn generate_car_delay(rng: &mut StdRng, num_of_vehicles: i32) -> (d: i32)
        ensures
            MIN_DELAY <= d < MAX_DELAY,
            num_of_vehicles == MAX_NUM_OF_CARS ==> d == MIN_DELAY,
    {
        if num_of_vehicles == MAX_NUM_OF_CARS {
            MIN_DELAY
        } else {
            rand_range(rng, MIN_DELAY, MAX_DELAY)
        }
    }

    /// Draws the spacing added behind one truck; when the row is at the
    /// truck maximum the spacing is a fixed larger value.
    fn generate_truck_delay(rng: &mut StdRng, num_of_vehicles: i32) -> (d: i32)
        ensures
            MIN_DELAY + SQUARE_SIZE * 2 <= d < 2 * MAX_DELAY,
            num_of_vehicles == MAX_NUM_OF_TRUCKS ==> d == MIN_DELAY + SQUARE_SIZE * 2,
            num_of_vehicles != MAX_NUM_OF_TRUCKS ==> d >= 2 * MIN_DELAY,
    {
        if num_of_vehicles == MAX_NUM_OF_TRUCKS {
            MIN_DELAY + SQUARE_SIZE * 2
        } else {
            rand_range(rng, MIN_DELAY * 2, MAX_DELAY * 2)
        }
    }

    /// Draws the row's direction from a six-sided die, mapped by
    /// `ltr_of_die`: three faces each way.
    fn generate_direction(rng: &mut StdRng) -> bool {
        let six_sided_die: i32 = rand_range(rng, 0, 99999) % 6;
        Lane::direction_of_die(six_sided_die)
    }

    /// The fixed die mapping: faces one, four and five go left-to-right,
    /// faces zero, two and three go right-to-left.
    fn direction_of_die(six_sided_die: i32) -> (r: bool)
        requires
            0 <= six_sided_die < 6,
        ensures
            r == ltr_of_die(six_sided_die as int),
    {
        match six_sided_die {
            0 => false,
            1 => true,
            2 => false,
            3 => false,
            4 => true,
            _ => true,
        }
    }

    /// Requests every vehicle in the row to be painted, in order.
    pub fn draw_vehicles_in_lane(&self) -> (cmds: Vec<DrawCmd>)
        ensures
            cmds@.len() == self.vehicles@.len(),
            forall|i: int|
                0 <= i < cmds@.len() ==> #[trigger] cmds@[i] == DrawCmd::Rect(
                    self.vehicles@[i].form,
                ),
    {
        let mut cmds: Vec<DrawCmd> = Vec::new();
        let mut j: usize = 0;
        while j < self.vehicles.len()
            invariant
                j == cmds@.len() <= self.vehicles@.len(),
                forall|i: int|
                    0 <= i < cmds@.len() ==> #[trigger] cmds@[i] == DrawCmd::Rect(
                        self.vehicles@[i].form,
                    ),
            decreases self.vehicles@.len() - j,
        {
            cmds.push(self.vehicles[j].draw());
            j += 1;
        }
        cmds
    }

    /// Advances every vehicle in the row by one motion step.
    pub fn update_vehicles_in_lane(&mut self)
        requires
            old(self).wf(),
        ensures
            final(self).wf(),
            final(self).vehicles@.len() == old(self).vehicles@.len(),
            forall|i: int|
                0 <= i < old(self).vehicles@.len() ==> #[trigger] final(self).vehicles@[i]
                    == vehicle_after_update(old(self).vehicles@[i]),
    {
        let mut j: usize = 0;
        while j < self.vehicles.len()
            invariant
                self.vehicles@.len() == old(self).vehicles@.len(),
                j <= self.vehicles@.len(),
                forall|i: int|
                    0 <= i < j ==> #[trigger] self.vehicles@[i] == vehicle_after_update(
                        old(self).vehicles@[i],
                    ),
                forall|i: int|
                    j <= i < self.vehicles@.len() ==> #[trigger] self.vehicles@[i]
                        == old(self).vehicles@[i],
                forall|i: int|
                    0 <= i < old(self).vehicles@.len() ==> (#[trigger] old(self).vehicles@[i]).wf(),
            decreases self.vehicles@.len() - j,
        {
            self.vehicles[j].update();
            j += 1;
        }
        proof {
            assert forall|i: int|
                0 <= i < final(self).vehicles@.len() implies (
            #[trigger] final(self).vehicles@[i]).wf() by {
                lemma_wrap_bounded(old(self).vehicles@[i]);
            }
        }
    }
}

} // verus!
