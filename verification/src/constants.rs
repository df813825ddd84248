//! Play-field dimensions, entity sizes, speeds and scoring values.
//!
//! All geometry is measured in fixed-point play-field units, with
//! `UNITS_PER_PIXEL` units to one screen pixel.  Obstacle speeds are drawn
//! from ranges that include fractions of a pixel per tick, so positions and
//! speeds are kept in these finer units and stay exact integers.

use vstd::prelude::*;

verus! {

/// Fixed-point scale: play-field units per screen pixel.
pub const UNITS_PER_PIXEL: i32 = 10;

/// Side of one grid cell, the basis for all geometry.
pub const SQUARE_SIZE: i32 = 25 * UNITS_PER_PIXEL;

/// Play-field width.
pub const WIN_W: i32 = 650 * UNITS_PER_PIXEL;

/// Play-field height; divisible by `SQUARE_SIZE`.
pub const WIN_H: i32 = 400 * UNITS_PER_PIXEL;

/// Number of grid rows in the play-field: `WIN_H / SQUARE_SIZE`.
pub const NUM_ROW: i32 = 16;

/// Index of the middle row: `NUM_ROW / 2`.
pub const MID_ROW: i32 = 8;

/// Starting y coordinate of the player.
pub const START: i32 = WIN_H - SQUARE_SIZE;

/// y coordinate of the goal-row boundary.
pub const END: i32 = SQUARE_SIZE * 3;

/// Number of grid columns in the play-field: `WIN_W / SQUARE_SIZE`.
pub const NUM_COL: i32 = 26;

/// Number of lanes of road traffic.
pub const NUM_LANE: i32 = MID_ROW - 3;

/// Number of lanes of river traffic.
pub const NUM_LOG: i32 = NUM_ROW - MID_ROW - 3;

/// Number of goal slots that fit the play-field width: `(NUM_COL / 2 - 1) / 2`.
pub const CUB_NUM: i32 = 6;

/// Default number of player lives.
pub const LIVES: i32 = 3;

/// Row offset of the first lane of road traffic: one row past the bottom two.
pub const LANE_MODIFIER: i32 = 3;

/// Maximum number of cars per lane: one per hundred pixels of play-field width.
pub const MAX_NUM_OF_CARS: i32 = 6;

/// Maximum number of trucks per lane: `MAX_NUM_OF_CARS / 2 + 1`.
pub const MAX_NUM_OF_TRUCKS: i32 = 4;

/// Exclusive upper bound of obstacle speed per tick (two pixels).
pub const MAX_SPEED_OF_OBSTACLES: i32 = 2 * UNITS_PER_PIXEL;

/// Inclusive lower bound of obstacle speed per tick: half a pixel.
pub const MIN_SPEED_OF_OBSTACLES: i32 = 5;

/// Minimum spacing between obstacles in one lane.
pub const MIN_DELAY: i32 = 100 * UNITS_PER_PIXEL;

/// Exclusive upper bound of the spacing between obstacles in one lane.
pub const MAX_DELAY: i32 = MIN_DELAY + SQUARE_SIZE * 3;

/// Width of a car.
pub const CAR_W: i32 = SQUARE_SIZE * 2;

/// Width of a truck.
pub const TRUCK_W: i32 = SQUARE_SIZE * 4;

/// Row offset of the first lane of river traffic.
pub const RIVER_LANE_MODIFIER: i32 = LANE_MODIFIER + NUM_LANE + 1;

/// Maximum number of logs per lane: `MAX_NUM_OF_CARS / 2 + 1`.
pub const MAX_NUM_OF_LOGS: i32 = 4;

/// Maximum number of turtles per lane.
pub const MAX_NUM_OF_TURTLES: i32 = MAX_NUM_OF_CARS - 1;

/// Width of a log, kept consistent with that of a truck.
pub const LOG_W: i32 = TRUCK_W;

/// Width of a turtle, kept consistent with that of a car.
pub const TURTLE_W: i32 = CAR_W;

/// Off-screen margin at which a moving obstacle wraps to the other side.
pub const WRAP_MARGIN: i32 = 10 * UNITS_PER_PIXEL;

/// Toggles collisions with obstacles, to support trying new features.
pub const COLLISIONS_ON: bool = true;

/// Points awarded the first time the player reaches a new row.
pub const ROW_BONUS: i64 = 10;

/// Points awarded for occupying a free goal slot.
pub const CUBBIE_BONUS: i64 = 500;

/// Ticks the simulation pauses after a life is lost (one second's worth).
pub const LIFE_LOST_PAUSE_TICKS: u32 = 60;

/// Ticks the simulation pauses when the lives run out (two seconds' worth).
pub const GAME_OVER_PAUSE_TICKS: u32 = 120;

/// Ticks the simulation pauses after a goal slot is occupied.
pub const CUBBIE_PAUSE_TICKS: u32 = 60;

/// Palette code of the grass background.
pub const COLOUR_GRASS: i32 = 0;

/// Palette code of the road background.
pub const COLOUR_ROAD: i32 = 1;

/// Palette code of the river background and the goal slots.
pub const COLOUR_RIVER: i32 = 2;

/// Palette code of a log.
pub const COLOUR_LOG: i32 = 3;

/// Palette code of a turtle.
pub const COLOUR_TURTLE: i32 = 4;

/// First of the seven palette codes a vehicle may be painted with.
pub const COLOUR_VEHICLE_BASE: i32 = 5;

/// How many distinct vehicle palette codes there are.
pub const NUM_VEHICLE_COLOURS: i32 = 7;

} // verus!
