//! Unit tests for the player character: grid movement, lives, and restart.

use crabber::characters::Crab;
use crabber::constants::{LIVES, SQUARE_SIZE, WIN_H, WIN_W};

#[test]
fn move_left_succeeds_with_space() {
    let mut crab = Crab::new(WIN_W, WIN_H);

    let starting_x = crab.form.x;
    crab.move_left();

    assert_ne!(crab.form.x, starting_x);
    assert_eq!(crab.form.x, starting_x - SQUARE_SIZE);
}

#[test]
fn move_left_fails_without_space() {
    let mut crab = Crab::new(0, WIN_H);

    let starting_x = crab.form.x;
    crab.move_left();

    assert_eq!(crab.form.x, starting_x);
}

#[test]
fn move_right_succeeds_with_space() {
    let mut crab = Crab::new(WIN_W, WIN_H);

    let starting_x = crab.form.x;
    crab.move_right();

    assert_ne!(crab.form.x, starting_x);
    assert_eq!(crab.form.x, starting_x + SQUARE_SIZE);
}

#[test]
fn move_right_fails_without_space() {
    let mut crab = Crab::new(WIN_W * 2, WIN_H);
    crab.form.x = crab.form.x * 2;

    let starting_x = crab.form.x;
    crab.move_right();

    assert_eq!(crab.form.x, starting_x);
}

#[test]
fn move_down_succeeds_with_space() {
    let mut crab = Crab::new(WIN_W, WIN_H - SQUARE_SIZE);
    let starting_y = crab.form.y;

    crab.move_down();

    assert_ne!(crab.form.y, starting_y);
    assert_eq!(crab.form.y, starting_y + SQUARE_SIZE);
}

#[test]
fn move_down_fails_without_space() {
    let mut crab = Crab::new(WIN_W, WIN_H);

    let starting_y = crab.form.y;
    crab.move_down();

    assert_eq!(crab.form.y, starting_y);
}

#[test]
fn move_up_succeeds_with_space() {
    let mut crab = Crab::new(WIN_W, WIN_H);

    let starting_y = crab.form.y;
    crab.move_up();

    assert_ne!(crab.form.y, starting_y);
    assert_eq!(crab.form.y, starting_y - SQUARE_SIZE);
}

#[test]
fn move_up_fails_without_space() {
    let mut crab = Crab::new(WIN_W, 0);

    let starting_y = crab.form.y;
    crab.move_up();

    assert_eq!(crab.form.y, starting_y);
}

#[test]
fn test_lose_life() {
    let mut crab = Crab::new(WIN_W, WIN_H);
    let updated_life = LIVES - 1;
    let life_lost = true;

    crab.lose_life();

    assert_eq!(crab.get_lives(), updated_life);
    assert_eq!(crab.get_life_lost(), life_lost);
}

#[test]
fn test_get_life_lost() {
    let mut crab = Crab::new(WIN_W, WIN_H);
    let life_lost_before = false;
    let life_lost_after = true;

    assert_eq!(crab.get_life_lost(), life_lost_before);
    crab.lose_life();
    assert_eq!(crab.get_life_lost(), life_lost_after);
}

#[test]
fn test_set_life_lost() {
    let mut crab = Crab::new(WIN_W, WIN_H);
    let life_lost = false;

    assert_eq!(crab.get_life_lost(), life_lost);
    crab.set_life_lost();
    assert_eq!(crab.get_life_lost(), life_lost);
}

#[test]
fn test_get_lives() {
    let crab = Crab::new(WIN_W, WIN_H);
    let total_lives = LIVES;

    assert_eq!(crab.get_lives(), total_lives);
}

#[test]
fn test_restart_x() {
    let mut crab = Crab::new(WIN_W, WIN_H);
    let starting_x = crab.form.x;

    assert_eq!(crab.form.x, starting_x);
    crab.move_left();
    assert_ne!(crab.form.x, starting_x);
    crab.restart_x();
    assert_eq!(crab.form.x, starting_x);
}

#[test]
fn test_restart_y() {
    let mut crab = Crab::new(WIN_W, WIN_H);
    let starting_y = crab.form.y;

    assert_eq!(crab.form.y, starting_y);
    crab.move_up();
    assert_ne!(crab.form.y, starting_y);
    crab.restart_y();
    assert_eq!(crab.form.y, starting_y);
}
