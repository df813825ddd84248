//! The player character and its status.
//!
//! The crab moves on the cell grid, loses lives, accumulates score, and is
//! carried sideways while it rides a river transport.  Forward progress is
//! tracked as the least y coordinate reached since the last reset, so the
//! per-row bonus is paid out at most once for each newly reached row.

use vstd::prelude::*;
use crate::constants::{
    LIVES,
    MAX_SPEED_OF_OBSTACLES,
    ROW_BONUS,
    SQUARE_SIZE,
    UNITS_PER_PIXEL,
    WIN_H,
    WIN_W,
};
use crate::sprites::{ASSET_TINY_CRAB, CrabSprite, DrawCmd};

verus! {

/// The crab: sprite, play-field bounds, lives, score, carried velocity and
/// forward-progress tracker.
#[derive(Clone, Copy, PartialEq, Eq, Structural, Debug)]
pub struct Crab {
    pub form: CrabSprite,
    pub win_w: i32,
    pub win_h: i32,
    pub lives: i32,
    pub life_lost: bool,
    pub score: i64,
    pub speed: i32,
    pub direction: bool,
    pub progress: i32,
}

impl Crab {
    /// Well-formedness: the sprite is one cell large, the recorded play-field
    /// bounds are the configured ones, the carried speed is a possible
    /// transport speed, and all coordinates are far from the integer limits.
    pub open spec fn wf(self) -> bool {
        &&& self.form.w == SQUARE_SIZE
        &&& self.form.h == SQUARE_SIZE
        &&& self.win_w == WIN_W
        &&& self.win_h == WIN_H
        &&& -1_000_000 <= self.form.x <= 1_000_000
        &&& -1_000_000 <= self.form.y <= 1_000_000
        &&& -1_000_000 <= self.progress <= 1_000_000
        &&& 0 <= self.speed <= MAX_SPEED_OF_OBSTACLES
    }

    /// The grid-step guards, as the executable code tests them.
    pub open spec fn can_move_up(self) -> bool {
        self.form.y - SQUARE_SIZE + UNITS_PER_PIXEL > 0
    }

    pub open spec fn can_move_down(self) -> bool {
        self.form.y + SQUARE_SIZE < self.win_h
    }

    pub open spec fn can_move_right(self) -> bool {
        self.form.x + SQUARE_SIZE - UNITS_PER_PIXEL < self.win_w - SQUARE_SIZE
    }

    pub open spec fn can_move_left(self) -> bool {
        self.form.x - SQUARE_SIZE + UNITS_PER_PIXEL > 0
    }

    /// Whether the next progress update pays the per-row bonus: the crab
    /// stands forward of (above) every position it has reached so far.
    pub open spec fn progress_award(self) -> bool {
        self.form.y < self.progress
    }

    /// A new crab at the middle of a `w` wide, `h` high field, one cell above
    /// its bottom, with the default lives and an empty score.
    pub fn new(w: i32, h: i32) -> (c: Crab)
        requires
            0 <= w <= 1_000_000,
            0 <= h <= 1_000_000,
        ensures
            c.form == (CrabSprite {
                x: (w / 2) as i32,
                y: (h - SQUARE_SIZE) as i32,
                w: SQUARE_SIZE,
                h: SQUARE_SIZE,
            }),
            c.win_w == WIN_W,
            c.win_h == WIN_H,
            c.lives == LIVES,
            !c.life_lost,
            c.score == 0,
            c.speed == 0,
            !c.direction,
            c.progress == h - SQUARE_SIZE,
            c.wf(),
    {
        Crab {
            form: CrabSprite::construct(w / 2, h - SQUARE_SIZE, SQUARE_SIZE, SQUARE_SIZE),
            win_w: WIN_W,
            win_h: WIN_H,
            lives: LIVES,
            life_lost: false,
            score: 0,
            speed: 0,
            direction: false,
            progress: h - SQUARE_SIZE,
        }
    }

    /// One carried step: while riding rightward, falling past the right field
    /// edge costs a life, otherwise the crab advances by the carried speed;
    /// while riding leftward, standing at or past the left edge costs a life,
    /// otherwise the crab advances.
    pub fn update(&mut self)
        requires
            old(self).wf(),
            old(self).lives > i32::MIN,
        ensures
            final(self).wf(),
            *final(self) == crab_update_spec(*old(self)),
            final(self).score == old(self).score,
    {
        if self.direction {
            if self.get_right_edge() >= WIN_W + self.speed {
                self.lose_life();
            } else {
                self.form.x = self.form.x + self.speed;
            }
        } else {
            if self.form.x <= 0 {
                self.lose_life();
            } else {
                self.form.x = self.form.x - self.speed;
            }
        }
    }

    /// Requests the crab image to be painted at the player's position.
    pub fn draw(&self) -> (c: DrawCmd)
        ensures
            c == (DrawCmd::Image { asset: ASSET_TINY_CRAB, x: self.form.x, y: self.form.y }),
    {
        self.form.draw()
    }

    /// The left x coordinate of the player.
    pub fn get_left_edge(&self) -> (r: i32)
        ensures
            r == self.form.x,
    {
        self.form.x
    }

    /// The right x coordinate of the player.
    pub fn get_right_edge(&self) -> (r: i32)
        requires
            i32::MIN <= self.form.x + self.form.w <= i32::MAX,
        ensures
            r == self.form.x + self.form.w,
    {
        self.form.x + self.form.w
    }

    /// The bottom y coordinate of the player.
    pub fn get_bottom_edge(&self) -> (r: i32)
        ensures
            r == self.form.y,
    {
        self.form.y
    }

    /// The top y coordinate of the player.
    pub fn get_top_edge(&self) -> (r: i32)
        requires
            i32::MIN <= self.form.y - self.form.h <= i32::MAX,
        ensures
            r == self.form.y - self.form.h,
    {
        self.form.y - self.form.h
    }

    /// Steps the player one cell up, when that keeps it inside the field,
    /// and updates its forward progress.
    pub fn move_up(&mut self)
        requires
            old(self).wf(),
            old(self).score + ROW_BONUS <= i64::MAX,
        ensures
            final(self).wf(),
            *final(self) == move_up_spec(*old(self)),
            final(self).score >= old(self).score,
    {
        if self.form.y - SQUARE_SIZE + UNITS_PER_PIXEL > 0 {
            self.form.y -= SQUARE_SIZE;
            self.update_progress();
        }
    }

    /// Steps the player one cell down, when that keeps it inside the field.
    pub fn move_down(&mut self)
        requires
            old(self).wf(),
        ensures
            final(self).wf(),
            *final(self) == move_down_spec(*old(self)),
    {
        if self.form.y + SQUARE_SIZE < self.win_h {
            self.form.y += SQUARE_SIZE;
        }
    }

    /// Steps the player one cell right, when that keeps it inside the field.
    pub fn move_right(&mut self)
        requires
            old(self).wf(),
        ensures
            final(self).wf(),
            *final(self) == move_right_spec(*old(self)),
    {
        if self.form.x + SQUARE_SIZE - UNITS_PER_PIXEL < self.win_w - SQUARE_SIZE {
            self.form.x += SQUARE_SIZE;
        }
    }

    /// Steps the player one cell left, when that keeps it inside the field.
    pub fn move_left(&mut self)
        requires
            old(self).wf(),
        ensures
            final(self).wf(),
            *final(self) == move_left_spec(*old(self)),
    {
        if self.form.x - SQUARE_SIZE + UNITS_PER_PIXEL > 0 {
            self.form.x -= SQUARE_SIZE;
        }
    }

    /// Blocks the player from resting on an occupied goal slot by snapping
    /// its y coordinate back to the goal-row boundary.
    pub fn occupied_cubbie_override(&mut self)
        ensures
            *final(self) == (Crab {
                form: CrabSprite { y: crate::constants::END, ..old(self).form },
                ..*old(self)
            }),
    {
        self.form.y = crate::constants::END;
    }

    /// Takes one life: decrements the remaining lives, raises the one-shot
    /// flag, and resets the forward-progress tracker.
    pub fn lose_life(&mut self)
        requires
            old(self).lives > i32::MIN,
            i32::MIN + SQUARE_SIZE <= old(self).win_h,
        ensures
            *final(self) == lose_life_spec(*old(self)),
    {
        self.lives = self.lives - 1;
        self.life_lost = true;
        self.reset_progress();
    }

    /// Whether a life was lost and not yet acknowledged.
    pub fn get_life_lost(&self) -> (r: bool)
        ensures
            r == self.life_lost,
    {
        self.life_lost
    }

    /// Acknowledges the life loss: clears the one-shot flag.
    pub fn set_life_lost(&mut self)
        ensures
            *final(self) == (Crab { life_lost: false, ..*old(self) }),
    {
        self.life_lost = false;
    }

    /// The number of remaining lives.
    pub fn get_lives(&self) -> (r: i32)
        ensures
            r == self.lives,
    {
        self.lives
    }

    /// Resets the lives to the default value.
    pub fn set_lives(&mut self)
        ensures
            *final(self) == (Crab { lives: LIVES, ..*old(self) }),
    {
        self.lives = LIVES;
    }

    /// Puts the player back at the horizontal middle of the field.
    pub fn restart_x(&mut self)
        requires
            old(self).win_w >= 0,
        ensures
            *final(self) == (Crab {
                form: CrabSprite { x: (old(self).win_w / 2) as i32, ..old(self).form },
                ..*old(self)
            }),
    {
        self.form.x = self.win_w / 2;
    }

    /// Puts the player back one cell above the bottom of the field.
    pub fn restart_y(&mut self)
        requires
            i32::MIN + SQUARE_SIZE <= old(self).win_h,
        ensures
            *final(self) == (Crab {
                form: CrabSprite {
                    y: (old(self).win_h - SQUARE_SIZE) as i32,
                    ..old(self).form
                },
                ..*old(self)
            }),
    {
        self.form.y = self.win_h - SQUARE_SIZE;
    }

    /// The current score.
    pub fn get_score(&self) -> (r: i64)
        ensures
            r == self.score,
    {
        self.score
    }

    /// Adds points to the score.
    pub fn add_to_score(&mut self, to_add: i64)
        requires
            i64::MIN <= old(self).score + to_add <= i64::MAX,
        ensures
            *final(self) == (Crab { score: (old(self).score + to_add) as i64, ..*old(self) }),
    {
        self.score += to_add;
    }

    /// Resets the score to zero.
    pub fn reset_score(&mut self)
        ensures
            *final(self) == (Crab { score: 0, ..*old(self) }),
    {
        self.score = 0;
    }

    /// Sets the carried speed, taken from the transport the player rides.
    pub fn set_speed(&mut self, new_speed: i32)
        ensures
            *final(self) == (Crab { speed: new_speed, ..*old(self) }),
    {
        self.speed = new_speed;
    }

    /// Sets the carried direction, taken from the transport the player rides.
    pub fn set_direction(&mut self, new_direction: bool)
        ensures
            *final(self) == (Crab { direction: new_direction, ..*old(self) }),
    {
        self.direction = new_direction;
    }

    /// Pays the per-row bonus the first time the player's y coordinate drops
    /// below every y it has reached since the last reset, and records the
    /// new furthest position.
    pub fn update_progress(&mut self)
        requires
            old(self).score + ROW_BONUS <= i64::MAX,
        ensures
            old(self).progress_award() ==> *final(self) == (Crab {
                score: (old(self).score + ROW_BONUS) as i64,
                progress: old(self).form.y,
                ..*old(self)
            }),
            !old(self).progress_award() ==> *final(self) == *old(self),
    {
        if self.form.y < self.progress {
            self.add_to_score(ROW_BONUS);
            self.progress = self.form.y;
        }
    }

    /// Resets the forward-progress tracker to the starting position, so the
    /// per-row bonus can be earned again after a reposition.
    pub fn reset_progress(&mut self)
        requires
            i32::MIN + SQUARE_SIZE <= old(self).win_h,
        ensures
            *final(self) == (Crab {
                progress: (old(self).win_h - SQUARE_SIZE) as i32,
                ..*old(self)
            }),
    {
        self.progress = self.win_h - SQUARE_SIZE;
    }
}

/// The player after one carried step: riding rightward, falling past the
/// right field edge costs a life and riding on advances by the speed;
/// riding leftward, standing at or past the left edge costs a life and
/// riding on advances.
pub open spec fn crab_update_spec(c: Crab) -> Crab {
    if c.direction {
        if c.form.x + c.form.w >= WIN_W + c.speed {
            lose_life_spec(c)
        } else {
            Crab { form: CrabSprite { x: (c.form.x + c.speed) as i32, ..c.form }, ..c }
        }
    } else {
        if c.form.x <= 0 {
            lose_life_spec(c)
        } else {
            Crab { form: CrabSprite { x: (c.form.x - c.speed) as i32, ..c.form }, ..c }
        }
    }
}

/// The player after an upward step: when the step's guard holds, the y
/// coordinate drops one cell and the forward progress is updated, paying the
/// per-row bonus when a new furthest position is reached.
pub open spec fn move_up_spec(c: Crab) -> Crab {
    if c.can_move_up() {
        let moved = Crab {
            form: CrabSprite { y: (c.form.y - SQUARE_SIZE) as i32, ..c.form },
            ..c
        };
        if moved.progress_award() {
            Crab { score: (moved.score + ROW_BONUS) as i64, progress: moved.form.y, ..moved }
        } else {
            moved
        }
    } else {
        c
    }
}

/// The player after a downward step: one cell down when the guard holds.
pub open spec fn move_down_spec(c: Crab) -> Crab {
    if c.can_move_down() {
        Crab { form: CrabSprite { y: (c.form.y + SQUARE_SIZE) as i32, ..c.form }, ..c }
    } else {
        c
    }
}

/// The player after a rightward step: one cell right when the guard holds.
pub open spec fn move_right_spec(c: Crab) -> Crab {
    if c.can_move_right() {
        Crab { form: CrabSprite { x: (c.form.x + SQUARE_SIZE) as i32, ..c.form }, ..c }
    } else {
        c
    }
}

/// The player after a leftward step: one cell left when the guard holds.
pub open spec fn move_left_spec(c: Crab) -> Crab {
    if c.can_move_left() {
        Crab { form: CrabSprite { x: (c.form.x - SQUARE_SIZE) as i32, ..c.form }, ..c }
    } else {
        c
    }
}

/// The player after losing a life: one fewer life, the one-shot flag raised,
/// and the forward-progress tracker reset to the starting position.
pub open spec fn lose_life_spec(c: Crab) -> Crab {
    Crab {
        lives: (c.lives - 1) as i32,
        life_lost: true,
        progress: (c.win_h - SQUARE_SIZE) as i32,
        ..c
    }
}

/// Movement boundedness: from any grid-aligned position inside the field, a
/// step whose target is still inside the field moves the player by exactly
/// one cell, and a step whose target would leave the field leaves the
/// position unchanged.
pub proof fn lemma_movement_bounded(c: Crab)
    requires
        c.wf(),
        c.form.x % SQUARE_SIZE == 0,
        c.form.y % SQUARE_SIZE == 0,
        0 <= c.form.x <= WIN_W - SQUARE_SIZE,
        0 <= c.form.y <= WIN_H - SQUARE_SIZE,
    ensures
        c.form.x + SQUARE_SIZE <= WIN_W - SQUARE_SIZE ==> move_right_spec(c).form.x == c.form.x
            + SQUARE_SIZE,
        c.form.x + SQUARE_SIZE > WIN_W - SQUARE_SIZE ==> move_right_spec(c) == c,
        c.form.x - SQUARE_SIZE >= 0 ==> move_left_spec(c).form.x == c.form.x - SQUARE_SIZE,
        c.form.x - SQUARE_SIZE < 0 ==> move_left_spec(c) == c,
        c.form.y + SQUARE_SIZE <= WIN_H - SQUARE_SIZE ==> move_down_spec(c).form.y == c.form.y
            + SQUARE_SIZE,
        c.form.y + SQUARE_SIZE > WIN_H - SQUARE_SIZE ==> move_down_spec(c) == c,
        c.form.y - SQUARE_SIZE >= 0 ==> move_up_spec(c).form.y == c.form.y - SQUARE_SIZE,
        c.form.y - SQUARE_SIZE < 0 ==> move_up_spec(c) == c,
{
    let x = c.form.x as int;
    let y = c.form.y as int;
    vstd::arithmetic::div_mod::lemma_fundamental_div_mod(x, SQUARE_SIZE as int);
    vstd::arithmetic::div_mod::lemma_fundamental_div_mod(y, SQUARE_SIZE as int);
    assert(x == SQUARE_SIZE * (x / (SQUARE_SIZE as int)));
    assert(y == SQUARE_SIZE * (y / (SQUARE_SIZE as int)));
}

/// The per-row bonus is paid at most once for each newly reached row: right
/// after an awarding progress update, a second update from the same position
/// awards nothing.
pub proof fn lemma_row_bonus_once(before: Crab, after: Crab)
    requires
        before.progress_award(),
        after.form.y == before.form.y,
        after.progress == before.form.y,
    ensures
        !after.progress_award(),
{
}

} // verus!
