//! The static scenery: road and river backgrounds, the goal slots
//! ("cubbies"), and the main menu's layout.
//!
//! A cubbie can be claimed at most once: occupying it never reverts within a
//! session, which `lemma_goal_slot_exclusive` records.

use vstd::prelude::*;
use crate::constants::{
    COLOUR_RIVER,
    COLOUR_ROAD,
    CUB_NUM,
    END,
    MID_ROW,
    NUM_LANE,
    NUM_LOG,
    NUM_ROW,
    SQUARE_SIZE,
    UNITS_PER_PIXEL,
    WIN_H,
    WIN_W,
};
use crate::sprites::{
    ASSET_BIG_CRAB,
    ASSET_TINY_CRAB,
    DrawCmd,
    FONT_SIZE_OPTION,
    FONT_SIZE_TITLE,
    LABEL_CRABBER,
    LABEL_SCORES,
    LABEL_START,
    Rectangle,
};

verus! {

/// The road background: one rectangle spanning the traffic rows.
pub struct Road {
    pub form: Rectangle,
}

/// The river background: one rectangle spanning the river rows.
pub struct River {
    pub form: Rectangle,
}

/// One goal slot: a fixed rectangle, occupiable at most once.
#[derive(Clone, Copy, PartialEq, Eq, Structural, Debug)]
pub struct Cubbie {
    pub form: Rectangle,
    pub is_occupied: bool,
}

/// The fixed ordered row of goal slots, with the count of still-free slots.
pub struct Cubbies {
    pub cubbies: Vec<Cubbie>,
    pub filled_cubbies: u32,
}

/// The main menu; its state (the selection) lives with the orchestrator.
pub struct Menu {}

impl Road {
    /// The road background of a `w` wide, `h` high field.
    pub fn new(w: i32, h: i32) -> (r: Road)
        requires
            0 <= w <= 1_000_000,
            0 <= h <= 1_000_000,
        ensures
            r.form == (Rectangle {
                x: 0,
                y: (h - (MID_ROW - 1) * SQUARE_SIZE) as i32,
                w,
                h: (NUM_LANE * SQUARE_SIZE) as i32,
                colour: COLOUR_ROAD,
            }),
    {
        Road {
            form: Rectangle::construct(
                0,
                h - (MID_ROW - 1) * SQUARE_SIZE,
                w,
                NUM_LANE * SQUARE_SIZE,
                COLOUR_ROAD,
            ),
        }
    }

    /// Requests the road background to be painted.
    pub fn draw(&self) -> (c: DrawCmd)
        ensures
            c == DrawCmd::Rect(self.form),
    {
        self.form.draw()
    }
}

impl River {
    /// The river background of a `w` wide, `h` high field.
    pub fn new(w: i32, h: i32) -> (r: River)
        requires
            0 <= w <= 1_000_000,
            0 <= h <= 1_000_000,
        ensures
            r.form == (Rectangle {
                x: 0,
                y: (h - (NUM_ROW - 3) * SQUARE_SIZE) as i32,
                w,
                h: (NUM_LOG * SQUARE_SIZE) as i32,
                colour: COLOUR_RIVER,
            }),
    {
        River {
            form: Rectangle::construct(
                0,
                h - (NUM_ROW - 3) * SQUARE_SIZE,
                w,
                NUM_LOG * SQUARE_SIZE,
                COLOUR_RIVER,
            ),
        }
    }

    /// Requests the river background to be painted.
    pub fn draw(&self) -> (c: DrawCmd)
        ensures
            c == DrawCmd::Rect(self.form),
    {
        self.form.draw()
    }
}

/// The fixed rectangle of goal slot `i`.
pub open spec fn cubbie_form(i: int) -> Rectangle {
    Rectangle {
        x: (i * (4 * SQUARE_SIZE) + 2 * SQUARE_SIZE) as i32,
        y: (END - 2 * SQUARE_SIZE) as i32,
        w: (2 * SQUARE_SIZE) as i32,
        h: (2 * SQUARE_SIZE) as i32,
        colour: COLOUR_RIVER,
    }
}

impl Cubbie {
    /// A free goal slot, two cells square, above the goal-row boundary.
    pub fn new(x: i32) -> (c: Cubbie)
        requires
            0 <= x <= 1_000_000,
        ensures
            c.form == (Rectangle {
                x,
                y: (END - 2 * SQUARE_SIZE) as i32,
                w: (2 * SQUARE_SIZE) as i32,
                h: (2 * SQUARE_SIZE) as i32,
                colour: COLOUR_RIVER,
            }),
            !c.is_occupied,
    {
        Cubbie {
            form: Rectangle::construct(
                x,
                END - 2 * SQUARE_SIZE,
                2 * SQUARE_SIZE,
                2 * SQUARE_SIZE,
                COLOUR_RIVER,
            ),
            is_occupied: false,
        }
    }

    /// Requests this goal slot's rectangle to be painted.
    pub fn draw(&self) -> (c: DrawCmd)
        ensures
            c == DrawCmd::Rect(self.form),
    {
        self.form.draw()
    }
}

/// How many of the slots in `s` are occupied.
pub open spec fn count_occupied(s: Seq<Cubbie>) -> int
    decreases s.len(),
{
    if s.len() == 0 {
        0
    } else {
        count_occupied(s.drop_last()) + if s.last().is_occupied {
            1int
        } else {
            0int
        }
    }
}

/// The occupied count lies between zero and the slot count.
pub proof fn lemma_count_occupied_bounds(s: Seq<Cubbie>)
    ensures
        0 <= count_occupied(s) <= s.len(),
    decreases s.len(),
{
    if s.len() > 0 {
        lemma_count_occupied_bounds(s.drop_last());
    }
}

/// A row with a free slot has fewer occupied slots than slots.
pub proof fn lemma_count_occupied_missing(s: Seq<Cubbie>, i: int)
    requires
        0 <= i < s.len(),
        !s[i].is_occupied,
    ensures
        count_occupied(s) <= s.len() - 1,
    decreases s.len(),
{
    if i == s.len() - 1 {
        lemma_count_occupied_bounds(s.drop_last());
    } else {
        lemma_count_occupied_missing(s.drop_last(), i);
    }
}

/// Marking one free slot occupied raises the occupied count by one.
pub proof fn lemma_count_occupied_update(s: Seq<Cubbie>, i: int)
    requires
        0 <= i < s.len(),
        !s[i].is_occupied,
    ensures
        count_occupied(s.update(i, Cubbie { is_occupied: true, ..s[i] })) == count_occupied(s) + 1,
    decreases s.len(),
{
    let t = s.update(i, Cubbie { is_occupied: true, ..s[i] });
    if i == s.len() - 1 {
        assert(t.drop_last() =~= s.drop_last());
    } else {
        assert(t.drop_last() =~= s.drop_last().update(
            i,
            Cubbie { is_occupied: true, ..s.drop_last()[i] },
        ));
        lemma_count_occupied_update(s.drop_last(), i);
        assert(t.last() == s.last());
    }
}

/// A row of all-free slots has an occupied count of zero.
pub proof fn lemma_count_occupied_all_free(s: Seq<Cubbie>)
    requires
        forall|i: int| 0 <= i < s.len() ==> !(#[trigger] s[i]).is_occupied,
    ensures
        count_occupied(s) == 0,
    decreases s.len(),
{
    if s.len() > 0 {
        lemma_count_occupied_all_free(s.drop_last());
    }
}

/// The draw requests of one goal slot: its rectangle, and an overlay crab
/// image when it is occupied.
pub open spec fn cubbie_cmds(c: Cubbie) -> Seq<DrawCmd> {
    if c.is_occupied {
        seq![
            DrawCmd::Rect(c.form),
            DrawCmd::Image {
                asset: ASSET_TINY_CRAB,
                x: (c.form.x + SQUARE_SIZE / 2) as i32,
                y: (c.form.y + SQUARE_SIZE / 2) as i32,
            },
        ]
    } else {
        seq![DrawCmd::Rect(c.form)]
    }
}

/// The draw requests of a row of goal slots, in slot order.
pub open spec fn cubbies_cmds(s: Seq<Cubbie>) -> Seq<DrawCmd>
    decreases s.len(),
{
    if s.len() == 0 {
        Seq::empty()
    } else {
        cubbies_cmds(s.drop_last()) + cubbie_cmds(s.last())
    }
}

impl Cubbies {
    /// Well-formedness: exactly the configured number of slots, each at its
    /// fixed position, and the free-slot counter in step with the row.
    pub open spec fn wf(self) -> bool {
        &&& self.cubbies@.len() == CUB_NUM
        &&& self.filled_cubbies == CUB_NUM - count_occupied(self.cubbies@)
        &&& forall|i: int|
            0 <= i < self.cubbies@.len() ==> (#[trigger] self.cubbies@[i]).form == cubbie_form(i)
    }

    /// The full row of goal slots, all free.
    pub fn construct() -> (c: Cubbies)
        ensures
            c.wf(),
            forall|i: int| 0 <= i < c.cubbies@.len() ==> !(#[trigger] c.cubbies@[i]).is_occupied,
            c.filled_cubbies == CUB_NUM,
    {
        let cubbies: Vec<Cubbie> = Cubbies::create_cubbies();
        proof {
            lemma_count_occupied_all_free(cubbies@);
        }
        Cubbies { cubbies, filled_cubbies: CUB_NUM as u32 }
    }

    /// Builds the row: slot `i` sits two cells in, then four cells apart.
    fn create_cubbies() -> (cubbies: Vec<Cubbie>)
        ensures
            cubbies@.len() == CUB_NUM,
            forall|i: int|
                0 <= i < cubbies@.len() ==> (#[trigger] cubbies@[i]).form == cubbie_form(i),
            forall|i: int| 0 <= i < cubbies@.len() ==> !(#[trigger] cubbies@[i]).is_occupied,
    {
        let mut cubbies: Vec<Cubbie> = Vec::new();
        let n: usize = CUB_NUM as usize;
        while cubbies.len() < n
            invariant
                n == CUB_NUM,
                cubbies@.len() <= n,
                forall|i: int|
                    0 <= i < cubbies@.len() ==> (#[trigger] cubbies@[i]).form == cubbie_form(i),
                forall|i: int| 0 <= i < cubbies@.len() ==> !(#[trigger] cubbies@[i]).is_occupied,
            decreases n - cubbies.len(),
        {
            let i: i32 = cubbies.len() as i32;
            let x: i32 = i * (4 * SQUARE_SIZE) + 2 * SQUARE_SIZE;
            cubbies.push(Cubbie::new(x));
        }
        cubbies
    }

    /// Requests every goal slot to be painted, with the overlay image on the
    /// occupied ones.
    pub fn draw(&self) -> (cmds: Vec<DrawCmd>)
        requires
            self.wf(),
        ensures
            cmds@ == cubbies_cmds(self.cubbies@),
    {
        let mut cmds: Vec<DrawCmd> = Vec::new();
        let mut j: usize = 0;
        while j < self.cubbies.len()
            invariant
                self.wf(),
                j <= self.cubbies@.len(),
                cmds@ == cubbies_cmds(self.cubbies@.take(j as int)),
            decreases self.cubbies@.len() - j,
        {
            let cubbie: &Cubbie = &self.cubbies[j];
            cmds.push(cubbie.draw());
            if cubbie.is_occupied {
                cmds.push(
                    DrawCmd::Image {
                        asset: ASSET_TINY_CRAB,
                        x: cubbie.form.x + SQUARE_SIZE / 2,
                        y: cubbie.form.y + SQUARE_SIZE / 2,
                    },
                );
            }
            proof {
                assert(self.cubbies@.take(j as int + 1).drop_last() =~= self.cubbies@.take(
                    j as int,
                ));
                assert(self.cubbies@.take(j as int + 1).last() == self.cubbies@[j as int]);
            }
            j += 1;
        }
        proof {
            assert(self.cubbies@.take(self.cubbies@.len() as int) =~= self.cubbies@);
        }
        cmds
    }

    /// Whether goal slot `i` is occupied.
    pub fn get_is_occupied(&self, i: usize) -> (r: bool)
        requires
            i < self.cubbies@.len(),
        ensures
            r == self.cubbies@[i as int].is_occupied,
    {
        self.cubbies[i].is_occupied
    }

    /// Marks free goal slot `i` occupied and counts one fewer free slot.
    pub fn set_is_occupied(&mut self, i: usize)
        requires
            old(self).wf(),
            i < old(self).cubbies@.len(),
            !old(self).cubbies@[i as int].is_occupied,
        ensures
            final(self).wf(),
            final(self).cubbies@.len() == old(self).cubbies@.len(),
            final(self).cubbies@[i as int].is_occupied,
            final(self).cubbies@[i as int].form == old(self).cubbies@[i as int].form,
            forall|k: int|
                0 <= k < old(self).cubbies@.len() && k != i ==> final(self).cubbies@[k] == old(
                    self,
                ).cubbies@[k],
            final(self).filled_cubbies == old(self).filled_cubbies - 1,
    {
        proof {
            lemma_count_occupied_missing(self.cubbies@, i as int);
        }
        self.cubbies[i].is_occupied = true;
        self.filled_cubbies -= 1;
        proof {
            assert(self.cubbies@ =~= old(self).cubbies@.update(
                i as int,
                Cubbie { is_occupied: true, ..old(self).cubbies@[i as int] },
            ));
            lemma_count_occupied_update(old(self).cubbies@, i as int);
        }
    }

    /// How many goal slots are still free.
    pub fn get_filled_cubbies(&self) -> (r: u32)
        ensures
            r == self.filled_cubbies,
    {
        self.filled_cubbies
    }
}

/// Goal-slot exclusivity: whatever single further slot is marked, a slot
/// occupied before stays occupied after, so occupancy never reverts; and a
/// marking step demands a free slot, so an occupied slot is never awarded a
/// second time.
pub proof fn lemma_goal_slot_exclusive(before: Cubbies, after: Cubbies, j: int)
    requires
        0 <= j < before.cubbies@.len(),
        !before.cubbies@[j].is_occupied,
        after.cubbies@.len() == before.cubbies@.len(),
        after.cubbies@[j].is_occupied,
        forall|k: int|
            0 <= k < before.cubbies@.len() && k != j ==> after.cubbies@[k] == before.cubbies@[k],
    ensures
        forall|k: int|
            0 <= k < after.cubbies@.len() && (#[trigger] before.cubbies@[k]).is_occupied
                ==> after.cubbies@[k].is_occupied,
{
}

/// The draw requests of the main menu: title, logo, the two options, and the
/// selector image beside the selected option.  The text widths are measured
/// by the rendering front end and passed in, in play-field units.
pub open spec fn menu_cmds(
    selection: u32,
    name_w: i32,
    crab_w: i32,
    start_w: i32,
    scores_w: i32,
) -> Seq<DrawCmd> {
    let vertical: int = WIN_H / 2 + SQUARE_SIZE;
    let vertical2: int = WIN_H / 2 + SQUARE_SIZE * 5;
    let vertical3: int = vertical2 + SQUARE_SIZE;
    let horizontal2: int = WIN_W / 2 - start_w / 2;
    let horizontal3: int = WIN_W / 2 - scores_w / 2;
    let base: Seq<DrawCmd> = seq![
        DrawCmd::Text {
            label: LABEL_CRABBER,
            value: 0,
            x: (WIN_W / 2 - name_w / 2) as i32,
            y: vertical as i32,
            size: FONT_SIZE_TITLE,
        },
        DrawCmd::Image {
            asset: ASSET_BIG_CRAB,
            x: (WIN_W / 2 - crab_w / 2) as i32,
            y: (vertical - SQUARE_SIZE * 8) as i32,
        },
        DrawCmd::Text {
            label: LABEL_START,
            value: 0,
            x: horizontal2 as i32,
            y: vertical2 as i32,
            size: FONT_SIZE_OPTION,
        },
        DrawCmd::Text {
            label: LABEL_SCORES,
            value: 0,
            x: horizontal3 as i32,
            y: vertical3 as i32,
            size: FONT_SIZE_OPTION,
        },
    ];
    if selection == 0 {
        base.push(
            DrawCmd::Image {
                asset: ASSET_TINY_CRAB,
                x: (horizontal2 - 30 * UNITS_PER_PIXEL) as i32,
                y: (vertical2 + 10 * UNITS_PER_PIXEL) as i32,
            },
        )
    } else if selection == 1 {
        base.push(
            DrawCmd::Image {
                asset: ASSET_TINY_CRAB,
                x: (horizontal3 - 30 * UNITS_PER_PIXEL) as i32,
                y: (vertical3 + 10 * UNITS_PER_PIXEL) as i32,
            },
        )
    } else {
        base
    }
}

impl Menu {
    /// Computes the menu's draw requests; the widths of the title text, the
    /// logo image and the two option texts come measured from the front end.
    pub fn draw(&self, selection: u32, name_w: i32, crab_w: i32, start_w: i32, scores_w: i32) -> (cmds: Vec<DrawCmd>)
        requires
            0 <= name_w <= 1_000_000,
            0 <= crab_w <= 1_000_000,
            0 <= start_w <= 1_000_000,
            0 <= scores_w <= 1_000_000,
        ensures
            cmds@ == menu_cmds(selection, name_w, crab_w, start_w, scores_w),
    {
        let mut cmds: Vec<DrawCmd> = Vec::new();
        let vertical: i32 = WIN_H / 2 + SQUARE_SIZE;
        cmds.push(
            DrawCmd::Text {
                label: LABEL_CRABBER,
                value: 0,
                x: WIN_W / 2 - name_w / 2,
                y: vertical,
                size: FONT_SIZE_TITLE,
            },
        );
        cmds.push(
            DrawCmd::Image {
                asset: ASSET_BIG_CRAB,
                x: WIN_W / 2 - crab_w / 2,
                y: vertical - SQUARE_SIZE * 8,
            },
        );
        let horizontal2: i32 = WIN_W / 2 - start_w / 2;
        let vertical2: i32 = WIN_H / 2 + SQUARE_SIZE * 5;
        cmds.push(
            DrawCmd::Text {
                label: LABEL_START,
                value: 0,
                x: horizontal2,
                y: vertical2,
                size: FONT_SIZE_OPTION,
            },
        );
        let horizontal3: i32 = WIN_W / 2 - scores_w / 2;
        let vertical3: i32 = vertical2 + SQUARE_SIZE;
        cmds.push(
            DrawCmd::Text {
                label: LABEL_SCORES,
                value: 0,
                x: horizontal3,
                y: vertical3,
                size: FONT_SIZE_OPTION,
            },
        );
        if selection == 0 {
            cmds.push(
                DrawCmd::Image {
                    asset: ASSET_TINY_CRAB,
                    x: horizontal2 - 30 * UNITS_PER_PIXEL,
                    y: vertical2 + 10 * UNITS_PER_PIXEL,
                },
            );
        } else if selection == 1 {
            cmds.push(
                DrawCmd::Image {
                    asset: ASSET_TINY_CRAB,
                    x: horizontal3 - 30 * UNITS_PER_PIXEL,
                    y: vertical3 + 10 * UNITS_PER_PIXEL,
                },
            );
        }
        proof {
            assert(cmds@ =~= menu_cmds(selection, name_w, crab_w, start_w, scores_w));
        }
        cmds
    }
}

} // verus!
