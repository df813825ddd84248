//! The game orchestrator: session state and the per-tick update.
//!
//! Each tick spawns lanes until the configured row counts are reached, scans
//! road lanes for a collision (taking at most one life per tick), applies the
//! goal-row consequences (life loss on a gap, scoring and occupation on a
//! free slot, a position override on an occupied one), advances every
//! obstacle, carries the player riding a river transport, and consumes the
//! game-over and life-lost conditions.
//!
//! Pacing — the short rest after a life loss, a goal or a game over — is a
//! non-blocking pause sub-state: `pause_ticks` is counted down one tick at a
//! time, and input and simulation rest while it runs.
//!
//! While the player stands in the river rows, its carried velocity is that
//! of the first transport under its rectangle, and zero when it stands on
//! none: riding is transport only, never a hazard.

use vstd::prelude::*;
use rand::rngs::StdRng;
use crate::background::{cubbies_cmds, menu_cmds, Cubbies, Menu, River, Road};
use crate::characters::{
    crab_update_spec,
    Crab,
    lose_life_spec,
    move_down_spec,
    move_left_spec,
    move_right_spec,
    move_up_spec,
};
use crate::constants::{
    COLLISIONS_ON,
    COLOUR_RIVER,
    COLOUR_ROAD,
    CUBBIE_BONUS,
    CUBBIE_PAUSE_TICKS,
    END,
    GAME_OVER_PAUSE_TICKS,
    LANE_MODIFIER,
    LIFE_LOST_PAUSE_TICKS,
    LIVES,
    MAX_SPEED_OF_OBSTACLES,
    MID_ROW,
    NUM_LANE,
    NUM_LOG,
    NUM_ROW,
    RIVER_LANE_MODIFIER,
    ROW_BONUS,
    SQUARE_SIZE,
    START,
    WIN_H,
    WIN_W,
};
use crate::river::{transport_after_update, RiverLane, RiverTransport};
use crate::sprites::{
    ASSET_TINY_CRAB,
    CrabSprite,
    DrawCmd,
    FONT_SIZE_BANNER,
    FONT_SIZE_HUD,
    LABEL_GAME_OVER,
    LABEL_LIVES,
    LABEL_SCORE,
    Rectangle,
};
use crate::traffic::Lane;

verus! {

/// One discrete input intent, as mapped from a key press by the front end.
#[derive(Clone, Copy, PartialEq, Eq, Structural, Debug)]
pub enum Key {
    Up,
    Down,
    Left,
    Right,
    Return,
}

/// Axis-aligned overlap between the player's sprite and an obstacle
/// rectangle, exactly as the collision scan tests it (an entity's vertical
/// extent is taken as `[y - h, y]`).
pub open spec fn overlaps(p: CrabSprite, r: Rectangle) -> bool {
    &&& p.x < r.x + r.w
    &&& p.x + p.w > r.x
    &&& p.y > r.y - r.h
    &&& p.y - p.h < r.y
}

/// Whether any vehicle of any road lane overlaps the player.
pub open spec fn any_vehicle_collision(p: CrabSprite, lanes: Seq<Lane>) -> bool {
    exists|i: int, j: int|
        0 <= i < lanes.len() && 0 <= j < lanes[i].vehicles@.len() && overlaps(
            p,
            (#[trigger] lanes[i].vehicles@[j]).form,
        )
}

/// Whether any transport of any river lane overlaps the player.
pub open spec fn any_transport_under(p: CrabSprite, lanes: Seq<RiverLane>) -> bool {
    exists|i: int, j: int|
        0 <= i < lanes.len() && 0 <= j < lanes[i].river_transports@.len() && overlaps(
            p,
            (#[trigger] lanes[i].river_transports@[j]).form,
        )
}

/// Whether the player stands in the goal row.
pub open spec fn in_goal_row(p: CrabSprite) -> bool {
    p.y < END
}

/// Whether the player's x coordinate falls on the bank between goal slots:
/// slots and gaps alternate, two cells wide each, gap first.
pub open spec fn on_goal_gap(p: CrabSprite) -> bool {
    p.x < 0 || (p.x as int) % (SQUARE_SIZE as int * 4) < SQUARE_SIZE * 2
}

/// The goal slot the player's x coordinate falls on.
pub open spec fn goal_slot_index(p: CrabSprite) -> int {
    (p.x as int) / (SQUARE_SIZE as int * 4)
}

/// Whether this tick awards the goal bonus: the player stands in the goal
/// row, aligned to an existing slot that is still free.
pub open spec fn goal_award(p: CrabSprite, c: Cubbies) -> bool {
    &&& in_goal_row(p)
    &&& !on_goal_gap(p)
    &&& goal_slot_index(p) < c.cubbies@.len()
    &&& !c.cubbies@[goal_slot_index(p)].is_occupied
}

/// Whether the player stands in the river rows.
pub open spec fn in_river_zone(p: CrabSprite) -> bool {
    END <= p.y < END + NUM_LOG * SQUARE_SIZE
}

/// Whether the player stands on an existing goal slot that is already
/// occupied: the landing is blocked and the player is pushed back.
pub open spec fn goal_blocked(p: CrabSprite, c: Cubbies) -> bool {
    &&& in_goal_row(p)
    &&& !on_goal_gap(p)
    &&& goal_slot_index(p) < c.cubbies@.len()
    &&& c.cubbies@[goal_slot_index(p)].is_occupied
}

/// Whether some river transport, after its motion step of the tick, lies
/// under the player.
pub open spec fn transport_under_after_step(p: CrabSprite, lanes: Seq<RiverLane>) -> bool {
    exists|i: int, j: int|
        0 <= i < lanes.len() && 0 <= j < lanes[i].river_transports@.len() && overlaps(
            p,
            transport_after_update((#[trigger] lanes[i].river_transports@[j])).form,
        )
}

/// Whether one carried step on a transport costs the player a life: carried
/// past the right field edge, or standing at the left one.
pub open spec fn ride_loses(c: Crab, t: RiverTransport) -> bool {
    ||| t.direction && c.form.x + c.form.w >= WIN_W + t.speed
    ||| !t.direction && c.form.x <= 0
}

/// The outcome of a tick in which the player lost a life: the player is back
/// at the starting position with the one-shot flag consumed, a pause has
/// begun, and the lives are lower — or reset to the default when they ran
/// out.
pub open spec fn life_loss_outcome(pre: MainState, post: MainState) -> bool {
    &&& post.player.form.x == WIN_W / 2
    &&& post.player.form.y == WIN_H - SQUARE_SIZE
    &&& !post.player.life_lost
    &&& post.pause_ticks >= LIFE_LOST_PAUSE_TICKS
    &&& (post.player.lives < pre.player.lives || post.player.lives == LIVES)
}

/// No outside interference with a tick's goal and river outcomes: the road
/// target is reached (no freshly spawned row can appear under the player),
/// no vehicle overlaps the player, no life loss is pending, and at least one
/// life remains.
pub open spec fn undisturbed(s: MainState) -> bool {
    &&& s.lanes@.len() == NUM_LANE
    &&& !any_vehicle_collision(s.player.form, s.lanes@)
    &&& !s.player.life_lost
    &&& s.player.lives >= 1
}

/// A vehicle overlap within a prefix of the lane list is an overlap within
/// the whole list.
pub proof fn lemma_collision_prefix(p: CrabSprite, pre: Seq<Lane>, post: Seq<Lane>)
    requires
        pre.len() <= post.len(),
        forall|i: int| 0 <= i < pre.len() ==> #[trigger] post[i] == pre[i],
    ensures
        any_vehicle_collision(p, pre) ==> any_vehicle_collision(p, post),
{
    if any_vehicle_collision(p, pre) {
        let (i, j) = choose|i: int, j: int|
            0 <= i < pre.len() && 0 <= j < pre[i].vehicles@.len() && overlaps(
                p,
                (#[trigger] pre[i].vehicles@[j]).form,
            );
        assert(overlaps(p, post[i].vehicles@[j].form));
    }
}

/// Scanning the transports after their motion step finds one under the
/// player exactly when one of the stepped originals lies under it.
pub proof fn lemma_transport_under_translate(
    p: CrabSprite,
    pre: Seq<RiverLane>,
    post: Seq<RiverLane>,
)
    requires
        post.len() == pre.len(),
        forall|i: int|
            0 <= i < pre.len() ==> (#[trigger] post[i].river_transports@.len())
                == pre[i].river_transports@.len(),
        forall|i: int, j: int|
            0 <= i < pre.len() && 0 <= j < pre[i].river_transports@.len() ==> (
            #[trigger] post[i].river_transports@[j]) == transport_after_update(
                pre[i].river_transports@[j],
            ),
    ensures
        any_transport_under(p, post) == transport_under_after_step(p, pre),
{
    if any_transport_under(p, post) {
        let (i, j) = choose|i: int, j: int|
            0 <= i < post.len() && 0 <= j < post[i].river_transports@.len() && overlaps(
                p,
                (#[trigger] post[i].river_transports@[j]).form,
            );
        assert(overlaps(p, transport_after_update(pre[i].river_transports@[j]).form));
        assert(transport_under_after_step(p, pre));
    }
    if transport_under_after_step(p, pre) {
        let (i, j) = choose|i: int, j: int|
            0 <= i < pre.len() && 0 <= j < pre[i].river_transports@.len() && overlaps(
                p,
                transport_after_update((#[trigger] pre[i].river_transports@[j])).form,
            );
        assert(overlaps(p, post[i].river_transports@[j].form));
        assert(any_transport_under(p, post));
    }
}

/// The draw requests of one road lane, in vehicle order.
pub open spec fn lane_cmds(l: Lane) -> Seq<DrawCmd> {
    Seq::new(l.vehicles@.len(), |i: int| DrawCmd::Rect(l.vehicles@[i].form))
}

/// The draw requests of the road lanes, in lane order.
pub open spec fn lanes_cmds(ls: Seq<Lane>) -> Seq<DrawCmd>
    decreases ls.len(),
{
    if ls.len() == 0 {
        Seq::empty()
    } else {
        lanes_cmds(ls.drop_last()) + lane_cmds(ls.last())
    }
}

/// The draw requests of one river lane, in transport order.
pub open spec fn river_lane_cmds(l: RiverLane) -> Seq<DrawCmd> {
    Seq::new(l.river_transports@.len(), |i: int| DrawCmd::Rect(l.river_transports@[i].form))
}

/// The draw requests of the river lanes, in lane order.
pub open spec fn river_lanes_cmds(ls: Seq<RiverLane>) -> Seq<DrawCmd>
    decreases ls.len(),
{
    if ls.len() == 0 {
        Seq::empty()
    } else {
        river_lanes_cmds(ls.drop_last()) + river_lane_cmds(ls.last())
    }
}

/// The draw requests of one frame.  In the menu, the menu's layout; in play,
/// the backgrounds, the goal slots, every obstacle, the player, the lives
/// and score displays, and the game-over banner while that pause runs.  The
/// text widths come measured from the rendering front end.
pub open spec fn frame_cmds(
    s: MainState,
    name_w: i32,
    crab_w: i32,
    start_w: i32,
    scores_w: i32,
    score_w: i32,
    banner_w: i32,
) -> Seq<DrawCmd> {
    if s.main_menu {
        menu_cmds(s.selection, name_w, crab_w, start_w, scores_w)
    } else {
        seq![DrawCmd::Rect(s.road.form), DrawCmd::Rect(s.river.form)]
            + cubbies_cmds(s.cubbies.cubbies@) + lanes_cmds(s.lanes@) + river_lanes_cmds(
            s.river_lanes@,
        )
            + seq![
            DrawCmd::Image { asset: ASSET_TINY_CRAB, x: s.player.form.x, y: s.player.form.y },
            DrawCmd::Text {
                label: LABEL_LIVES,
                value: s.player.lives as i64,
                x: 0,
                y: (WIN_H - SQUARE_SIZE) as i32,
                size: FONT_SIZE_HUD,
            },
            DrawCmd::Text {
                label: LABEL_SCORE,
                value: s.player.score,
                x: (WIN_W - score_w) as i32,
                y: (WIN_H - SQUARE_SIZE) as i32,
                size: FONT_SIZE_HUD,
            },
        ] + (if s.game_over {
            seq![
                DrawCmd::Text {
                    label: LABEL_GAME_OVER,
                    value: 0,
                    x: (WIN_W / 2 - banner_w / 2) as i32,
                    y: (WIN_H / 2) as i32,
                    size: FONT_SIZE_BANNER,
                },
            ]
        } else {
            Seq::empty()
        })
    }
}

/// The goal bonus is paid at most once per slot: a tick that awards a slot
/// leaves it occupied, and a position aligned to an occupied slot never
/// satisfies the award condition again, whatever later ticks mark.
pub proof fn lemma_goal_bonus_once(p: CrabSprite, q: CrabSprite, before: Cubbies, after: Cubbies)
    requires
        goal_award(p, before),
        after.cubbies@.len() == before.cubbies@.len(),
        after.cubbies@[goal_slot_index(p)].is_occupied,
        goal_slot_index(q) == goal_slot_index(p),
    ensures
        !goal_award(q, after),
{
}

/// The whole game session: scenery, player, lanes, goal slots, menu state
/// and the pacing sub-state.
pub struct MainState {
    pub road: Road,
    pub river: River,
    pub cubbies: Cubbies,
    pub player: Crab,
    pub lanes: Vec<Lane>,
    pub lane_modifier: i32,
    pub river_lanes: Vec<RiverLane>,
    pub river_lane_modifier: i32,
    pub main_menu: bool,
    pub selection: u32,
    pub pause_ticks: u32,
    pub game_over: bool,
}

/// The session after one input intent: during a pause input is ignored; in
/// the menu the intents move the selection and confirm it; in play they step
/// the player.
pub open spec fn state_after_key(s: MainState, keycode: Key) -> MainState {
    if s.pause_ticks > 0 {
        s
    } else if s.main_menu {
        match keycode {
            Key::Down => MainState { selection: 1, ..s },
            Key::Up => MainState { selection: 0, ..s },
            Key::Return => if s.selection == 0 {
                MainState { main_menu: false, ..s }
            } else {
                s
            },
            _ => s,
        }
    } else {
        match keycode {
            Key::Up => MainState { player: move_up_spec(s.player), ..s },
            Key::Down => MainState { player: move_down_spec(s.player), ..s },
            Key::Right => MainState { player: move_right_spec(s.player), ..s },
            Key::Left => MainState { player: move_left_spec(s.player), ..s },
            _ => s,
        }
    }
}

/// Scans every vehicle of every road lane against the player, in lane order,
/// and takes exactly one life on the first overlap found: however many
/// obstacles overlap at once, one tick costs at most one life.
pub fn check_vehicle_collisions(player: &mut Crab, lanes: &Vec<Lane>)
    requires
        old(player).wf(),
        old(player).lives > i32::MIN,
        forall|i: int| 0 <= i < lanes@.len() ==> (#[trigger] lanes@[i]).wf(),
    ensures
        final(player).wf(),
        any_vehicle_collision(old(player).form, lanes@) ==> *final(player) == lose_life_spec(
            *old(player),
        ),
        !any_vehicle_collision(old(player).form, lanes@) ==> *final(player) == *old(player),
{
    let mut i: usize = 0;
    while i < lanes.len()
        invariant
            *player == *old(player),
            old(player).wf(),
            old(player).lives > i32::MIN,
            i <= lanes@.len(),
            forall|k: int| 0 <= k < lanes@.len() ==> (#[trigger] lanes@[k]).wf(),
            forall|k: int, l: int|
                0 <= k < i && 0 <= l < lanes@[k].vehicles@.len() ==> !overlaps(
                    old(player).form,
                    (#[trigger] lanes@[k].vehicles@[l]).form,
                ),
        decreases lanes@.len() - i,
    {
        let mut j: usize = 0;
        while j < lanes[i].vehicles.len()
            invariant
                *player == *old(player),
                old(player).wf(),
                old(player).lives > i32::MIN,
                i < lanes@.len(),
                j <= lanes@[i as int].vehicles@.len(),
                forall|k: int| 0 <= k < lanes@.len() ==> (#[trigger] lanes@[k]).wf(),
                forall|k: int, l: int|
                    0 <= k < i && 0 <= l < lanes@[k].vehicles@.len() ==> !overlaps(
                        old(player).form,
                        (#[trigger] lanes@[k].vehicles@[l]).form,
                    ),
                forall|l: int|
                    0 <= l < j ==> !overlaps(
                        old(player).form,
                        (#[trigger] lanes@[i as int].vehicles@[l]).form,
                    ),
            decreases lanes@[i as int].vehicles@.len() - j,
        {
            proof {
                assert(lanes@[i as int].wf());
                assert(lanes@[i as int].vehicles@[j as int].wf());
            }
            let p_left: i32 = player.get_left_edge();
            let p_right: i32 = player.get_right_edge();
            let p_bottom: i32 = player.get_bottom_edge();
            let p_top: i32 = player.get_top_edge();
            let v_left: i32 = lanes[i].vehicles[j].get_left_edge();
            let v_right: i32 = lanes[i].vehicles[j].get_right_edge();
            let v_bottom: i32 = lanes[i].vehicles[j].get_bottom_edge();
            let v_top: i32 = lanes[i].vehicles[j].get_top_edge();
            if p_left < v_right && p_right > v_left && p_bottom > v_top && p_top < v_bottom {
                proof {
                    assert(overlaps(old(player).form, lanes@[i as int].vehicles@[j as int].form));
                }
                player.lose_life();
                return;
            }
            j += 1;
        }
        i += 1;
    }
}

/// The first transport under the player, scanning the river lanes in order:
/// its speed and direction when one overlaps the player, zero speed when
/// none does.
pub fn find_carried_velocity(player: &Crab, river_lanes: &Vec<RiverLane>) -> (sd: (i32, bool))
    requires
        player.wf(),
        forall|i: int| 0 <= i < river_lanes@.len() ==> (#[trigger] river_lanes@[i]).wf(),
    ensures
        0 <= sd.0 <= MAX_SPEED_OF_OBSTACLES,
        !any_transport_under(player.form, river_lanes@) ==> sd == (0i32, false),
        any_transport_under(player.form, river_lanes@) ==> exists|i: int, j: int|
            0 <= i < river_lanes@.len() && 0 <= j < river_lanes@[i].river_transports@.len()
                && overlaps(player.form, (#[trigger] river_lanes@[i].river_transports@[j]).form)
                && sd.0 == river_lanes@[i].river_transports@[j].speed && sd.1
                == river_lanes@[i].river_transports@[j].direction,
{
    let mut i: usize = 0;
    while i < river_lanes.len()
        invariant
            player.wf(),
            i <= river_lanes@.len(),
            forall|k: int| 0 <= k < river_lanes@.len() ==> (#[trigger] river_lanes@[k]).wf(),
            forall|k: int, l: int|
                0 <= k < i && 0 <= l < river_lanes@[k].river_transports@.len() ==> !overlaps(
                    player.form,
                    (#[trigger] river_lanes@[k].river_transports@[l]).form,
                ),
        decreases river_lanes@.len() - i,
    {
        let mut j: usize = 0;
        while j < river_lanes[i].river_transports.len()
            invariant
                player.wf(),
                i < river_lanes@.len(),
                j <= river_lanes@[i as int].river_transports@.len(),
                forall|k: int| 0 <= k < river_lanes@.len() ==> (#[trigger] river_lanes@[k]).wf(),
                forall|k: int, l: int|
                    0 <= k < i && 0 <= l < river_lanes@[k].river_transports@.len() ==> !overlaps(
                        player.form,
                        (#[trigger] river_lanes@[k].river_transports@[l]).form,
                    ),
                forall|l: int|
                    0 <= l < j ==> !overlaps(
                        player.form,
                        (#[trigger] river_lanes@[i as int].river_transports@[l]).form,
                    ),
            decreases river_lanes@[i as int].river_transports@.len() - j,
        {
            proof {
                assert(river_lanes@[i as int].wf());
                assert(river_lanes@[i as int].river_transports@[j as int].wf());
            }
            let p_left: i32 = player.get_left_edge();
            let p_right: i32 = player.get_right_edge();
            let p_bottom: i32 = player.get_bottom_edge();
            let p_top: i32 = player.get_top_edge();
            let t_left: i32 = river_lanes[i].river_transports[j].get_left_edge();
            let t_right: i32 = river_lanes[i].river_transports[j].get_right_edge();
            let t_bottom: i32 = river_lanes[i].river_transports[j].get_bottom_edge();
            let t_top: i32 = river_lanes[i].river_transports[j].get_top_edge();
            if p_left < t_right && p_right > t_left && p_bottom > t_top && p_top < t_bottom {
                proof {
                    assert(overlaps(
                        player.form,
                        river_lanes@[i as int].river_transports@[j as int].form,
                    ));
                }
                return (
                    river_lanes[i].river_transports[j].get_speed(),
                    river_lanes[i].river_transports[j].get_direction(),
                );
            }
            j += 1;
        }
        i += 1;
    }
    (0, false)
}

impl MainState {
    /// Well-formedness: player and goal slots well formed, every lane well
    /// formed, lane counts within their targets, and each row-offset cursor
    /// in step with the lanes spawned so far.
    pub open spec fn wf(self) -> bool {
        &&& self.player.wf()
        &&& self.cubbies.wf()
        &&& self.lanes@.len() <= NUM_LANE
        &&& self.lane_modifier == LANE_MODIFIER + self.lanes@.len()
        &&& forall|i: int| 0 <= i < self.lanes@.len() ==> (#[trigger] self.lanes@[i]).wf()
        &&& self.river_lanes@.len() <= NUM_LOG
        &&& self.river_lane_modifier == RIVER_LANE_MODIFIER + self.river_lanes@.len()
        &&& forall|i: int|
            0 <= i < self.river_lanes@.len() ==> (#[trigger] self.river_lanes@[i]).wf()
        &&& self.game_over ==> self.pause_ticks >= 1
    }

    /// A fresh session: menu shown, no lanes yet, all goal slots free, the
    /// player at its starting position with full lives and no score.
    pub fn new() -> (s: MainState)
        ensures
            s.wf(),
            s.lanes@.len() == 0,
            s.river_lanes@.len() == 0,
            s.main_menu,
            s.selection == 0,
            s.pause_ticks == 0,
            !s.game_over,
            s.player.form.x == WIN_W / 2,
            s.player.form.y == START - SQUARE_SIZE,
            s.player.lives == crate::constants::LIVES,
            s.player.score == 0,
            !s.player.life_lost,
            forall|i: int|
                0 <= i < s.cubbies.cubbies@.len() ==> !(#[trigger] s.cubbies.cubbies@[i]).is_occupied,
            s.cubbies.filled_cubbies == crate::constants::CUB_NUM,
            s.lane_modifier == LANE_MODIFIER,
            s.river_lane_modifier == RIVER_LANE_MODIFIER,
            s.road.form == (Rectangle {
                x: 0,
                y: (WIN_H - (MID_ROW - 1) * SQUARE_SIZE) as i32,
                w: WIN_W,
                h: (NUM_LANE * SQUARE_SIZE) as i32,
                colour: COLOUR_ROAD,
            }),
            s.river.form == (Rectangle {
                x: 0,
                y: (WIN_H - (NUM_ROW - 3) * SQUARE_SIZE) as i32,
                w: WIN_W,
                h: (NUM_LOG * SQUARE_SIZE) as i32,
                colour: COLOUR_RIVER,
            }),
    {
        MainState {
            road: Road::new(WIN_W, WIN_H),
            river: River::new(WIN_W, WIN_H),
            cubbies: Cubbies::construct(),
            player: Crab::new(WIN_W, START),
            lanes: Vec::new(),
            lane_modifier: LANE_MODIFIER,
            river_lanes: Vec::new(),
            river_lane_modifier: RIVER_LANE_MODIFIER,
            main_menu: true,
            selection: 0,
            pause_ticks: 0,
            game_over: false,
        }
    }

    /// Advances every road lane by one motion step.
    fn update_all_lanes(lanes: &mut Vec<Lane>)
        requires
            forall|i: int| 0 <= i < old(lanes)@.len() ==> (#[trigger] old(lanes)@[i]).wf(),
        ensures
            final(lanes)@.len() == old(lanes)@.len(),
            forall|i: int| 0 <= i < final(lanes)@.len() ==> (#[trigger] final(lanes)@[i]).wf(),
            forall|i: int|
                0 <= i < final(lanes)@.len() ==> (#[trigger] final(lanes)@[i]).vehicles@.len()
                    == old(lanes)@[i].vehicles@.len(),
            forall|i: int, j: int|
                0 <= i < final(lanes)@.len() && 0 <= j < old(lanes)@[i].vehicles@.len()
                    ==> (#[trigger] final(lanes)@[i].vehicles@[j]) == crate::traffic::vehicle_after_update(
                    old(lanes)@[i].vehicles@[j],
                ),
    {
        let mut i: usize = 0;
        while i < lanes.len()
            invariant
                lanes@.len() == old(lanes)@.len(),
                i <= lanes@.len(),
                forall|k: int| 0 <= k < old(lanes)@.len() ==> (#[trigger] old(lanes)@[k]).wf(),
                forall|k: int| 0 <= k < i ==> (#[trigger] lanes@[k]).wf(),
                forall|k: int|
                    0 <= k < i ==> (#[trigger] lanes@[k]).vehicles@.len()
                        == old(lanes)@[k].vehicles@.len(),
                forall|k: int, j: int|
                    0 <= k < i && 0 <= j < old(lanes)@[k].vehicles@.len() ==> (
                    #[trigger] lanes@[k].vehicles@[j]) == crate::traffic::vehicle_after_update(
                        old(lanes)@[k].vehicles@[j],
                    ),
                forall|k: int| i <= k < lanes@.len() ==> #[trigger] lanes@[k] == old(lanes)@[k],
            decreases lanes@.len() - i,
        {
            lanes[i].update_vehicles_in_lane();
            i += 1;
        }
    }

    /// Advances every river lane by one motion step.
    fn update_all_river_lanes(lanes: &mut Vec<RiverLane>)
        requires
            forall|i: int| 0 <= i < old(lanes)@.len() ==> (#[trigger] old(lanes)@[i]).wf(),
        ensures
            final(lanes)@.len() == old(lanes)@.len(),
            forall|i: int| 0 <= i < final(lanes)@.len() ==> (#[trigger] final(lanes)@[i]).wf(),
            forall|i: int|
                0 <= i < final(lanes)@.len() ==> (
                #[trigger] final(lanes)@[i].river_transports@.len()) == old(
                    lanes,
                )@[i].river_transports@.len(),
            forall|i: int, j: int|
                0 <= i < final(lanes)@.len() && 0 <= j < old(lanes)@[i].river_transports@.len()
                    ==> (#[trigger] final(lanes)@[i].river_transports@[j])
                    == crate::river::transport_after_update(old(lanes)@[i].river_transports@[j]),
    {
        let mut i: usize = 0;
        while i < lanes.len()
            invariant
                lanes@.len() == old(lanes)@.len(),
                i <= lanes@.len(),
                forall|k: int| 0 <= k < old(lanes)@.len() ==> (#[trigger] old(lanes)@[k]).wf(),
                forall|k: int| 0 <= k < i ==> (#[trigger] lanes@[k]).wf(),
                forall|k: int|
                    0 <= k < i ==> (#[trigger] lanes@[k]).river_transports@.len() == old(
                        lanes,
                    )@[k].river_transports@.len(),
                forall|k: int, j: int|
                    0 <= k < i && 0 <= j < old(lanes)@[k].river_transports@.len() ==> (
                    #[trigger] lanes@[k].river_transports@[j])
                        == crate::river::transport_after_update(
                        old(lanes)@[k].river_transports@[j],
                    ),
                forall|k: int| i <= k < lanes@.len() ==> #[trigger] lanes@[k] == old(lanes)@[k],
            decreases lanes@.len() - i,
        {
            lanes[i].update_river_transports_in_river_lane();
            i += 1;
        }
    }

    /// Creates the next road lane while the target row count is not reached,
    /// and moves the row-offset cursor on by one row.
    fn spawn_road_lane(&mut self, rng: &mut StdRng)
        requires
            old(self).wf(),
        ensures
            final(self).wf(),
            old(self).lanes@.len() < NUM_LANE ==> final(self).lanes@.len() == old(self).lanes@.len()
                + 1,
            old(self).lanes@.len() == NUM_LANE ==> final(self).lanes@ == old(self).lanes@,
            forall|i: int|
                0 <= i < old(self).lanes@.len() ==> #[trigger] final(self).lanes@[i] == old(self).lanes@[i],
            final(self).player == old(self).player,
            final(self).cubbies == old(self).cubbies,
            final(self).river_lanes == old(self).river_lanes,
            final(self).river_lane_modifier == old(self).river_lane_modifier,
            final(self).main_menu == old(self).main_menu,
            final(self).selection == old(self).selection,
            final(self).pause_ticks == old(self).pause_ticks,
            final(self).game_over == old(self).game_over,
            final(self).road == old(self).road,
            final(self).river == old(self).river,
    {
        if self.lanes.len() < NUM_LANE as usize {
            let lane = Lane::construct(rng, self.lane_modifier);
            let ghost prev = self.lanes@;
            self.lanes.push(lane);
            self.lane_modifier += 1;
            proof {
                assert forall|i: int| 0 <= i < self.lanes@.len() implies (
                #[trigger] self.lanes@[i]).wf() by {
                    if i < self.lanes@.len() - 1 {
                        assert(self.lanes@[i] == prev[i]);
                    }
                }
            }
        }
    }

    /// Creates the next river lane while the target row count is not
    /// reached, and moves the row-offset cursor on by one row.
    fn spawn_river_lane(&mut self, rng: &mut StdRng)
        requires
            old(self).wf(),
        ensures
            final(self).wf(),
            old(self).river_lanes@.len() < NUM_LOG ==> final(self).river_lanes@.len() == old(self).river_lanes@.len() + 1,
            old(self).river_lanes@.len() == NUM_LOG ==> final(self).river_lanes@ == old(self).river_lanes@,
            forall|i: int|
                0 <= i < old(self).river_lanes@.len() ==> #[trigger] final(self).river_lanes@[i]
                    == old(self).river_lanes@[i],
            final(self).player == old(self).player,
            final(self).cubbies == old(self).cubbies,
            final(self).lanes == old(self).lanes,
            final(self).lane_modifier == old(self).lane_modifier,
            final(self).main_menu == old(self).main_menu,
            final(self).selection == old(self).selection,
            final(self).pause_ticks == old(self).pause_ticks,
            final(self).game_over == old(self).game_over,
            final(self).road == old(self).road,
            final(self).river == old(self).river,
    {
        if self.river_lanes.len() < NUM_LOG as usize {
            let river_lane = RiverLane::construct(rng, self.river_lane_modifier);
            let ghost prev = self.river_lanes@;
            self.river_lanes.push(river_lane);
            self.river_lane_modifier += 1;
            proof {
                assert forall|i: int| 0 <= i < self.river_lanes@.len() implies (
                #[trigger] self.river_lanes@[i]).wf() by {
                    if i < self.river_lanes@.len() - 1 {
                        assert(self.river_lanes@[i] == prev[i]);
                    }
                }
            }
        }
    }

    /// Applies the goal-row consequences: landing on the bank between slots
    /// costs a life; landing on a free slot scores it, marks it occupied and
    /// repositions the player behind a short pause; landing on an occupied
    /// slot pushes the player back to the goal-row boundary.
    fn check_goal_row(&mut self)
        requires
            old(self).wf(),
            old(self).player.score + CUBBIE_BONUS <= i64::MAX,
            old(self).player.lives > i32::MIN,
            old(self).pause_ticks == 0,
        ensures
            final(self).wf(),
            final(self).player.score == old(self).player.score + (
            if goal_award(old(self).player.form, old(self).cubbies) {
                CUBBIE_BONUS as int
            } else {
                0int
            }),
            final(self).cubbies.cubbies@.len() == old(self).cubbies.cubbies@.len(),
            forall|k: int|
                0 <= k < old(self).cubbies.cubbies@.len() && (#[trigger] old(self).cubbies.cubbies@[k]).is_occupied ==> final(self).cubbies.cubbies@[k].is_occupied,
            goal_award(old(self).player.form, old(self).cubbies) ==> {
                &&& final(self).player == (Crab {
                    score: (old(self).player.score + CUBBIE_BONUS) as i64,
                    form: (CrabSprite {
                        x: (WIN_W / 2) as i32,
                        y: (WIN_H - SQUARE_SIZE) as i32,
                        ..old(self).player.form
                    }),
                    ..old(self).player
                })
                &&& final(self).cubbies.cubbies@[goal_slot_index(
                    old(self).player.form,
                )].is_occupied
                &&& forall|k: int|
                    0 <= k < old(self).cubbies.cubbies@.len() && k != goal_slot_index(
                        old(self).player.form,
                    ) ==> final(self).cubbies.cubbies@[k] == old(self).cubbies.cubbies@[k]
                &&& final(self).cubbies.filled_cubbies == old(self).cubbies.filled_cubbies - 1
                &&& final(self).pause_ticks == CUBBIE_PAUSE_TICKS
            },
            !goal_award(old(self).player.form, old(self).cubbies) ==> {
                &&& final(self).cubbies == old(self).cubbies
                &&& final(self).pause_ticks == old(self).pause_ticks
            },
            in_goal_row(old(self).player.form) && on_goal_gap(old(self).player.form)
                ==> final(self).player == lose_life_spec(old(self).player),
            goal_blocked(old(self).player.form, old(self).cubbies) ==> final(self).player == (Crab {
                form: (CrabSprite { y: END, ..old(self).player.form }),
                ..old(self).player
            }),
            !in_goal_row(old(self).player.form) ==> final(self).player == old(self).player,
            in_goal_row(old(self).player.form) && !on_goal_gap(old(self).player.form)
                && goal_slot_index(old(self).player.form) >= old(self).cubbies.cubbies@.len()
                ==> final(self).player == old(self).player,
            old(self).player.lives - 1 <= final(self).player.lives <= old(self).player.lives,
            old(self).player.life_lost ==> final(self).player.life_lost,
            final(self).lanes == old(self).lanes,
            final(self).lane_modifier == old(self).lane_modifier,
            final(self).river_lanes == old(self).river_lanes,
            final(self).river_lane_modifier == old(self).river_lane_modifier,
            final(self).main_menu == old(self).main_menu,
            final(self).selection == old(self).selection,
            final(self).game_over == old(self).game_over,
            final(self).road == old(self).road,
            final(self).river == old(self).river,
            final(self).pause_ticks <= CUBBIE_PAUSE_TICKS,
    {
        let px: i32 = self.player.get_left_edge();
        let pb: i32 = self.player.get_bottom_edge();
        // Landing on the bank between slots costs a life.
        if pb < END && (px < 0 || px % (SQUARE_SIZE * 4) < SQUARE_SIZE * 2) {
            self.player.lose_life();
        }
        // Landing on a slot scores it when free, else blocks the player.
        if pb < END && px >= 0 && px % (SQUARE_SIZE * 4) >= SQUARE_SIZE * 2 {
            let slot: usize = (px / (SQUARE_SIZE * 4)) as usize;
            if slot < self.cubbies.cubbies.len() {
                if self.cubbies.get_is_occupied(slot) == false {
                    self.player.add_to_score(CUBBIE_BONUS);
                    self.cubbies.set_is_occupied(slot);
                    self.pause_ticks += CUBBIE_PAUSE_TICKS;
                    self.player.restart_x();
                    self.player.restart_y();
                } else {
                    self.player.occupied_cubbie_override();
                }
            }
        }
    }

    /// Carries the player while it stands in the river rows: its velocity
    /// becomes that of the first transport under it — zero when it stands on
    /// none — and one carried step is taken, which costs a life at the field
    /// edges.
    fn ride_river(&mut self)
        requires
            old(self).wf(),
            old(self).player.lives > i32::MIN,
        ensures
            final(self).wf(),
            final(self).player.score == old(self).player.score,
            old(self).player.lives - 1 <= final(self).player.lives <= old(self).player.lives,
            old(self).player.life_lost ==> final(self).player.life_lost,
            !in_river_zone(old(self).player.form) ==> final(self).player == old(self).player,
            in_river_zone(old(self).player.form) && !any_transport_under(
                old(self).player.form,
                old(self).river_lanes@,
            ) ==> final(self).player == crab_update_spec(
                Crab { speed: 0, direction: false, ..old(self).player },
            ),
            in_river_zone(old(self).player.form) && any_transport_under(
                old(self).player.form,
                old(self).river_lanes@,
            ) ==> exists|i: int, j: int|
                {
                    &&& 0 <= i < old(self).river_lanes@.len()
                    &&& 0 <= j < old(self).river_lanes@[i].river_transports@.len()
                    &&& overlaps(
                        old(self).player.form,
                        (#[trigger] old(self).river_lanes@[i].river_transports@[j]).form,
                    )
                    &&& final(self).player == crab_update_spec(
                        Crab {
                            speed: old(self).river_lanes@[i].river_transports@[j].speed,
                            direction: old(self).river_lanes@[i].river_transports@[j].direction,
                            ..old(self).player
                        },
                    )
                },
            final(self).cubbies == old(self).cubbies,
            final(self).lanes == old(self).lanes,
            final(self).lane_modifier == old(self).lane_modifier,
            final(self).river_lanes == old(self).river_lanes,
            final(self).river_lane_modifier == old(self).river_lane_modifier,
            final(self).main_menu == old(self).main_menu,
            final(self).selection == old(self).selection,
            final(self).pause_ticks == old(self).pause_ticks,
            final(self).game_over == old(self).game_over,
            final(self).road == old(self).road,
            final(self).river == old(self).river,
    {
        let pb: i32 = self.player.get_bottom_edge();
        if END <= pb && pb < END + NUM_LOG * SQUARE_SIZE {
            let ghost p0 = self.player.form;
            let sd: (i32, bool) = find_carried_velocity(&self.player, &self.river_lanes);
            self.player.set_speed(sd.0);
            self.player.set_direction(sd.1);
            self.player.update();
            proof {
                if any_transport_under(p0, old(self).river_lanes@) {
                    let (i, j) = choose|i: int, j: int|
                        0 <= i < old(self).river_lanes@.len() && 0 <= j < old(self).river_lanes@[i].river_transports@.len()
                            && overlaps(
                            p0,
                            (#[trigger] old(self).river_lanes@[i].river_transports@[j]).form,
                        ) && sd.0 == old(self).river_lanes@[i].river_transports@[j].speed && sd.1
                            == old(self).river_lanes@[i].river_transports@[j].direction;
                    assert(self.player == crab_update_spec(
                        Crab {
                            speed: old(self).river_lanes@[i].river_transports@[j].speed,
                            direction: old(self).river_lanes@[i].river_transports@[j].direction,
                            ..old(self).player
                        },
                    ));
                }
            }
        }
    }

    /// Consumes the game-over and life-lost conditions: exhausted lives are
    /// reset behind a long pause, and a pending life loss repositions the
    /// player behind a short one.
    fn resolve_lives(&mut self)
        requires
            old(self).wf(),
            old(self).pause_ticks <= 1_000,
        ensures
            final(self).wf(),
            !final(self).player.life_lost,
            final(self).player.lives >= 1,
            final(self).player.lives == (if old(self).player.lives <= 0 {
                LIVES as int
            } else {
                old(self).player.lives as int
            }),
            final(self).game_over == (old(self).game_over || old(self).player.lives <= 0),
            final(self).player.score == old(self).player.score,
            final(self).player.speed == old(self).player.speed,
            final(self).player.direction == old(self).player.direction,
            final(self).player.progress == old(self).player.progress,
            old(self).player.life_lost ==> final(self).player.form == (CrabSprite {
                x: (WIN_W / 2) as i32,
                y: (WIN_H - SQUARE_SIZE) as i32,
                ..old(self).player.form
            }),
            !old(self).player.life_lost ==> final(self).player.form == old(self).player.form,
            final(self).pause_ticks == old(self).pause_ticks + (if old(self).player.lives <= 0 {
                GAME_OVER_PAUSE_TICKS as int
            } else {
                0int
            }) + (if old(self).player.life_lost {
                LIFE_LOST_PAUSE_TICKS as int
            } else {
                0int
            }),
            final(self).cubbies == old(self).cubbies,
            final(self).lanes == old(self).lanes,
            final(self).lane_modifier == old(self).lane_modifier,
            final(self).river_lanes == old(self).river_lanes,
            final(self).river_lane_modifier == old(self).river_lane_modifier,
            final(self).main_menu == old(self).main_menu,
            final(self).selection == old(self).selection,
            final(self).road == old(self).road,
            final(self).river == old(self).river,
    {
        // Check for game over: reset the lives behind a long pause.
        if self.player.get_lives() <= 0 {
            self.player.set_lives();
            self.game_over = true;
            self.pause_ticks += GAME_OVER_PAUSE_TICKS;
        }
        // Take a pending life loss: pause and reposition the player.
        if self.player.get_life_lost() {
            self.player.set_life_lost();
            self.pause_ticks += LIFE_LOST_PAUSE_TICKS;
            self.player.restart_x();
            self.player.restart_y();
        }
    }

    /// One simulation tick.  While a pause runs, only the countdown moves.
    /// Otherwise: spawn the next road lane while the target is not reached;
    /// scan for a vehicle collision (at most one life lost); in the goal row,
    /// lose a life on a gap, score and occupy a free slot (then reposition),
    /// or be pushed back from an occupied one; advance all obstacles; carry
    /// the player riding a river transport; reset the lives when they run
    /// out; and consume a pending life loss by repositioning the player.
    #[verifier::rlimit(100)]
    pub fn frame_update(&mut self, rng: &mut StdRng)
        requires
            old(self).wf(),
            old(self).player.score + CUBBIE_BONUS <= i64::MAX,
            old(self).player.lives > i32::MIN + 2,
        ensures
            final(self).wf(),
            final(self).player.score >= old(self).player.score,
            final(self).main_menu == old(self).main_menu,
            final(self).selection == old(self).selection,
            old(self).pause_ticks > 0 ==> *final(self) == (MainState {
                pause_ticks: (old(self).pause_ticks - 1) as u32,
                game_over: old(self).game_over && old(self).pause_ticks > 1,
                ..*old(self)
            }),
            old(self).pause_ticks == 0 ==> {
                &&& !final(self).player.life_lost
                &&& final(self).player.lives >= 1
                &&& final(self).player.score == old(self).player.score + (
                if goal_award(old(self).player.form, old(self).cubbies) {
                    CUBBIE_BONUS as int
                } else {
                    0int
                })
                &&& final(self).cubbies.cubbies@.len() == old(self).cubbies.cubbies@.len()
                &&& forall|k: int|
                    0 <= k < old(self).cubbies.cubbies@.len() && (#[trigger] old(self).cubbies.cubbies@[k]).is_occupied
                        ==> final(self).cubbies.cubbies@[k].is_occupied
                &&& goal_award(old(self).player.form, old(self).cubbies) ==> {
                    &&& final(self).cubbies.cubbies@[goal_slot_index(
                        old(self).player.form,
                    )].is_occupied
                    &&& final(self).player.form.x == WIN_W / 2
                    &&& final(self).player.form.y == WIN_H - SQUARE_SIZE
                }
                &&& old(self).lanes@.len() < NUM_LANE ==> final(self).lanes@.len() == old(self).lanes@.len() + 1
                &&& old(self).lanes@.len() == NUM_LANE ==> final(self).lanes@.len() == NUM_LANE
                &&& old(self).river_lanes@.len() < NUM_LOG ==> final(self).river_lanes@.len()
                    == old(self).river_lanes@.len() + 1
                &&& old(self).river_lanes@.len() == NUM_LOG ==> final(self).river_lanes@.len()
                    == NUM_LOG
                &&& !goal_award(old(self).player.form, old(self).cubbies) ==> final(self).cubbies
                    == old(self).cubbies
                &&& goal_award(old(self).player.form, old(self).cubbies) ==> {
                    &&& forall|k: int|
                        0 <= k < old(self).cubbies.cubbies@.len() && k != goal_slot_index(
                            old(self).player.form,
                        ) ==> final(self).cubbies.cubbies@[k] == old(self).cubbies.cubbies@[k]
                    &&& final(self).cubbies.filled_cubbies == old(self).cubbies.filled_cubbies
                        - 1
                }
                &&& forall|i: int|
                    0 <= i < old(self).lanes@.len() ==> (#[trigger] final(self).lanes@[i]).vehicles@.len()
                        == old(self).lanes@[i].vehicles@.len()
                &&& forall|i: int, j: int|
                    0 <= i < old(self).lanes@.len() && 0 <= j < old(self).lanes@[i].vehicles@.len()
                        ==> (#[trigger] final(self).lanes@[i].vehicles@[j])
                        == crate::traffic::vehicle_after_update(old(self).lanes@[i].vehicles@[j])
                &&& forall|i: int|
                    0 <= i < old(self).river_lanes@.len() ==> (#[trigger] final(self).river_lanes@[i]).river_transports@.len()
                        == old(self).river_lanes@[i].river_transports@.len()
                &&& forall|i: int, j: int|
                    0 <= i < old(self).river_lanes@.len() && 0 <= j < old(self).river_lanes@[i].river_transports@.len()
                        ==> (#[trigger] final(self).river_lanes@[i].river_transports@[j])
                        == transport_after_update(old(self).river_lanes@[i].river_transports@[j])
                &&& any_vehicle_collision(old(self).player.form, old(self).lanes@)
                    ==> life_loss_outcome(*old(self), *final(self))
                &&& any_vehicle_collision(old(self).player.form, old(self).lanes@)
                    && !in_goal_row(old(self).player.form) && !in_river_zone(
                    old(self).player.form,
                ) ==> final(self).player.lives == (if old(self).player.lives <= 1 {
                    LIVES as int
                } else {
                    old(self).player.lives - 1
                })
                &&& in_goal_row(old(self).player.form) && on_goal_gap(old(self).player.form)
                    ==> life_loss_outcome(*old(self), *final(self))
                &&& final(self).game_over ==> final(self).player.lives == LIVES && final(self).pause_ticks
                    >= GAME_OVER_PAUSE_TICKS
                &&& undisturbed(*old(self)) && goal_blocked(
                    old(self).player.form,
                    old(self).cubbies,
                ) ==> {
                    &&& final(self).player.form.y == END
                    &&& final(self).player.lives == old(self).player.lives
                    &&& final(self).pause_ticks == 0
                }
                &&& undisturbed(*old(self)) && !in_goal_row(old(self).player.form)
                    && !in_river_zone(old(self).player.form) ==> {
                    &&& final(self).player == old(self).player
                    &&& final(self).pause_ticks == 0
                    &&& final(self).game_over == old(self).game_over
                }
                &&& undisturbed(*old(self)) && in_river_zone(old(self).player.form) && old(self).river_lanes@.len()
                    == NUM_LOG ==> {
                    &&& !transport_under_after_step(old(self).player.form, old(self).river_lanes@)
                        && old(self).player.form.x > 0 ==> final(self).player == (Crab {
                        speed: 0,
                        direction: false,
                        ..old(self).player
                    })
                    &&& !transport_under_after_step(old(self).player.form, old(self).river_lanes@)
                        && old(self).player.form.x <= 0 ==> life_loss_outcome(
                        *old(self),
                        *final(self),
                    )
                    &&& transport_under_after_step(old(self).player.form, old(self).river_lanes@)
                        ==> exists|i: int, j: int|
                        {
                            &&& 0 <= i < old(self).river_lanes@.len()
                            &&& 0 <= j < old(self).river_lanes@[i].river_transports@.len()
                            &&& overlaps(
                                old(self).player.form,
                                transport_after_update(
                                    (#[trigger] old(self).river_lanes@[i].river_transports@[j]),
                                ).form,
                            )
                            &&& ride_loses(
                                old(self).player,
                                old(self).river_lanes@[i].river_transports@[j],
                            ) ==> life_loss_outcome(*old(self), *final(self))
                            &&& !ride_loses(
                                old(self).player,
                                old(self).river_lanes@[i].river_transports@[j],
                            ) ==> final(self).player == crab_update_spec(
                                Crab {
                                    speed: old(self).river_lanes@[i].river_transports@[j].speed,
                                    direction: old(self).river_lanes@[i].river_transports@[j].direction,
                                    ..old(self).player
                                },
                            )
                        }
                }
            },
    {
        // Pause sub-state: rest while the countdown runs.
        if self.pause_ticks > 0 {
            self.pause_ticks -= 1;
            if self.pause_ticks == 0 {
                self.game_over = false;
            }
            return;
        }
        let ghost s0: MainState = *self;
        self.spawn_road_lane(rng);
        proof {
            lemma_collision_prefix(s0.player.form, s0.lanes@, self.lanes@);
        }
        if COLLISIONS_ON {
            check_vehicle_collisions(&mut self.player, &self.lanes);
        }
        self.check_goal_row();
        MainState::update_all_lanes(&mut self.lanes);
        self.spawn_river_lane(rng);
        MainState::update_all_river_lanes(&mut self.river_lanes);
        let ghost s6: MainState = *self;
        proof {
            if s0.river_lanes@.len() == NUM_LOG {
                lemma_transport_under_translate(
                    s0.player.form,
                    s0.river_lanes@,
                    s6.river_lanes@,
                );
            }
        }
        self.ride_river();
        let ghost s7: MainState = *self;
        self.resolve_lives();
        proof {
            if undisturbed(s0) && in_river_zone(s0.player.form) && s0.river_lanes@.len()
                == NUM_LOG && transport_under_after_step(s0.player.form, s0.river_lanes@) {
                assert(s6.player == s0.player);
                assert(any_transport_under(s6.player.form, s6.river_lanes@));
                let (i, j) = choose|i: int, j: int|
                    {
                        &&& 0 <= i < s6.river_lanes@.len()
                        &&& 0 <= j < s6.river_lanes@[i].river_transports@.len()
                        &&& overlaps(
                            s6.player.form,
                            (#[trigger] s6.river_lanes@[i].river_transports@[j]).form,
                        )
                        &&& s7.player == crab_update_spec(
                            Crab {
                                speed: s6.river_lanes@[i].river_transports@[j].speed,
                                direction: s6.river_lanes@[i].river_transports@[j].direction,
                                ..s6.player
                            },
                        )
                    };
                assert(s6.river_lanes@[i].river_transports@[j] == transport_after_update(
                    s0.river_lanes@[i].river_transports@[j],
                ));
                let ghost t0: RiverTransport = s0.river_lanes@[i].river_transports@[j];
                assert(overlaps(s0.player.form, transport_after_update(t0).form));
                assert(s7.player == crab_update_spec(
                    Crab { speed: t0.speed, direction: t0.direction, ..s0.player },
                ));
                assert({
                    &&& 0 <= i < s0.river_lanes@.len()
                    &&& 0 <= j < s0.river_lanes@[i].river_transports@.len()
                    &&& overlaps(
                        s0.player.form,
                        transport_after_update(
                            (s0.river_lanes@[i].river_transports@[j]),
                        ).form,
                    )
                    &&& ride_loses(s0.player, s0.river_lanes@[i].river_transports@[j])
                        ==> life_loss_outcome(s0, *self)
                    &&& !ride_loses(s0.player, s0.river_lanes@[i].river_transports@[j])
                        ==> self.player == crab_update_spec(
                        Crab { speed: t0.speed, direction: t0.direction, ..s0.player },
                    )
                });
            }
        }
    }

    /// Computes the frame's draw requests; the widths of the menu texts, the
    /// logo, the score display and the game-over banner come measured from
    /// the rendering front end.
    #[verifier::rlimit(100)]
    pub fn draw(
        &self,
        name_w: i32,
        crab_w: i32,
        start_w: i32,
        scores_w: i32,
        score_w: i32,
        banner_w: i32,
    ) -> (cmds: Vec<DrawCmd>)
        requires
            self.wf(),
            0 <= name_w <= 1_000_000,
            0 <= crab_w <= 1_000_000,
            0 <= start_w <= 1_000_000,
            0 <= scores_w <= 1_000_000,
            0 <= score_w <= 1_000_000,
            0 <= banner_w <= 1_000_000,
        ensures
            cmds@ == frame_cmds(*self, name_w, crab_w, start_w, scores_w, score_w, banner_w),
    {
        if self.main_menu {
            let draw_main = Menu {};
            return draw_main.draw(self.selection, name_w, crab_w, start_w, scores_w);
        }
        let mut cmds: Vec<DrawCmd> = Vec::new();
        // Backgrounds and goal slots.
        cmds.push(self.road.draw());
        cmds.push(self.river.draw());
        let mut cubbie_cmds: Vec<DrawCmd> = self.cubbies.draw();
        cmds.append(&mut cubbie_cmds);
        let ghost base: Seq<DrawCmd> = cmds@;
        // Road lanes.
        let mut i: usize = 0;
        while i < self.lanes.len()
            invariant
                self.wf(),
                i <= self.lanes@.len(),
                cmds@ == base + lanes_cmds(self.lanes@.take(i as int)),
            decreases self.lanes@.len() - i,
        {
            let mut one: Vec<DrawCmd> = self.lanes[i].draw_vehicles_in_lane();
            let ghost one_view: Seq<DrawCmd> = one@;
            cmds.append(&mut one);
            proof {
                assert(one_view =~= lane_cmds(self.lanes@[i as int]));
                assert(self.lanes@.take(i as int + 1).drop_last() =~= self.lanes@.take(i as int));
                assert(self.lanes@.take(i as int + 1).last() == self.lanes@[i as int]);
            }
            i += 1;
        }
        proof {
            assert(self.lanes@.take(self.lanes@.len() as int) =~= self.lanes@);
        }
        let ghost base2: Seq<DrawCmd> = cmds@;
        // River lanes.
        let mut j: usize = 0;
        while j < self.river_lanes.len()
            invariant
                self.wf(),
                j <= self.river_lanes@.len(),
                cmds@ == base2 + river_lanes_cmds(self.river_lanes@.take(j as int)),
            decreases self.river_lanes@.len() - j,
        {
            let mut one: Vec<DrawCmd> = self.river_lanes[j].draw_river_transports_in_river_lane();
            let ghost one_view: Seq<DrawCmd> = one@;
            cmds.append(&mut one);
            proof {
                assert(one_view =~= river_lane_cmds(self.river_lanes@[j as int]));
                assert(self.river_lanes@.take(j as int + 1).drop_last() =~= self.river_lanes@.take(
                    j as int,
                ));
                assert(self.river_lanes@.take(j as int + 1).last() == self.river_lanes@[j as int]);
            }
            j += 1;
        }
        proof {
            assert(self.river_lanes@.take(self.river_lanes@.len() as int) =~= self.river_lanes@);
        }
        // The player and the lives and score displays.
        cmds.push(self.player.draw());
        let lives: i32 = self.player.get_lives();
        cmds.push(
            DrawCmd::Text {
                label: LABEL_LIVES,
                value: lives as i64,
                x: 0,
                y: WIN_H - SQUARE_SIZE,
                size: FONT_SIZE_HUD,
            },
        );
        cmds.push(
            DrawCmd::Text {
                label: LABEL_SCORE,
                value: self.player.get_score(),
                x: WIN_W - score_w,
                y: WIN_H - SQUARE_SIZE,
                size: FONT_SIZE_HUD,
            },
        );
        // The game-over banner, while that pause runs.
        if self.game_over {
            cmds.push(
                DrawCmd::Text {
                    label: LABEL_GAME_OVER,
                    value: 0,
                    x: WIN_W / 2 - banner_w / 2,
                    y: WIN_H / 2,
                    size: FONT_SIZE_BANNER,
                },
            );
        }
        proof {
            assert(cmds@ =~= frame_cmds(
                *self,
                name_w,
                crab_w,
                start_w,
                scores_w,
                score_w,
                banner_w,
            ));
        }
        cmds
    }

    /// Handles one input intent: menu navigation while the menu is shown,
    /// grid steps while playing, and nothing while a pause runs.
    pub fn key_down_event(&mut self, keycode: Key)
        requires
            old(self).wf(),
            old(self).player.score + ROW_BONUS <= i64::MAX,
        ensures
            final(self).wf(),
            *final(self) == state_after_key(*old(self), keycode),
            final(self).player.score >= old(self).player.score,
    {
        if self.pause_ticks > 0 {
            return;
        }
        if self.main_menu {
            match keycode {
                Key::Down => {
                    self.selection = 1;
                },
                Key::Up => {
                    self.selection = 0;
                },
                Key::Return => {
                    if self.selection == 0 {
                        self.main_menu = false;
                    }
                },
                _ => {},
            }
        } else {
            match keycode {
                Key::Up => self.player.move_up(),
                Key::Down => self.player.move_down(),
                Key::Right => self.player.move_right(),
                Key::Left => self.player.move_left(),
                _ => {},
            }
        }
    }
}

} // verus!
