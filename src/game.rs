//! The game state and the rules applied to it on every tick.
use vstd::prelude::*;

use crate::chance::draw_between;
use crate::score::ratio_text;
use crate::entity::{
    bumped, drawn_after, in_play, later, step, Boat, Direction, Harpoon, Krill, Player, Point,
    HARPOON_ROW, KRILL_TOP_ROW, LAUNCH_MAX_MS, LAUNCH_MIN_MS, STUCK_MS,
};

verus! {

/// The smallest field on which the score bar and some sea still fit.
pub const MIN_WIDTH: u16 = 20;
pub const MIN_HEIGHT: u16 = 15;

/// How often boats move, in milliseconds.
pub const BOAT_MOVE_MS: u64 = 1_000;

/// How often harpoons fall one row, in milliseconds.
pub const HARPOON_MOVE_MS: u64 = 250;

/// Bounds, in milliseconds, of the wait between two krill.
pub const KRILL_WAIT_MIN_MS: u64 = 500;
pub const KRILL_WAIT_MAX_MS: u64 = 5_000;

/// Bounds, in milliseconds, of the wait between two boats.
pub const BOAT_WAIT_MIN_MS: u64 = 2_500;
pub const BOAT_WAIT_MAX_MS: u64 = 5_000;

/// Why a game could not be set up.
#[derive(Clone, Copy, Debug, PartialEq, Eq, Structural)]
pub enum SetupError {
    /// The field is narrower than [`MIN_WIDTH`] or shorter than [`MIN_HEIGHT`].
    TooSmall { width: u16, height: u16 },
}

/// One thing the player asked for during a tick.
#[derive(Clone, Copy, Debug, PartialEq, Eq, Structural)]
pub enum Command {
    Move(Direction),
    Quit,
}

/// How many krill a field of `size` holds at most.
pub open spec fn krill_cap(size: Point) -> int {
    (size.0 as int * size.1 as int) / 100
}

/// Keeps the items that are not at `p`.
pub open spec fn harpoon_off(p: Point) -> spec_fn(Harpoon) -> bool {
    |h: Harpoon| h.position != p
}

pub open spec fn krill_off(p: Point) -> spec_fn(Krill) -> bool {
    |k: Krill| k.position != p
}

/// Keeps the boats that one more move leaves inside a field `width` wide.
pub open spec fn boat_afloat(width: u16) -> spec_fn(Boat) -> bool {
    |b: Boat| b.position + 2 < width
}

/// Keeps the harpoons that one more row leaves inside a field `height` high.
pub open spec fn harpoon_falling(height: u16) -> spec_fn(Harpoon) -> bool {
    |h: Harpoon| h.position.1 + 1 < height
}

pub open spec fn boat_moved(b: Boat) -> Boat {
    Boat { position: (b.position + 2) as u16, ..b }
}

pub open spec fn harpoon_moved(h: Harpoon) -> Harpoon {
    Harpoon { position: (h.position.0, (h.position.1 + 1) as u16) }
}

/// Boats after a move: those about to leave are dropped, the others sail on.
pub open spec fn sailed(boats: Seq<Boat>, width: u16) -> Seq<Boat> {
    boats.filter(boat_afloat(width)).map_values(|b: Boat| boat_moved(b))
}

/// Harpoons after a move: those about to leave are dropped, the others fall.
pub open spec fn fallen(harpoons: Seq<Harpoon>, height: u16) -> Seq<Harpoon> {
    harpoons.filter(harpoon_falling(height)).map_values(|h: Harpoon| harpoon_moved(h))
}

/// The whale after a harpoon hits it at `now`.
pub open spec fn struck(p: Player, now: u64) -> Player {
    Player {
        harpooned_until: later(now, STUCK_MS),
        harpoon_count: bumped(p.harpoon_count, 1),
        ..p
    }
}

/// The whale after eating `n` krill.
pub open spec fn fed(p: Player, n: usize) -> Player {
    Player { krill_eaten: bumped(p.krill_eaten, n), ..p }
}

/// A boat is due to drop a harpoon at `now`.
pub open spec fn boat_due(now: u64) -> spec_fn(Boat) -> bool {
    |b: Boat| b.next_harpoon_spawn <= now
}

/// The harpoons dropped at `now` by `boats`, one under each boat that is due,
/// in the boats' order.
pub open spec fn launched(boats: Seq<Boat>, now: u64) -> Seq<Harpoon> {
    boats.filter(boat_due(now)).map_values(|b: Boat| Harpoon { position: (b.position, HARPOON_ROW) })
}

/// Where a krill may appear on a field of `size`.
pub open spec fn krill_spot(p: Point, size: Point) -> bool {
    p.0 < size.0 && p.0 % 2 == 0 && KRILL_TOP_ROW <= p.1 < size.1
}

/// How many of `harpoons` sit on `p`.
pub open spec fn hits_at(harpoons: Seq<Harpoon>, p: Point) -> int {
    harpoons.len() - harpoons.filter(harpoon_off(p)).len()
}

/// How many of `krill` sit on `p`.
pub open spec fn krill_at(krill: Seq<Krill>, p: Point) -> int {
    krill.len() - krill.filter(krill_off(p)).len()
}

/// The whale `after` a tick's collisions, for the whale `before` them among
/// `harpoons` and `krill`: one hit if any harpoon sits on it, and one more krill
/// eaten for each krill that does.
pub open spec fn collided(
    before: Player,
    harpoons: Seq<Harpoon>,
    krill: Seq<Krill>,
    after: Player,
    now: u64,
) -> bool {
    let hits = hits_at(harpoons, before.position);
    &&& after.position == before.position
    &&& after.harpoon_count == if hits > 0 {
        bumped(before.harpoon_count, 1)
    } else {
        before.harpoon_count
    }
    &&& after.harpooned_until == if hits > 0 {
        later(now, STUCK_MS)
    } else {
        before.harpooned_until
    }
    &&& after.krill_eaten == bumped(before.krill_eaten, krill_at(krill, before.position) as usize)
}

/// Where the whale ends up from `p` after `commands`, taken in order; a whale
/// that is stuck does not move.
pub open spec fn steered(p: Point, size: Point, commands: Seq<Command>, stuck: bool) -> Point
    decreases commands.len(),
{
    if commands.len() == 0 {
        p
    } else {
        let q = steered(p, size, commands.drop_last(), stuck);
        match commands.last() {
            Command::Move(d) => if stuck { q } else { step(q, size, d) },
            Command::Quit => q,
        }
    }
}

/// A tick in which a harpoon sits on the whale counts one hit and leaves the
/// whale stuck; when exactly one harpoon sits there, the count grows by
/// exactly the number of harpoons removed.
pub proof fn lemma_harpoon_hit(
    before: Player,
    harpoons: Seq<Harpoon>,
    krill: Seq<Krill>,
    after: Player,
    now: u64,
)
    requires
        collided(before, harpoons, krill, after, now),
        hits_at(harpoons, before.position) >= 1,
        before.harpoon_count < usize::MAX,
        now < u64::MAX,
    ensures
        after.harpoon_count == before.harpoon_count + 1,
        after.stuck_at(now),
        hits_at(harpoons, before.position) == 1 ==> after.harpoon_count == before.harpoon_count
            + hits_at(harpoons, before.position),
{
}

/// A tick in which krill sit on the whale counts each of them as eaten, and
/// the krill alone never leave the whale stuck.
pub proof fn lemma_krill_eaten(
    before: Player,
    harpoons: Seq<Harpoon>,
    krill: Seq<Krill>,
    after: Player,
    now: u64,
)
    requires
        collided(before, harpoons, krill, after, now),
        before.krill_eaten + krill_at(krill, before.position) <= usize::MAX,
    ensures
        after.krill_eaten == before.krill_eaten + krill_at(krill, before.position),
        hits_at(harpoons, before.position) == 0 ==> after.harpooned_until
            == before.harpooned_until,
{
    krill.lemma_filter_len(krill_off(before.position));
}

/// The whale after `commands` at `now`: only its position changes.
pub open spec fn steered_player(p: Player, size: Point, commands: Seq<Command>, now: u64) -> Player {
    Player { position: steered(p.position, size, commands, p.stuck_at(now)), ..p }
}

/// A move keeps the whale in the playable area.
pub proof fn lemma_step_in_play(p: Point, size: Point, d: Direction)
    requires
        in_play(p, size),
    ensures
        in_play(step(p, size, d), size),
{
}

/// A stuck whale stays where it is, whatever it is told.
pub proof fn lemma_stuck_stays(p: Point, size: Point, commands: Seq<Command>)
    ensures
        steered(p, size, commands, true) == p,
    decreases commands.len(),
{
    if commands.len() > 0 {
        lemma_stuck_stays(p, size, commands.drop_last());
    }
}

/// Any sequence of commands keeps the whale in the playable area.
pub proof fn lemma_steered_in_play(p: Point, size: Point, commands: Seq<Command>, stuck: bool)
    requires
        in_play(p, size),
    ensures
        in_play(steered(p, size, commands, stuck), size),
    decreases commands.len(),
{
    if commands.len() > 0 {
        lemma_steered_in_play(p, size, commands.drop_last(), stuck);
        if let Command::Move(d) = commands.last() {
            lemma_step_in_play(steered(p, size, commands.drop_last(), stuck), size, d);
        }
    }
}

/// Every boat is inside a field `width` wide.
pub open spec fn boats_inside(boats: Seq<Boat>, width: u16) -> bool {
    forall|i: int| 0 <= i < boats.len() ==> #[trigger] boats[i].position < width
}

/// Every harpoon is inside a field of `size`.
pub open spec fn harpoons_inside(harpoons: Seq<Harpoon>, size: Point) -> bool {
    forall|i: int|
        0 <= i < harpoons.len() ==> #[trigger] harpoons[i].position.0 < size.0
            && harpoons[i].position.1 < size.1
}

/// One more harpoon inside the field keeps them all inside.
proof fn lemma_harpoon_joins(harpoons: Seq<Harpoon>, h: Harpoon, size: Point)
    requires
        harpoons_inside(harpoons, size),
        h.position.0 < size.0,
        h.position.1 < size.1,
    ensures
        harpoons_inside(harpoons.push(h), size),
{
    assert forall|i: int| 0 <= i < harpoons.len() + 1 implies #[trigger] harpoons.push(h)[i].position.0
        < size.0 && harpoons.push(h)[i].position.1 < size.1 by {
        if i < harpoons.len() {
            assert(harpoons.push(h)[i] == harpoons[i]);
        }
    }
}

/// The game `before` a tick's commands, with `commands` applied at `now`.
pub open spec fn steered_game(before: GameState, commands: Seq<Command>, now: u64) -> GameState {
    GameState {
        player: steered_player(before.player, before.size, commands, now),
        alive: before.alive && !commands.contains(Command::Quit),
        ..before
    }
}

/// Boats once the boat movement of a tick at `now` is done.
pub open spec fn boats_moved(before: GameState, now: u64) -> Seq<Boat> {
    if before.next_boat_move <= now {
        sailed(before.boats@, before.size.0)
    } else {
        before.boats@
    }
}

/// Harpoons once the hits and the harpoon movement of a tick at `now` are done.
pub open spec fn harpoons_moved(before: GameState, now: u64) -> Seq<Harpoon> {
    let left = before.harpoons@.filter(harpoon_off(before.player.position));
    if before.next_harpoon_move <= now {
        fallen(left, before.size.1)
    } else {
        left
    }
}

/// The rules of one tick at `now` take the game from `before` to `after`:
/// collisions with the whale, then boat and harpoon movement, a krill and a
/// boat when due, and the harpoons of the boats that are due.
pub open spec fn advanced(before: GameState, after: GameState, now: u64) -> bool {
    let uneaten = before.krill@.filter(krill_off(before.player.position));
    let boats = boats_moved(before, now);
    &&& collided(before.player, before.harpoons@, before.krill@, after.player, now)
    &&& after.alive == before.alive
    &&& after.size == before.size
    &&& after.next_boat_move == if before.next_boat_move <= now {
        later(now, BOAT_MOVE_MS)
    } else {
        before.next_boat_move
    }
    &&& after.next_harpoon_move == if before.next_harpoon_move <= now {
        later(now, HARPOON_MOVE_MS)
    } else {
        before.next_harpoon_move
    }
    &&& if before.next_krill <= now {
        &&& drawn_after(after.next_krill, now, KRILL_WAIT_MIN_MS, KRILL_WAIT_MAX_MS)
        &&& if uneaten.len() < krill_cap(before.size) {
            &&& after.krill@.len() == uneaten.len() + 1
            &&& after.krill@.drop_last() == uneaten
            &&& krill_spot(after.krill@.last().position, before.size)
        } else {
            after.krill@ == uneaten
        }
    } else {
        &&& after.krill@ == uneaten
        &&& after.next_krill == before.next_krill
    }
    &&& if before.next_boat_spawn <= now {
        &&& drawn_after(after.next_boat_spawn, now, BOAT_WAIT_MIN_MS, BOAT_WAIT_MAX_MS)
        &&& after.boats@.len() == boats.len() + 1
        &&& after.boats@.last().position == 0
        &&& drawn_after(after.boats@.last().next_harpoon_spawn, now, LAUNCH_MIN_MS, LAUNCH_MAX_MS)
    } else {
        &&& after.next_boat_spawn == before.next_boat_spawn
        &&& after.boats@.len() == boats.len()
    }
    &&& forall|i: int|
        0 <= i < boats.len() ==> {
            let (b, a) = (boats[i], #[trigger] after.boats@[i]);
            &&& a.position == b.position
            &&& b.next_harpoon_spawn <= now ==> drawn_after(
                a.next_harpoon_spawn,
                now,
                LAUNCH_MIN_MS,
                LAUNCH_MAX_MS,
            )
            &&& b.next_harpoon_spawn > now ==> a.next_harpoon_spawn == b.next_harpoon_spawn
        }
    &&& now <= u64::MAX - LAUNCH_MIN_MS ==> after.harpoons@ == harpoons_moved(before, now)
        + launched(boats, now)
}

/// A boat that is not due adds no harpoon.
proof fn lemma_idle_boat_launches_nothing(boats: Seq<Boat>, b: Boat, now: u64)
    requires
        b.next_harpoon_spawn > now,
    ensures
        launched(boats.push(b), now) == launched(boats, now),
{
    reveal(Seq::filter);
    assert(boats.push(b).drop_last() =~= boats);
}

/// Encapsulates the game state.
pub struct GameState {
    /// Whether the game is actively running.
    pub alive: bool,
    /// Boats which have been spawned.
    pub boats: Vec<Boat>,
    /// Harpoons which have been spawned.
    pub harpoons: Vec<Harpoon>,
    /// Krill which have been spawned.
    pub krill: Vec<Krill>,
    /// The player entity.
    pub player: Player,
    /// The time at which boats will be moved next.
    pub next_boat_move: u64,
    /// The time at which the next boat will be spawned.
    pub next_boat_spawn: u64,
    /// The time at which harpoons will be moved next.
    pub next_harpoon_move: u64,
    /// The time at which the next krill will be spawned.
    pub next_krill: u64,
    /// The size of the field.
    pub size: Point,
}

impl GameState {
    /// The field is large enough, and the whale, every boat and every harpoon
    /// are inside it.
    pub open spec fn wf(&self) -> bool {
        &&& self.size.0 >= MIN_WIDTH
        &&& self.size.1 >= MIN_HEIGHT
        &&& in_play(self.player.position, self.size)
        &&& boats_inside(self.boats@, self.size.0)
        &&& harpoons_inside(self.harpoons@, self.size)
    }

    /// Sets up a game on a field of `size`, with the clock at `now`.
    pub fn new(size: Point, now: u64) -> (r: Result<Self, SetupError>)
        ensures
            (size.0 < MIN_WIDTH || size.1 < MIN_HEIGHT) <==> r is Err,
            r is Err ==> r == Err::<Self, SetupError>(
                SetupError::TooSmall { width: size.0, height: size.1 },
            ),
            r matches Ok(g) ==> {
                &&& g.wf()
                &&& g.alive
                &&& g.size == size
                &&& g.boats@.len() == 0
                &&& g.harpoons@.len() == 0
                &&& g.krill@.len() == 0
                &&& g.player.position == (size.0 / 2, (size.1 / 2 + 3) as u16)
                &&& g.player.harpoon_count == 0
                &&& g.player.krill_eaten == 0
                &&& !g.player.stuck_at(now)
                &&& g.next_boat_move == now
                &&& g.next_boat_spawn == now
                &&& g.next_harpoon_move == now
                &&& g.next_krill == now
            },
    {
        // Check we have space to render the UI and give a bit of play space.
        if size.0 < MIN_WIDTH || size.1 < MIN_HEIGHT {
            return Err(SetupError::TooSmall { width: size.0, height: size.1 });
        }
        Ok(GameState {
            alive: true,
            boats: Vec::new(),
            harpoons: Vec::new(),
            krill: Vec::new(),
            next_boat_move: now,
            next_boat_spawn: now,
            next_harpoon_move: now,
            next_krill: now,
            player: Player::new(&size, now),
            size,
        })
    }
    /// Removes every harpoon that sits on the whale; if any did, the whale is
    /// harpooned at `now`.
    pub fn strike(&mut self, now: u64)
        requires
            old(self).wf(),
        ensures
            final(self).wf(),
            final(self).harpoons@ == old(self).harpoons@.filter(
                harpoon_off(old(self).player.position),
            ),
            final(self).player == (if final(self).harpoons@.len() < old(self).harpoons@.len() {
                struck(old(self).player, now)
            } else {
                old(self).player
            }),
            final(self).boats == old(self).boats,
            final(self).krill == old(self).krill,
            final(self).alive == old(self).alive,
            final(self).size == old(self).size,
            final(self).next_boat_move == old(self).next_boat_move,
            final(self).next_boat_spawn == old(self).next_boat_spawn,
            final(self).next_harpoon_move == old(self).next_harpoon_move,
            final(self).next_krill == old(self).next_krill,
    {
        let pos = self.player.position;
        let ghost all = self.harpoons@;
        let mut kept: Vec<Harpoon> = Vec::new();
        let mut i: usize = 0;
        while i < self.harpoons.len()
            invariant
                self.harpoons@ == all,
                i <= all.len(),
                kept@ == all.subrange(0, i as int).filter(harpoon_off(pos)),
                harpoons_inside(kept@, self.size),
                harpoons_inside(all, self.size),
            decreases all.len() - i,
        {
            let h = self.harpoons[i];
            proof {
                reveal(Seq::filter);
                assert(all.subrange(0, i + 1).drop_last() =~= all.subrange(0, i as int));
            }
            if h.position.0 != pos.0 || h.position.1 != pos.1 {
                proof {
                    lemma_harpoon_joins(kept@, h, self.size);
                }
                kept.push(h);
            }
            i = i + 1;
        }
        proof {
            assert(all.subrange(0, all.len() as int) =~= all);
            all.lemma_filter_len(harpoon_off(pos));
        }
        let hit = kept.len() < self.harpoons.len();
        self.harpoons = kept;
        if hit {
            self.player.harpoon(now);
        }
    }

    /// Removes every krill that sits on the whale and counts them as eaten.
    pub fn feed(&mut self)
        requires
            old(self).wf(),
        ensures
            final(self).wf(),
            final(self).krill@ == old(self).krill@.filter(krill_off(old(self).player.position)),
            final(self).player == fed(
                old(self).player,
                (old(self).krill@.len() - final(self).krill@.len()) as usize,
            ),
            final(self).boats == old(self).boats,
            final(self).harpoons == old(self).harpoons,
            final(self).alive == old(self).alive,
            final(self).size == old(self).size,
            final(self).next_boat_move == old(self).next_boat_move,
            final(self).next_boat_spawn == old(self).next_boat_spawn,
            final(self).next_harpoon_move == old(self).next_harpoon_move,
            final(self).next_krill == old(self).next_krill,
    {
        let pos = self.player.position;
        let ghost all = self.krill@;
        let mut kept: Vec<Krill> = Vec::new();
        let mut i: usize = 0;
        while i < self.krill.len()
            invariant
                self.krill@ == all,
                i <= all.len(),
                kept@ == all.subrange(0, i as int).filter(krill_off(pos)),
            decreases all.len() - i,
        {
            let k = self.krill[i];
            proof {
                reveal(Seq::filter);
                assert(all.subrange(0, i + 1).drop_last() =~= all.subrange(0, i as int));
            }
            if k.position.0 != pos.0 || k.position.1 != pos.1 {
                kept.push(k);
            }
            i = i + 1;
        }
        proof {
            assert(all.subrange(0, all.len() as int) =~= all);
            all.lemma_filter_len(krill_off(pos));
        }
        let eaten = self.krill.len() - kept.len();
        self.krill = kept;
        self.player.krill_eaten = self.player.krill_eaten.saturating_add(eaten);
    }
    /// When boats are due to move at `now`: boats about to leave the field are
    /// dropped first, then the others move two columns right, and the next
    /// move is set [`BOAT_MOVE_MS`] later.
    pub fn move_boats(&mut self, now: u64)
        requires
            old(self).wf(),
        ensures
            final(self).wf(),
            old(self).next_boat_move <= now ==> {
                &&& final(self).boats@ == sailed(old(self).boats@, old(self).size.0)
                &&& final(self).next_boat_move == later(now, BOAT_MOVE_MS)
            },
            old(self).next_boat_move > now ==> {
                &&& final(self).boats == old(self).boats
                &&& final(self).next_boat_move == old(self).next_boat_move
            },
            final(self).player == old(self).player,
            final(self).harpoons == old(self).harpoons,
            final(self).krill == old(self).krill,
            final(self).alive == old(self).alive,
            final(self).size == old(self).size,
            final(self).next_boat_spawn == old(self).next_boat_spawn,
            final(self).next_harpoon_move == old(self).next_harpoon_move,
            final(self).next_krill == old(self).next_krill,
    {
        if self.next_boat_move > now {
            return;
        }
        let width = self.size.0;
        let ghost all = self.boats@;
        let mut kept: Vec<Boat> = Vec::new();
        let mut i: usize = 0;
        while i < self.boats.len()
            invariant
                self.boats@ == all,
                i <= all.len(),
                kept@ == sailed(all.subrange(0, i as int), width),
                boats_inside(kept@, width),
            decreases all.len() - i,
        {
            let b = self.boats[i];
            let ghost before = kept@;
            proof {
                reveal(Seq::filter);
                assert(all.subrange(0, i + 1).drop_last() =~= all.subrange(0, i as int));
            }
            if b.position < width && width - b.position > 2 {
                let mut moved = b;
                moved.migrate();
                kept.push(moved);
                assert(kept@ =~= sailed(all.subrange(0, i + 1), width));
            } else {
                assert(kept@ =~= sailed(all.subrange(0, i + 1), width));
            }
            i = i + 1;
        }
        proof {
            assert(all.subrange(0, all.len() as int) =~= all);
        }
        self.boats = kept;
        self.next_boat_move = now.saturating_add(BOAT_MOVE_MS);
    }

    /// When harpoons are due to fall at `now`: harpoons about to leave the
    /// field are dropped first, then the others fall one row, and the next
    /// fall is set [`HARPOON_MOVE_MS`] later.
    pub fn move_harpoons(&mut self, now: u64)
        requires
            old(self).wf(),
        ensures
            final(self).wf(),
            old(self).next_harpoon_move <= now ==> {
                &&& final(self).harpoons@ == fallen(old(self).harpoons@, old(self).size.1)
                &&& final(self).next_harpoon_move == later(now, HARPOON_MOVE_MS)
            },
            old(self).next_harpoon_move > now ==> {
                &&& final(self).harpoons == old(self).harpoons
                &&& final(self).next_harpoon_move == old(self).next_harpoon_move
            },
            final(self).player == old(self).player,
            final(self).boats == old(self).boats,
            final(self).krill == old(self).krill,
            final(self).alive == old(self).alive,
            final(self).size == old(self).size,
            final(self).next_boat_move == old(self).next_boat_move,
            final(self).next_boat_spawn == old(self).next_boat_spawn,
            final(self).next_krill == old(self).next_krill,
    {
        if self.next_harpoon_move > now {
            return;
        }
        let size = self.size;
        let ghost all = self.harpoons@;
        let mut kept: Vec<Harpoon> = Vec::new();
        let mut i: usize = 0;
        while i < self.harpoons.len()
            invariant
                self.harpoons@ == all,
                i <= all.len(),
                kept@ == fallen(all.subrange(0, i as int), size.1),
                harpoons_inside(all, size),
                harpoons_inside(kept@, size),
            decreases all.len() - i,
        {
            let h = self.harpoons[i];
            proof {
                reveal(Seq::filter);
                assert(all.subrange(0, i + 1).drop_last() =~= all.subrange(0, i as int));
            }
            if h.position.1 < size.1 && size.1 - h.position.1 > 1 {
                let mut moved = h;
                moved.migrate();
                proof {
                    lemma_harpoon_joins(kept@, moved, size);
                }
                kept.push(moved);
                assert(kept@ =~= fallen(all.subrange(0, i + 1), size.1));
            } else {
                assert(kept@ =~= fallen(all.subrange(0, i + 1), size.1));
            }
            i = i + 1;
        }
        proof {
            assert(all.subrange(0, all.len() as int) =~= all);
        }
        self.harpoons = kept;
        self.next_harpoon_move = now.saturating_add(HARPOON_MOVE_MS);
    }
    /// The most krill this field holds.
    pub fn max_krill(&self) -> (r: usize)
        ensures
            r == krill_cap(self.size),
    {
        let w = self.size.0 as usize;
        let h = self.size.1 as usize;
        assert(w * h <= 0xffff * 0xffff) by (nonlinear_arith)
            requires w <= 0xffff, h <= 0xffff;
        w * h / 100
    }

    /// When a krill is due at `now`: `fresh` is added unless the field already
    /// holds [`krill_cap`] of them, and the next one is due `wait` later.
    pub fn spawn_krill_with(&mut self, now: u64, fresh: Krill, wait: u64)
        requires
            old(self).wf(),
        ensures
            final(self).wf(),
            old(self).next_krill <= now ==> {
                &&& final(self).krill@ == (if old(self).krill@.len() < krill_cap(old(self).size) {
                    old(self).krill@.push(fresh)
                } else {
                    old(self).krill@
                })
                &&& final(self).next_krill == later(now, wait)
            },
            old(self).next_krill > now ==> {
                &&& final(self).krill == old(self).krill
                &&& final(self).next_krill == old(self).next_krill
            },
            final(self).player == old(self).player,
            final(self).boats == old(self).boats,
            final(self).harpoons == old(self).harpoons,
            final(self).alive == old(self).alive,
            final(self).size == old(self).size,
            final(self).next_boat_move == old(self).next_boat_move,
            final(self).next_boat_spawn == old(self).next_boat_spawn,
            final(self).next_harpoon_move == old(self).next_harpoon_move,
    {
        if self.next_krill <= now {
            if self.krill.len() < self.max_krill() {
                self.krill.push(fresh);
            }
            self.next_krill = now.saturating_add(wait);
        }
    }

    /// Potentially spawns some more krill for the player to eat: when one is
    /// due, a krill on a random spot is added unless the field is full, and the
    /// next one is set a random wait later.
    pub fn spawn_krill(&mut self, now: u64)
        requires
            old(self).wf(),
        ensures
            final(self).wf(),
            final(self).krill@.len() <= krill_cap(final(self).size)
                || final(self).krill@.len() == old(self).krill@.len(),
            old(self).next_krill <= now ==> {
                &&& drawn_after(final(self).next_krill, now, KRILL_WAIT_MIN_MS, KRILL_WAIT_MAX_MS)
                &&& if old(self).krill@.len() < krill_cap(old(self).size) {
                    &&& final(self).krill@.len() == old(self).krill@.len() + 1
                    &&& final(self).krill@.drop_last() == old(self).krill@
                    &&& krill_spot(final(self).krill@.last().position, old(self).size)
                } else {
                    final(self).krill@ == old(self).krill@
                }
            },
            old(self).next_krill > now ==> {
                &&& final(self).krill == old(self).krill
                &&& final(self).next_krill == old(self).next_krill
            },
            final(self).player == old(self).player,
            final(self).boats == old(self).boats,
            final(self).harpoons == old(self).harpoons,
            final(self).alive == old(self).alive,
            final(self).size == old(self).size,
            final(self).next_boat_move == old(self).next_boat_move,
            final(self).next_boat_spawn == old(self).next_boat_spawn,
            final(self).next_harpoon_move == old(self).next_harpoon_move,
    {
        if self.next_krill <= now {
            let ghost before = self.krill@;
            let fresh = Krill::new(self.size);
            let wait = draw_between(KRILL_WAIT_MIN_MS, KRILL_WAIT_MAX_MS);
            self.spawn_krill_with(now, fresh, wait);
            proof {
                if before.len() < krill_cap(self.size) {
                    assert(self.krill@.drop_last() =~= before);
                }
            }
            assert(self.next_krill == later(now, wait));
        }
    }

    /// When a boat is due at `now`: a boat enters at the left edge, to drop
    /// its first harpoon at `launch_at`, and the next boat is due `wait` later.
    pub fn spawn_boat_with(&mut self, now: u64, launch_at: u64, wait: u64)
        requires
            old(self).wf(),
        ensures
            final(self).wf(),
            old(self).next_boat_spawn <= now ==> {
                &&& final(self).boats@ == old(self).boats@.push(
                    Boat { next_harpoon_spawn: launch_at, position: 0 },
                )
                &&& final(self).next_boat_spawn == later(now, wait)
            },
            old(self).next_boat_spawn > now ==> {
                &&& final(self).boats == old(self).boats
                &&& final(self).next_boat_spawn == old(self).next_boat_spawn
            },
            final(self).player == old(self).player,
            final(self).krill == old(self).krill,
            final(self).harpoons == old(self).harpoons,
            final(self).alive == old(self).alive,
            final(self).size == old(self).size,
            final(self).next_boat_move == old(self).next_boat_move,
            final(self).next_harpoon_move == old(self).next_harpoon_move,
            final(self).next_krill == old(self).next_krill,
    {
        if self.next_boat_spawn <= now {
            self.boats.push(Boat { next_harpoon_spawn: launch_at, position: 0 });
            self.next_boat_spawn = now.saturating_add(wait);
        }
    }

    /// Potentially spawns a new boat: when one is due, it enters at the left
    /// edge with a random first launch, and the next one is set a random wait
    /// later.
    pub fn spawn_boat(&mut self, now: u64)
        requires
            old(self).wf(),
        ensures
            final(self).wf(),
            old(self).next_boat_spawn <= now ==> {
                &&& final(self).boats@.len() == old(self).boats@.len() + 1
                &&& final(self).boats@.drop_last() == old(self).boats@
                &&& final(self).boats@.last().position == 0
                &&& drawn_after(
                    final(self).boats@.last().next_harpoon_spawn,
                    now,
                    LAUNCH_MIN_MS,
                    LAUNCH_MAX_MS,
                )
                &&& drawn_after(final(self).next_boat_spawn, now, BOAT_WAIT_MIN_MS, BOAT_WAIT_MAX_MS)
            },
            old(self).next_boat_spawn > now ==> {
                &&& final(self).boats == old(self).boats
                &&& final(self).next_boat_spawn == old(self).next_boat_spawn
            },
            final(self).player == old(self).player,
            final(self).krill == old(self).krill,
            final(self).harpoons == old(self).harpoons,
            final(self).alive == old(self).alive,
            final(self).size == old(self).size,
            final(self).next_boat_move == old(self).next_boat_move,
            final(self).next_harpoon_move == old(self).next_harpoon_move,
            final(self).next_krill == old(self).next_krill,
    {
        if self.next_boat_spawn <= now {
            let boat = Boat::new(now);
            let wait = draw_between(BOAT_WAIT_MIN_MS, BOAT_WAIT_MAX_MS);
            self.spawn_boat_with(now, boat.next_harpoon_spawn, wait);
            assert(self.boats@.drop_last() =~= old(self).boats@);
            assert(self.next_boat_spawn == later(now, wait));
        }
    }

    /// Every boat that is due at `now` drops a harpoon just under itself and
    /// schedules its next one a random wait later.
    pub fn launch(&mut self, now: u64)
        requires
            old(self).wf(),
        ensures
            final(self).wf(),
            final(self).harpoons@ == old(self).harpoons@ + launched(old(self).boats@, now),
            final(self).boats@.len() == old(self).boats@.len(),
            forall|i: int|
                0 <= i < old(self).boats@.len() ==> {
                    let (b, a) = (old(self).boats@[i], #[trigger] final(self).boats@[i]);
                    &&& a.position == b.position
                    &&& b.next_harpoon_spawn <= now ==> drawn_after(
                        a.next_harpoon_spawn,
                        now,
                        LAUNCH_MIN_MS,
                        LAUNCH_MAX_MS,
                    )
                    &&& b.next_harpoon_spawn > now ==> a.next_harpoon_spawn
                        == b.next_harpoon_spawn
                },
            final(self).player == old(self).player,
            final(self).krill == old(self).krill,
            final(self).alive == old(self).alive,
            final(self).size == old(self).size,
            final(self).next_boat_move == old(self).next_boat_move,
            final(self).next_boat_spawn == old(self).next_boat_spawn,
            final(self).next_harpoon_move == old(self).next_harpoon_move,
            final(self).next_krill == old(self).next_krill,
    {
        let ghost all = self.boats@;
        let mut dropped: Vec<Harpoon> = Vec::new();
        let mut sailing: Vec<Boat> = Vec::new();
        let mut i: usize = 0;
        while i < self.boats.len()
            invariant
                self.boats@ == all,
                i <= all.len(),
                dropped@ == launched(all.subrange(0, i as int), now),
                sailing@.len() == i,
                forall|j: int|
                    0 <= j < i ==> {
                        let (b, a) = (all[j], #[trigger] sailing@[j]);
                        &&& a.position == b.position
                        &&& b.next_harpoon_spawn <= now ==> drawn_after(
                            a.next_harpoon_spawn,
                            now,
                            LAUNCH_MIN_MS,
                            LAUNCH_MAX_MS,
                        )
                        &&& b.next_harpoon_spawn > now ==> a.next_harpoon_spawn
                            == b.next_harpoon_spawn
                    },
                self.size.1 >= MIN_HEIGHT,
                boats_inside(all, self.size.0),
                harpoons_inside(dropped@, self.size),
            decreases all.len() - i,
        {
            let mut boat = self.boats[i];
            proof {
                reveal(Seq::filter);
                assert(all.subrange(0, i + 1).drop_last() =~= all.subrange(0, i as int));
            }
            if boat.harpoon_time(now) {
                let h = Harpoon::new(&boat);
                proof {
                    lemma_harpoon_joins(dropped@, h, self.size);
                }
                dropped.push(h);
            }
            assert(dropped@ =~= launched(all.subrange(0, i + 1), now));
            sailing.push(boat);
            i = i + 1;
        }
        proof {
            assert(all.subrange(0, all.len() as int) =~= all);
        }
        let ghost start = self.harpoons@;
        self.harpoons.append(&mut dropped);
        assert(harpoons_inside(self.harpoons@, self.size)) by {
            assert forall|j: int| 0 <= j < self.harpoons@.len() implies
                #[trigger] self.harpoons@[j].position.0 < self.size.0
                && self.harpoons@[j].position.1 < self.size.1 by {
                if j >= start.len() {
                    assert(self.harpoons@[j] == launched(all, now)[j - start.len()]);
                }
            }
        }
        self.boats = sailing;
    }
    /// Applies the player's commands of one tick, in order: each move is
    /// ignored while the whale is stuck, and a quit ends the game.
    pub fn steer(&mut self, commands: &Vec<Command>, now: u64)
        requires
            old(self).wf(),
        ensures
            final(self).wf(),
            final(self).player == steered_player(old(self).player, old(self).size, commands@, now),
            final(self).alive == (old(self).alive && !commands@.contains(Command::Quit)),
            final(self).boats == old(self).boats,
            final(self).harpoons == old(self).harpoons,
            final(self).krill == old(self).krill,
            final(self).size == old(self).size,
            final(self).next_boat_move == old(self).next_boat_move,
            final(self).next_boat_spawn == old(self).next_boat_spawn,
            final(self).next_harpoon_move == old(self).next_harpoon_move,
            final(self).next_krill == old(self).next_krill,
    {
        let ghost start = *self;
        let mut i: usize = 0;
        while i < commands.len()
            invariant
                i <= commands@.len(),
                self.wf(),
                self.player == steered_player(start.player, start.size, commands@.subrange(0, i as int), now),
                self.alive == (start.alive && !commands@.subrange(0, i as int).contains(Command::Quit)),
                self.boats == start.boats,
                self.harpoons == start.harpoons,
                self.krill == start.krill,
                self.size == start.size,
                self.next_boat_move == start.next_boat_move,
                self.next_boat_spawn == start.next_boat_spawn,
                self.next_harpoon_move == start.next_harpoon_move,
                self.next_krill == start.next_krill,
            decreases commands@.len() - i,
        {
            let ghost seen = commands@.subrange(0, i as int);
            let ghost next = commands@.subrange(0, i + 1);
            assert(next.drop_last() =~= seen);
            assert(next.last() == commands@[i as int]);
            match commands[i] {
                Command::Move(d) => {
                    let size = self.size;
                    proof {
                        lemma_step_in_play(self.player.position, size, d);
                    }
                    self.player.migrate(&size, d, now);
                },
                Command::Quit => {
                    self.alive = false;
                },
            }
            assert(next.contains(Command::Quit) == (seen.contains(Command::Quit) || commands@[i as int] == Command::Quit)) by {
                if commands@[i as int] == Command::Quit {
                    assert(next[i as int] == Command::Quit);
                }
                if seen.contains(Command::Quit) {
                    let j = choose|j: int| 0 <= j < seen.len() && seen[j] == Command::Quit;
                    assert(next[j] == Command::Quit);
                }
                if next.contains(Command::Quit) {
                    let j = choose|j: int| 0 <= j < next.len() && next[j] == Command::Quit;
                    if j < i {
                        assert(seen[j] == Command::Quit);
                    }
                }
            }
            i = i + 1;
        }
        assert(commands@.subrange(0, commands@.len() as int) =~= commands@);
    }

    /// Handles game behaviours on tick, in this order: harpoons hit the whale,
    /// the whale eats krill, boats move, harpoons fall, a krill may appear, a
    /// boat may appear, and boats drop harpoons.
    pub fn think(&mut self, now: u64)
        requires
            old(self).wf(),
        ensures
            final(self).wf(),
            advanced(*old(self), *final(self), now),
            final(self).krill@.len() <= krill_cap(final(self).size)
                || final(self).krill@.len() <= old(self).krill@.len(),
    {
        let ghost start = *self;
        self.strike(now);
        self.feed();
        self.move_boats(now);
        assert(self.boats@ == boats_moved(start, now));
        self.move_harpoons(now);
        assert(self.harpoons@ == harpoons_moved(start, now));
        self.spawn_krill(now);
        self.spawn_boat(now);
        let ghost spawned = self.boats@;
        self.launch(now);
        proof {
            start.krill@.lemma_filter_len(krill_off(start.player.position));
            let boats = boats_moved(start, now);
            if start.next_boat_spawn <= now {
                assert(spawned.drop_last() == boats);
                assert forall|i: int| 0 <= i < boats.len() implies spawned[i] == boats[i] by {
                    assert(spawned.drop_last()[i] == spawned[i]);
                }
                if now <= u64::MAX - LAUNCH_MIN_MS {
                    assert(spawned =~= boats.push(spawned.last()));
                    lemma_idle_boat_launches_nothing(boats, spawned.last(), now);
                }
                assert(self.boats@.last() == self.boats@[spawned.len() - 1]);
            } else {
                assert(spawned == boats);
            }
        }
    }

    /// Called every time the game needs to update: applies the tick's commands,
    /// then the game's rules, and tells whether the game goes on. Once the game
    /// has ended, a tick changes nothing.
    pub fn tick(&mut self, now: u64, commands: &Vec<Command>) -> (r: bool)
        requires
            old(self).wf(),
        ensures
            final(self).wf(),
            r == final(self).alive,
            !old(self).alive ==> *final(self) == *old(self),
            old(self).alive ==> advanced(steered_game(*old(self), commands@, now), *final(self), now),
            old(self).alive ==> final(self).krill@.len() <= krill_cap(final(self).size)
                || final(self).krill@.len() <= old(self).krill@.len(),
            final(self).size == old(self).size,
    {
        if !self.alive {
            return false;
        }
        self.steer(commands, now);
        assert(*self == steered_game(*old(self), commands@, now));
        self.think(now);
        self.alive
    }

    /// Ends the game, returning what the final report shows: the krill eaten,
    /// the times harpooned, and the ratio of the two as text.
    pub fn end(&mut self) -> (r: (usize, usize, String))
        ensures
            !final(self).alive,
            r.0 == old(self).player.krill_eaten,
            r.1 == old(self).player.harpoon_count,
            r.2@ == ratio_text(old(self).player.krill_eaten as nat, old(self).player.harpoon_count as nat),
            final(self).player == old(self).player,
            final(self).size == old(self).size,
    {
        self.alive = false;
        (self.player.krill_eaten, self.player.harpoon_count, self.player.ratio())
    }
}

} // verus!
