//! The whale, the krill it eats, the boats that hunt it and their harpoons.
use vstd::prelude::*;

use crate::chance::draw_between;
use crate::score::{ratio_string, ratio_text};

verus! {

/// A cell of the field: column, then row.
pub type Point = (u16, u16);

/// The emoji used to represent pesky fishing boats.
pub const BOAT: &'static str = "\u{26F5}";

/// The emoji used to represent spiky harpoons.
pub const HARPOON: &'static str = "\u{21D3}";

/// The emoji used to represent delicious krill.
pub const KRILL: &'static str = "\u{1F990}";

/// The emoji used to represent bad ratios.
pub const RATIO_BAD: &'static str = "\u{1F4C9}";

/// The emoji used to represent good ratios.
pub const RATIO_GOOD: &'static str = "\u{1F4C8}";

/// The emoji used to represent the player.
pub const WHALE_ALIVE: &'static str = "\u{1F40B}";

/// The emoji used to represent the harpooned player.
pub const WHALE_DEAD: &'static str = "\u{1F969}";

/// Rows above this one hold the score bar and the waves; the whale stays below.
pub const TOP_ROW: u16 = 6;

/// The row on which harpoons are dropped, just under the boats.
pub const HARPOON_ROW: u16 = 6;

/// The highest row on which krill may appear.
pub const KRILL_TOP_ROW: u16 = 7;

/// How long a harpooned whale stays stuck, in milliseconds.
pub const STUCK_MS: u64 = 2_000;

/// Bounds, in milliseconds, of the wait between two harpoons of one boat.
pub const LAUNCH_MIN_MS: u64 = 5_000;
pub const LAUNCH_MAX_MS: u64 = 10_000;

/// `now + ms` on the millisecond clock, held at the clock's last instant.
pub open spec fn later(now: u64, ms: u64) -> u64 {
    if now + ms > u64::MAX {
        u64::MAX
    } else {
        (now + ms) as u64
    }
}

/// `n + k`, held at the largest `usize`.
pub open spec fn bumped(n: usize, k: usize) -> usize {
    if n + k > usize::MAX {
        usize::MAX
    } else {
        (n + k) as usize
    }
}

/// Whether a deadline drawn at `now` lies in `[now + lo, now + hi)`.
pub open spec fn drawn_after(t: u64, now: u64, lo: u64, hi: u64) -> bool {
    exists|d: u64| lo <= d < hi && t == later(now, d)
}

/// The cells the whale may occupy on a field of `size`.
pub open spec fn in_play(p: Point, size: Point) -> bool {
    p.0 < size.0 && TOP_ROW <= p.1 && p.1 < size.1
}

/// Directions that a player can move in.
#[derive(Clone, Copy, Debug, PartialEq, Eq, Structural)]
pub enum Direction {
    Up,
    Down,
    Left,
    Right,
}

/// Where one move in `d` takes the whale from `p`; a move that would leave the
/// playable area is ignored. Columns go by two, as the whale is two cells wide.
pub open spec fn step(p: Point, size: Point, d: Direction) -> Point {
    match d {
        Direction::Up => if p.1 > TOP_ROW { (p.0, (p.1 - 1) as u16) } else { p },
        Direction::Down => if p.1 + 1 < size.1 { (p.0, (p.1 + 1) as u16) } else { p },
        Direction::Left => if p.0 >= 2 { ((p.0 - 2) as u16, p.1) } else { p },
        Direction::Right => if p.0 + 2 < size.0 { ((p.0 + 2) as u16, p.1) } else { p },
    }
}

/// Represents the whale player.
#[derive(Clone, Copy, Debug)]
pub struct Player {
    /// The time the player is harpooned until.
    pub harpooned_until: u64,
    /// The number of times the player has been harpooned.
    pub harpoon_count: usize,
    /// The number of krill the player has eaten.
    pub krill_eaten: usize,
    /// The location of the player.
    pub position: Point,
}

impl Player {
    /// Whether the whale is still stuck on a harpoon at `now`.
    pub open spec fn stuck_at(&self, now: u64) -> bool {
        self.harpooned_until > now
    }

    /// Creates a new player entity, centred and a little below the middle.
    pub fn new(dimensions: &Point, now: u64) -> (r: Self)
        ensures
            r.position == (dimensions.0 / 2, (dimensions.1 / 2 + 3) as u16),
            r.harpoon_count == 0,
            r.krill_eaten == 0,
            !r.stuck_at(now),
    {
        Player {
            krill_eaten: 0,
            harpoon_count: 0,
            harpooned_until: now,
            position: (dimensions.0 / 2, dimensions.1 / 2 + 3),
        }
    }

    /// Whether the whale is stuck on a harpoon at `now`.
    pub fn is_disabled(&self, now: u64) -> (r: bool)
        ensures
            r == self.stuck_at(now),
    {
        self.harpooned_until > now
    }

    /// Retrieves the current emoji used to render the player.
    pub fn emoji(&self, now: u64) -> (r: &'static str)
        ensures
            r == (if self.stuck_at(now) { WHALE_DEAD } else { WHALE_ALIVE }),
    {
        if self.harpooned_until > now {
            WHALE_DEAD
        } else {
            WHALE_ALIVE
        }
    }

    /// Marks the player as harpooned: stuck from `now` for [`STUCK_MS`], and one
    /// more hit on the count. A hit while already stuck restarts the wait.
    pub fn harpoon(&mut self, now: u64)
        ensures
            final(self).harpooned_until == later(now, STUCK_MS),
            final(self).harpoon_count == bumped(old(self).harpoon_count, 1),
            final(self).krill_eaten == old(self).krill_eaten,
            final(self).position == old(self).position,
    {
        self.harpooned_until = now.saturating_add(STUCK_MS);
        self.harpoon_count = self.harpoon_count.saturating_add(1);
    }

    /// Moves the player entity in the specified direction, unless it is stuck.
    pub fn migrate(&mut self, size: &Point, direction: Direction, now: u64)
        ensures
            final(self).position == (if old(self).stuck_at(now) {
                old(self).position
            } else {
                step(old(self).position, *size, direction)
            }),
            final(self).harpooned_until == old(self).harpooned_until,
            final(self).harpoon_count == old(self).harpoon_count,
            final(self).krill_eaten == old(self).krill_eaten,
    {
        if self.harpooned_until > now {
            return;  // Can't move whilst harpooned.
        }
        match direction {
            Direction::Up => {
                if self.position.1 > TOP_ROW {
                    self.position.1 = self.position.1 - 1;
                }
            },
            Direction::Down => {
                if self.position.1 < size.1 && self.position.1 + 1 < size.1 {
                    self.position.1 = self.position.1 + 1;
                }
            },
            Direction::Left => {
                if self.position.0 >= 2 {
                    self.position.0 = self.position.0 - 2;
                }
            },
            Direction::Right => {
                if self.position.0 < size.0 && size.0 - self.position.0 > 2 {
                    self.position.0 = self.position.0 + 2;
                }
            },
        }
    }

    /// Retrieves the location of the player.
    pub fn position(&self) -> (r: &Point)
        ensures
            *r == self.position,
    {
        &self.position
    }

    /// The player's krill/death ratio (hehehe), as text.
    pub fn ratio(&self) -> (r: String)
        ensures
            r@ == ratio_text(self.krill_eaten as nat, self.harpoon_count as nat),
    {
        ratio_string(self.krill_eaten, self.harpoon_count)
    }

    /// Retrieves the current emoji used to render the ratio graph.
    pub fn ratio_emoji(&self) -> (r: &'static str)
        ensures
            r == (if self.harpoon_count <= self.krill_eaten { RATIO_GOOD } else { RATIO_BAD }),
    {
        if self.harpoon_count <= self.krill_eaten {
            RATIO_GOOD
        } else {
            RATIO_BAD
        }
    }
}

/// Represents a juicy krill waiting to be eaten.
#[derive(Clone, Copy, Debug)]
pub struct Krill {
    /// The location of the krill.
    pub position: Point,
}

impl Krill {
    /// Creates a new krill entity on a random even column and on a random row
    /// from [`KRILL_TOP_ROW`] down.
    pub fn new(size: Point) -> (r: Self)
        requires
            size.0 >= 2,
            size.1 > KRILL_TOP_ROW,
        ensures
            r.position.0 < size.0,
            r.position.0 % 2 == 0,
            KRILL_TOP_ROW <= r.position.1 < size.1,
    {
        let pos_x = draw_between(0, (size.0 / 2) as u64) as u16 * 2;
        let pos_y = draw_between(KRILL_TOP_ROW as u64, size.1 as u64) as u16;
        Krill { position: (pos_x, pos_y) }
    }

    /// Creates a krill entity at a given place.
    pub fn at(position: Point) -> (r: Self)
        ensures
            r.position == position,
    {
        Krill { position }
    }

    /// Retrieves the location of the krill.
    pub fn position(&self) -> (r: &Point)
        ensures
            *r == self.position,
    {
        &self.position
    }
}

/// Represents a pesky fishing boat.
#[derive(Clone, Copy, Debug)]
pub struct Boat {
    /// The time at which the next harpoon will be spawned.
    pub next_harpoon_spawn: u64,
    /// The column of the boat.
    pub position: u16,
}

impl Boat {
    /// A fresh launch deadline, a random wait after `now`.
    fn next_harpoon_spawn(now: u64) -> (r: u64)
        ensures
            drawn_after(r, now, LAUNCH_MIN_MS, LAUNCH_MAX_MS),
    {
        let wait = draw_between(LAUNCH_MIN_MS, LAUNCH_MAX_MS);
        let r = now.saturating_add(wait);
        assert(r == later(now, wait));
        r
    }

    /// Creates a new boat entity at the left edge.
    pub fn new(now: u64) -> (r: Self)
        ensures
            r.position == 0,
            drawn_after(r.next_harpoon_spawn, now, LAUNCH_MIN_MS, LAUNCH_MAX_MS),
    {
        Boat { next_harpoon_spawn: Self::next_harpoon_spawn(now), position: 0 }
    }

    /// Checks if it is harpoon time yet; if so, the next launch is scheduled.
    pub fn harpoon_time(&mut self, now: u64) -> (r: bool)
        ensures
            r == (old(self).next_harpoon_spawn <= now),
            final(self).position == old(self).position,
            r ==> drawn_after(final(self).next_harpoon_spawn, now, LAUNCH_MIN_MS, LAUNCH_MAX_MS),
            !r ==> final(self).next_harpoon_spawn == old(self).next_harpoon_spawn,
    {
        if self.next_harpoon_spawn <= now {
            self.next_harpoon_spawn = Self::next_harpoon_spawn(now);
            true
        } else {
            false
        }
    }

    /// Migrates the boat two columns to the right.
    pub fn migrate(&mut self)
        requires
            old(self).position <= u16::MAX - 2,
        ensures
            final(self).position == old(self).position + 2,
            final(self).next_harpoon_spawn == old(self).next_harpoon_spawn,
    {
        self.position = self.position + 2;
    }

    /// Retrieves the column of the boat.
    pub fn position(&self) -> (r: u16)
        ensures
            r == self.position,
    {
        self.position
    }
}

/// Represents a spiky harpoon.
#[derive(Clone, Copy, Debug)]
pub struct Harpoon {
    /// The location of the harpoon.
    pub position: Point,
}

impl Harpoon {
    /// Creates a harpoon just under a boat.
    pub fn new(boat: &Boat) -> (r: Self)
        ensures
            r.position == (boat.position, HARPOON_ROW),
    {
        Harpoon { position: (boat.position(), HARPOON_ROW) }
    }

    /// Creates a harpoon at a given place.
    pub fn at(position: Point) -> (r: Self)
        ensures
            r.position == position,
    {
        Harpoon { position }
    }

    /// Migrates the harpoon one row down the screen.
    pub fn migrate(&mut self)
        requires
            old(self).position.1 < u16::MAX,
        ensures
            final(self).position == (old(self).position.0, (old(self).position.1 + 1) as u16),
    {
        self.position.1 = self.position.1 + 1;
    }

    /// Retrieves the location of the harpoon.
    pub fn position(&self) -> (r: &Point)
        ensures
            *r == self.position,
    {
        &self.position
    }
}

} // verus!
