use vstd::prelude::*;
use crate::filler::{Filler, UNIT};

verus! {

/// The largest magnitude, in millionths, of any number in a [`World`] on
/// which a tick or an action is computed: it keeps every intermediate sum
/// within `i64`.
pub const MAGNITUDE_LIMIT: i64 = 1_000_000_000_000_000;

/// Above this much unused land, in millionths, clearing slows as the land
/// grows; at or below it clearing runs at the fixed pace.
pub const UNUSED_LAND_THRESHOLD: i64 = 5 * UNIT;

/// A tenth of `1 / unused`, in millionths, is this over `unused` in
/// millionths.
pub const CLEARING_NUMERATOR: i64 = 100_000_000_000;

/// A tenth of the fixed clearing rate `0.2`, in millionths.
pub const FIXED_CLEARING_RATE: i64 = 20_000;

/// The food that a birth costs.
pub const BIRTH_COST: i64 = 10 * UNIT;

/// `|x|` is at most [`MAGNITUDE_LIMIT`].
pub open spec fn small(x: i64) -> bool {
    -MAGNITUDE_LIMIT <= x <= MAGNITUDE_LIMIT
}

pub open spec fn small_filler(f: Filler) -> bool {
    small(f.amount) && small(f.rate) && small(f.bound)
}

/// The pace at which land is cleared when `unused` millionths of land are
/// not farmed: a tenth of `1 / unused` above the threshold, rounded up to a
/// whole millionth so that clearing never stalls, else a tenth of `0.2`.
pub open spec fn clearing_rate(unused: int) -> int {
    if unused > UNUSED_LAND_THRESHOLD {
        (CLEARING_NUMERATOR + unused - 1) / unused
    } else {
        FIXED_CLEARING_RATE as int
    }
}

/// The food rate, `people × 0.001 − overcrowding × 0.004`, rounded down to
/// a whole millionth.
pub open spec fn food_rate(people: int, overcrowding: int) -> int {
    (people - 4 * overcrowding) / 1000
}

/// The deaths of a war: half the people, rounded down to a whole unit.
pub open spec fn war_deaths(people: int) -> int {
    (people / (2 * UNIT)) * UNIT
}

/// Five coupled accumulators: the people, their food, the cleared land, the
/// wild growth on uncleared land and the people living in the wild.
#[derive(Clone, Copy, Debug, PartialEq, Eq, Structural)]
pub struct World {
    pub people: Filler,
    pub food: Filler,
    pub land: Filler,
    pub wild: Filler,
    pub hermit: Filler,
}

impl World {
    /// Every number in the world is at most [`MAGNITUDE_LIMIT`] in size.
    pub open spec fn in_range(self) -> bool {
        &&& small_filler(self.people)
        &&& small_filler(self.food)
        &&& small_filler(self.land)
        &&& small_filler(self.wild)
        &&& small_filler(self.hermit)
    }

    /// The starting world: no people, food and cleared land full at ten
    /// units, no wild growth and no one in the wild.
    pub open spec fn initial() -> World {
        World {
            people: Filler { amount: 0, rate: -1000i64, bound: 10_000_000 },
            food: Filler { amount: 10_000_000, rate: 0, bound: 10_000_000 },
            land: Filler { amount: 10_000_000, rate: 0, bound: 10_000_000 },
            wild: Filler { amount: 0, rate: 10_000, bound: 0 },
            hermit: Filler { amount: 0, rate: 1000, bound: 0 },
        }
    }

    /// The world after one tick. Every derived quantity is read from `self`,
    /// never from a sibling that this tick already changed.
    pub open spec fn ticked(self) -> World {
        let unused = self.land.amount - self.food.amount;
        let over = self.people.over_bound();
        let into_woods = self.wild.amount != 0 && over > 0;
        let people = Filler {
            amount: self.people.amount,
            rate: self.people.rate,
            bound: self.land.amount,
        };
        let food = Filler {
            amount: self.food.amount,
            rate: food_rate(self.people.amount as int, over) as i64,
            bound: self.land.amount,
        };
        let land = Filler {
            amount: self.land.amount,
            rate: clearing_rate(unused) as i64,
            bound: self.land.bound,
        };
        let wild = Filler {
            amount: self.wild.amount,
            rate: self.wild.rate,
            bound: (land.bound - land.amount) as i64,
        };
        let hermit = Filler {
            amount: self.hermit.amount,
            rate: self.hermit.rate,
            bound: wild.amount,
        };
        World {
            people: if over > 0 {
                people.advanced()
            } else {
                people
            },
            food: food.advanced(),
            land: land.advanced(),
            wild: wild.advanced(),
            hermit: if into_woods {
                hermit.advanced()
            } else {
                hermit
            },
        }
    }

    /// The world after action `id`: 1 gathers food, 2 is a birth, 3 is a
    /// war; any other id changes nothing.
    pub open spec fn clicked(self, id: usize) -> World {
        if id == 1 {
            let food = match self.food.deposited(UNIT) {
                Ok(f) => f,
                Err(room) => Filler {
                    amount: (self.food.amount + room) as i64,
                    rate: self.food.rate,
                    bound: self.food.bound,
                },
            };
            World { food, ..self }
        } else if id == 2 {
            match self.food.withdrawn(BIRTH_COST) {
                Ok(f) => World {
                    people: Filler {
                        amount: (self.people.amount + UNIT) as i64,
                        rate: self.people.rate,
                        bound: self.people.bound,
                    },
                    food: f,
                    ..self
                },
                Err(_) => self,
            }
        } else if id == 3 {
            let deaths = war_deaths(self.people.amount as int);
            World {
                people: Filler {
                    amount: (self.people.amount - deaths) as i64,
                    rate: self.people.rate,
                    bound: self.people.bound,
                },
                land: Filler {
                    amount: self.land.amount,
                    rate: self.land.rate,
                    bound: (self.land.bound + deaths) as i64,
                },
                ..self
            }
        } else {
            self
        }
    }

    /// Each accumulator on a line of its own, as `label: amount/bound`.
    pub open spec fn view_text(self) -> Seq<char> {
        "food: "@ + self.food.view_text() + "\n"@
        + "people: "@ + self.people.view_text() + "\n"@
        + "land: "@ + self.land.view_text() + "\n"@
        + "wild_growth: "@ + self.wild.view_text() + "\n"@
        + "wild_people: "@ + self.hermit.view_text() + "\n"@
    }

    /// The caption of action `id`.
    pub open spec fn title_text(id: usize) -> Seq<char> {
        if id == 1 {
            "food"@
        } else if id == 2 {
            "birth"@
        } else if id == 3 {
            "war"@
        } else {
            "unused"@
        }
    }

    /// The starting world: no people, food and cleared land full at 10, no
    /// wild growth and no one in the wild.
    pub fn new() -> (r: World)
        ensures
            r == Self::initial(),
    {
        World {
            people: Filler::new(0, -1000, 10 * UNIT),
            food: Filler::new(10 * UNIT, 0, 10 * UNIT),
            land: Filler::new(10 * UNIT, 0, 10 * UNIT),
            wild: Filler::new(0, 10_000, 0),
            hermit: Filler::new(0, 1000, 0),
        }
    }

    /// Tells whether every number is within [`MAGNITUDE_LIMIT`], which
    /// `update` and `click` need.
    pub fn is_in_range(&self) -> (r: bool)
        ensures
            r == self.in_range(),
    {
        small_exec(&self.people) && small_exec(&self.food) && small_exec(&self.land)
            && small_exec(&self.wild) && small_exec(&self.hermit)
    }

    /// One tick of the coupled update rule.
    pub fn update(&self) -> (r: World)
        requires
            self.in_range(),
        ensures
            r == self.ticked(),
            r.land.bound == self.land.bound,
            0 < r.land.rate <= FIXED_CLEARING_RATE,
            self.land.in_bounds() ==> r.land.in_bounds(),
    {
        let unused = self.land.amount() - self.food.amount();
        let clearing = if unused > UNUSED_LAND_THRESHOLD {
            proof {
                lemma_clearing_rate_positive(unused as int);
            }
            (CLEARING_NUMERATOR + unused - 1) / unused
        } else {
            FIXED_CLEARING_RATE
        };
        let overcrowding = self.people.over_max();
        let into_woods = !self.wild.is_empty() && overcrowding > 0;
        let people = self.people.set_max(self.land.amount());
        let rate = match (self.people.amount() - 4 * overcrowding).checked_div_euclid(1000) {
            Some(q) => q,
            // the divisor is positive and the operands are small: never taken
            None => 0,
        };
        let food = Filler::new(self.food.amount(), rate, self.land.amount());
        let land = self.land.set_rate(clearing);
        let wild = self.wild.set_max(land.max() - land.amount());
        let hermit = self.hermit.set_max(wild.amount());
        World {
            people: if overcrowding > 0 {
                people.fill()
            } else {
                people
            },
            food: food.fill(),
            land: land.fill(),
            wild: wild.fill(),
            hermit: if into_woods {
                hermit.fill()
            } else {
                hermit
            },
        }
    }

    /// The caption of action `id`: `"food"`, `"birth"`, `"war"`, or
    /// `"unused"` for any other id.
    pub fn title(&self, id: usize) -> (r: String)
        ensures
            r@ == Self::title_text(id),
    {
        match id {
            1 => String::from_str("food"),
            2 => String::from_str("birth"),
            3 => String::from_str("war"),
            _ => String::from_str("unused"),
        }
    }

    /// Every accumulator as `label: amount/bound` on a line of its own, with
    /// two decimals: food, people, land, wild growth and wild people.
    pub fn text(&self) -> (r: String)
        ensures
            r@ == self.view_text(),
    {
        let mut out = String::from_str("food: ");
        append_line(&mut out, &self.food);
        out.append("people: ");
        append_line(&mut out, &self.people);
        out.append("land: ");
        append_line(&mut out, &self.land);
        out.append("wild_growth: ");
        append_line(&mut out, &self.wild);
        out.append("wild_people: ");
        append_line(&mut out, &self.hermit);
        out
    }

    /// Applies action `id`: 1 gathers one unit of food, topping up to the
    /// bound at most; 2 turns ten food into one person when there is that
    /// much food; 3 is a war that kills half the people, rounded down, and
    /// adds as much to the land's bound. Any other id returns the world
    /// unchanged.
    pub fn click(&self, id: usize) -> (r: World)
        requires
            self.in_range(),
        ensures
            r == self.clicked(id),
            id != 1 && id != 2 && id != 3 ==> r == *self,
    {
        match id {
            1 => {
                let food = match self.food.add(UNIT) {
                    Ok(f) => f,
                    Err(room) => self.food.force_add(room),
                };
                World { food, ..*self }
            },
            2 => {
                let (people, food) = match self.food.take(BIRTH_COST) {
                    Ok(f) => (self.people.force_add(UNIT), f),
                    Err(_) => (self.people, self.food),
                };
                World { people, food, ..*self }
            },
            3 => {
                let deaths = match self.people.amount().checked_div_euclid(2 * UNIT) {
                    Some(q) => q * UNIT,
                    // the divisor is positive: never taken
                    None => 0,
                };
                let people = self.people.force_take(deaths);
                let land = self.land.add_max(deaths);
                World { people, land, ..*self }
            },
            _ => *self,
        }
    }
}

/// Clearing always goes on, never faster than the fixed pace.
pub proof fn lemma_clearing_rate_positive(unused: int)
    ensures
        0 < clearing_rate(unused) <= FIXED_CLEARING_RATE,
{
    if unused > UNUSED_LAND_THRESHOLD {
        let n = CLEARING_NUMERATOR + unused - 1;
        assert(n / unused >= 1) by (nonlinear_arith)
            requires
                n >= unused,
                unused > 0,
        ;
        assert(n / unused <= FIXED_CLEARING_RATE) by (nonlinear_arith)
            requires
                n < (FIXED_CLEARING_RATE + 1) * unused,
                unused > 0,
        ;
    }
}

/// The world `w` after `n` ticks.
pub open spec fn ticks(w: World, n: nat) -> World
    decreases n,
{
    if n == 0 {
        w
    } else {
        ticks(w, (n - 1) as nat).ticked()
    }
}

/// Only ticks have passed since the start: everything is as it began but for
/// the pace at which land is cleared.
spec fn only_ticked(w: World) -> bool {
    let s = World::initial();
    &&& w.people == s.people
    &&& w.food == s.food
    &&& w.land.amount == s.land.amount
    &&& w.land.bound == s.land.bound
    &&& 0 <= w.land.rate <= MAGNITUDE_LIMIT
    &&& w.wild == s.wild
    &&& w.hermit == s.hermit
}

proof fn lemma_only_ticked(n: nat)
    ensures
        only_ticked(ticks(World::initial(), n)),
    decreases n,
{
    if n > 0 {
        lemma_only_ticked((n - 1) as nat);
    }
}

/// From the starting world, after any number of ticks, cleared land and wild
/// growth both lie within `[0, bound]`, and the next tick can be computed.
pub proof fn lemma_ticks_from_start_stay_in_bounds(n: nat)
    ensures
        ticks(World::initial(), n).in_range(),
        ticks(World::initial(), n).land.in_bounds(),
        ticks(World::initial(), n).wild.in_bounds(),
{
    lemma_only_ticked(n);
}

fn append_line(out: &mut String, f: &Filler)
    ensures
        final(out)@ == old(out)@ + f.view_text() + "\n"@,
{
    let t = f.text();
    out.append(t.as_str());
    out.append("\n");
}

fn small_exec(f: &Filler) -> (r: bool)
    ensures
        r == small_filler(*f),
{
    -MAGNITUDE_LIMIT <= f.amount && f.amount <= MAGNITUDE_LIMIT && -MAGNITUDE_LIMIT <= f.rate
        && f.rate <= MAGNITUDE_LIMIT && -MAGNITUDE_LIMIT <= f.bound && f.bound <= MAGNITUDE_LIMIT
}

} // verus!
