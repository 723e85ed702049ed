//! One denomination's reserve: how many coins are held, and how many fit.

use crate::denomination::Denomination;
use vstd::prelude::*;

verus! {

/// Whether coins are put in or taken out.
#[derive(Clone, Copy, Debug, PartialEq, Eq, Structural)]
pub enum Direction {
    Add,
    Subtract,
}

/// What a reserve is, mathematically.
pub struct ReserveModel {
    pub denomination: Denomination,
    pub current_count: nat,
    pub max_count: nat,
}

impl ReserveModel {
    /// The invariant of every reserve: no more coins are held than fit.
    pub open spec fn within_capacity(self) -> bool {
        self.current_count <= self.max_count <= u8::MAX
    }

    /// Putting `count` coins in: the excess over the capacity is discarded.
    pub open spec fn after_add(self, count: nat) -> ReserveModel {
        ReserveModel {
            current_count: if self.current_count + count <= self.max_count {
                self.current_count + count
            } else {
                self.max_count
            },
            ..self
        }
    }

    /// Taking `count` coins out: the reserve is empty once `count` reaches what is held.
    pub open spec fn after_subtract(self, count: nat) -> ReserveModel {
        ReserveModel {
            current_count: if count < self.current_count {
                (self.current_count - count) as nat
            } else {
                0
            },
            ..self
        }
    }

    /// One transaction in either direction.
    pub open spec fn after(self, count: nat, direction: Direction) -> ReserveModel {
        match direction {
            Direction::Add => self.after_add(count),
            Direction::Subtract => self.after_subtract(count),
        }
    }

    /// `n` transactions of one coin each, one after the other.
    pub open spec fn after_repeated(self, n: nat, direction: Direction) -> ReserveModel
        decreases n,
    {
        if n == 0 {
            self
        } else {
            self.after_repeated((n - 1) as nat, direction).after(1, direction)
        }
    }

    /// No transaction takes a reserve out of its bounds, nor changes its
    /// denomination or its capacity.
    pub proof fn transaction_keeps_bounds(self, count: nat, direction: Direction)
        requires
            self.within_capacity(),
        ensures
            self.after(count, direction).within_capacity(),
            self.after(count, direction).denomination == self.denomination,
            self.after(count, direction).max_count == self.max_count,
    {
    }

    /// A transaction of no coins changes nothing.
    pub proof fn zero_count_changes_nothing(self, direction: Direction)
        requires
            self.within_capacity(),
        ensures
            self.after(0, direction) == self,
    {
    }

    /// Adding is the smaller of the sum and the capacity; subtracting is the
    /// larger of the difference and zero.
    pub proof fn transaction_saturates(self, count: nat)
        requires
            self.within_capacity(),
        ensures
            self.after_add(count).current_count == vstd::math::min(
                (self.current_count + count) as int,
                self.max_count as int,
            ),
            self.after_subtract(count).current_count == vstd::math::max(
                self.current_count - count,
                0,
            ),
    {
    }

    /// `n` single coins put in one after the other, in whatever order the
    /// store serialises them, count exactly as `n` coins put in at once: none
    /// is lost below the capacity and none is kept above it.
    pub proof fn repeated_adds_accumulate(self, n: nat)
        requires
            self.within_capacity(),
        ensures
            self.after_repeated(n, Direction::Add) == self.after_add(n),
            self.current_count + n <= self.max_count ==> self.after_repeated(
                n,
                Direction::Add,
            ).current_count == self.current_count + n,
            self.after_repeated(n, Direction::Add).current_count <= self.max_count,
        decreases n,
    {
        if n > 0 {
            self.repeated_adds_accumulate((n - 1) as nat);
        }
    }

    /// `n` single coins taken out one after the other count as `n` taken out at once.
    pub proof fn repeated_subtracts_accumulate(self, n: nat)
        requires
            self.within_capacity(),
        ensures
            self.after_repeated(n, Direction::Subtract) == self.after_subtract(n),
        decreases n,
    {
        if n > 0 {
            self.repeated_subtracts_accumulate((n - 1) as nat);
        }
    }
}

/// One denomination's coins: how many are held now and how many fit. The
/// fields are private so that the bound between them cannot be broken.
#[derive(Clone, Copy, Debug, PartialEq, Eq)]
pub struct Reserve {
    denomination: Denomination,
    current_count: u8,
    max_count: u8,
}

impl View for Reserve {
    type V = ReserveModel;

    closed spec fn view(&self) -> ReserveModel {
        ReserveModel {
            denomination: self.denomination,
            current_count: self.current_count as nat,
            max_count: self.max_count as nat,
        }
    }
}

impl Reserve {
    #[verifier::type_invariant]
    spec fn bounded(self) -> bool {
        self.current_count <= self.max_count
    }

    /// A reserve with the given counts, unless more would be held than fit.
    pub fn new(denomination: Denomination, current_count: u8, max_count: u8) -> (r: Option<
        Reserve,
    >)
        ensures
            r is Some <==> current_count <= max_count,
            r matches Some(reserve) ==> reserve@ == (ReserveModel {
                denomination,
                current_count: current_count as nat,
                max_count: max_count as nat,
            }),
    {
        if current_count <= max_count {
            Some(Reserve { denomination, current_count, max_count })
        } else {
            None
        }
    }

    /// The denomination whose coins this reserve holds.
    pub fn denomination(&self) -> (d: Denomination)
        ensures
            d == self@.denomination,
    {
        self.denomination
    }

    /// How many coins are held; never more than fit.
    pub fn current_count(&self) -> (n: u8)
        ensures
            n == self@.current_count,
            self@.within_capacity(),
    {
        proof {
            use_type_invariant(self);
        }
        self.current_count
    }

    /// How many coins fit.
    pub fn max_count(&self) -> (n: u8)
        ensures
            n == self@.max_count,
    {
        self.max_count
    }

    /// Puts `count` coins in and discards what does not fit.
    pub fn add_coins(&mut self, count: u8)
        ensures
            final(self)@ == old(self)@.after_add(count as nat),
            final(self)@.within_capacity(),
    {
        proof {
            use_type_invariant(&*self);
        }
        if count <= self.max_count - self.current_count {
            self.current_count = self.current_count + count;
        } else {
            self.current_count = self.max_count;
        }
    }

    /// Takes `count` coins out, or all of them where fewer are held.
    pub fn subtract_coins(&mut self, count: u8)
        ensures
            final(self)@ == old(self)@.after_subtract(count as nat),
            final(self)@.within_capacity(),
    {
        proof {
            use_type_invariant(&*self);
        }
        if self.current_count > count {
            self.current_count = self.current_count - count;
        } else {
            self.current_count = 0;
        }
    }

    /// One transaction in either direction.
    pub fn apply(&mut self, count: u8, direction: Direction)
        ensures
            final(self)@ == old(self)@.after(count as nat, direction),
            final(self)@.within_capacity(),
    {
        match direction {
            Direction::Add => self.add_coins(count),
            Direction::Subtract => self.subtract_coins(count),
        }
    }
}

} // verus!
