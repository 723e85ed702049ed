//! The four reserves together, one per denomination and in a fixed order, and
//! the transactions on them under exclusive access.

use crate::denomination::Denomination;
use crate::denomination::name_denomination;
use crate::denomination::DENOMINATION_COUNT;
use crate::error::APIError;
use crate::reserve::Direction;
use crate::reserve::Reserve;
use crate::reserve::ReserveModel;
use vstd::prelude::*;

verus! {

/// What every collection holds: one reserve per denomination, each at its
/// denomination's position and each within its capacity.
pub open spec fn valid_reserves(s: Seq<ReserveModel>) -> bool {
    &&& s.len() == DENOMINATION_COUNT
    &&& forall|i: int|
        0 <= i < s.len() ==> (#[trigger] s[i]).within_capacity() && s[i].denomination.position()
            == i
}

/// The reserves with which every bank starts.
pub open spec fn seed_reserves() -> Seq<ReserveModel> {
    seq![
        ReserveModel { denomination: Denomination::Quarter, current_count: 4, max_count: 20 },
        ReserveModel { denomination: Denomination::Dime, current_count: 8, max_count: 50 },
        ReserveModel { denomination: Denomination::Nickel, current_count: 0, max_count: 15 },
        ReserveModel { denomination: Denomination::Penny, current_count: 0, max_count: 50 },
    ]
}

/// The reserves after one transaction on one denomination: that reserve
/// changes, the other three stay as they are.
pub open spec fn reserves_after(
    s: Seq<ReserveModel>,
    denomination: Denomination,
    count: nat,
    direction: Direction,
) -> Seq<ReserveModel> {
    s.update(denomination.position(), s[denomination.position()].after(count, direction))
}

/// What a transaction under a free-form name returns: the changed reserve, or
/// the refusal of a name that stands for no denomination.
pub open spec fn transaction_result(
    s: Seq<ReserveModel>,
    name: Seq<char>,
    count: nat,
    direction: Direction,
) -> Result<ReserveModel, APIError> {
    match name_denomination(name) {
        Some(d) => Ok(s[d.position()].after(count, direction)),
        None => Err(APIError::IllegalDenominationName),
    }
}

/// The reserves that a transaction under a free-form name leaves behind.
pub open spec fn reserves_after_named(
    s: Seq<ReserveModel>,
    name: Seq<char>,
    count: nat,
    direction: Direction,
) -> Seq<ReserveModel> {
    match name_denomination(name) {
        Some(d) => reserves_after(s, d, count, direction),
        None => s,
    }
}

/// The starting reserves are valid.
pub proof fn seed_is_valid()
    ensures
        valid_reserves(seed_reserves()),
{
}

/// A transaction leaves valid reserves valid: at every moment each count lies
/// between zero and its capacity.
pub proof fn transaction_keeps_reserves_valid(
    s: Seq<ReserveModel>,
    denomination: Denomination,
    count: nat,
    direction: Direction,
)
    requires
        valid_reserves(s),
    ensures
        valid_reserves(reserves_after(s, denomination, count, direction)),
{
    let p = denomination.position();
    s[p].transaction_keeps_bounds(count, direction);
}

/// A transaction of no coins, in either direction, leaves the reserves as they were.
pub proof fn zero_count_keeps_reserves(
    s: Seq<ReserveModel>,
    denomination: Denomination,
    direction: Direction,
)
    requires
        valid_reserves(s),
    ensures
        reserves_after(s, denomination, 0, direction) == s,
{
    let p = denomination.position();
    s[p].zero_count_changes_nothing(direction);
    assert(reserves_after(s, denomination, 0, direction) =~= s);
}

/// Under a name that stands for a denomination, a transaction of no coins
/// returns the reserve as it was and leaves all four as they were.
pub proof fn zero_count_is_no_op(s: Seq<ReserveModel>, name: Seq<char>, direction: Direction)
    requires
        valid_reserves(s),
    ensures
        reserves_after_named(s, name, 0, direction) == s,
        name_denomination(name) matches Some(d) ==> transaction_result(s, name, 0, direction)
            == Ok::<ReserveModel, APIError>(s[d.position()]),
{
    if let Some(d) = name_denomination(name) {
        zero_count_keeps_reserves(s, d, direction);
        s[d.position()].zero_count_changes_nothing(direction);
    }
}

/// A name that stands for no denomination changes no reserve, whatever the
/// count and the direction.
pub proof fn unknown_name_changes_nothing(
    s: Seq<ReserveModel>,
    name: Seq<char>,
    count: nat,
    direction: Direction,
)
    requires
        name_denomination(name) is None,
    ensures
        transaction_result(s, name, count, direction) == Err::<ReserveModel, APIError>(
            APIError::IllegalDenominationName,
        ),
        reserves_after_named(s, name, count, direction) == s,
{
}

/// Two names with the same lowercase form stand for the same reserve: every
/// transaction under the one does what it does under the other.
pub proof fn case_does_not_matter(
    s: Seq<ReserveModel>,
    a: Seq<char>,
    b: Seq<char>,
    count: nat,
    direction: Direction,
)
    requires
        crate::denomination::lowercase(a) == crate::denomination::lowercase(b),
    ensures
        name_denomination(a) == name_denomination(b),
        transaction_result(s, a, count, direction) == transaction_result(s, b, count, direction),
        reserves_after_named(s, a, count, direction) == reserves_after_named(
            s,
            b,
            count,
            direction,
        ),
{
}

/// The four reserves, in the order of their denominations.
#[derive(Clone, Copy, Debug, PartialEq, Eq)]
pub struct ReserveCollection {
    quarters: Reserve,
    dimes: Reserve,
    nickels: Reserve,
    pennies: Reserve,
}

impl View for ReserveCollection {
    type V = Seq<ReserveModel>;

    closed spec fn view(&self) -> Seq<ReserveModel> {
        seq![self.quarters@, self.dimes@, self.nickels@, self.pennies@]
    }
}

impl ReserveCollection {
    #[verifier::type_invariant]
    spec fn holds_valid_reserves(self) -> bool {
        valid_reserves(self@)
    }

    /// The collection with which every bank starts.
    pub fn seed() -> (c: Self)
        ensures
            c@ == seed_reserves(),
    {
        let c = ReserveCollection {
            quarters: Reserve::new(Denomination::Quarter, 4, 20).unwrap(),
            dimes: Reserve::new(Denomination::Dime, 8, 50).unwrap(),
            nickels: Reserve::new(Denomination::Nickel, 0, 15).unwrap(),
            pennies: Reserve::new(Denomination::Penny, 0, 50).unwrap(),
        };
        assert(c@ =~= seed_reserves());
        c
    }

    /// A copy of the four reserves as they are now.
    pub fn snapshot(&self) -> (c: Self)
        ensures
            c@ == self@,
            valid_reserves(c@),
    {
        proof {
            use_type_invariant(self);
        }
        *self
    }

    /// The reserve of one denomination.
    pub fn reserve(&self, denomination: Denomination) -> (r: Reserve)
        ensures
            valid_reserves(self@),
            r@ == self@[denomination.position()],
    {
        proof {
            use_type_invariant(self);
        }
        match denomination {
            Denomination::Quarter => self.quarters,
            Denomination::Dime => self.dimes,
            Denomination::Nickel => self.nickels,
            Denomination::Penny => self.pennies,
        }
    }

    /// All four reserves, in order.
    pub fn reserves(&self) -> (v: Vec<Reserve>)
        ensures
            valid_reserves(self@),
            v@.len() == self@.len(),
            forall|i: int| 0 <= i < v@.len() ==> (#[trigger] v@[i])@ == self@[i],
    {
        proof {
            use_type_invariant(self);
        }
        let mut v: Vec<Reserve> = Vec::new();
        v.push(self.quarters);
        v.push(self.dimes);
        v.push(self.nickels);
        v.push(self.pennies);
        v
    }

    /// One transaction on the reserve of `denomination`. The exclusive borrow
    /// is the exclusive access: nothing else can read or write meanwhile.
    pub fn apply(&mut self, denomination: Denomination, count: u8, direction: Direction) -> (r:
        Reserve)
        ensures
            valid_reserves(old(self)@),
            valid_reserves(final(self)@),
            final(self)@ == reserves_after(old(self)@, denomination, count as nat, direction),
            r@ == old(self)@[denomination.position()].after(count as nat, direction),
    {
        proof {
            use_type_invariant(&*self);
        }
        let mut reserve = self.reserve(denomination);
        reserve.apply(count, direction);
        proof {
            old(self)@[denomination.position()].transaction_keeps_bounds(count as nat, direction);
            assert(reserves_after(old(self)@, denomination, count as nat, direction) =~= match denomination {
                Denomination::Quarter => seq![reserve@, self.dimes@, self.nickels@, self.pennies@],
                Denomination::Dime => seq![self.quarters@, reserve@, self.nickels@, self.pennies@],
                Denomination::Nickel => seq![self.quarters@, self.dimes@, reserve@, self.pennies@],
                Denomination::Penny => seq![self.quarters@, self.dimes@, self.nickels@, reserve@],
            });
        }
        match denomination {
            Denomination::Quarter => {
                self.quarters = reserve;
            },
            Denomination::Dime => {
                self.dimes = reserve;
            },
            Denomination::Nickel => {
                self.nickels = reserve;
            },
            Denomination::Penny => {
                self.pennies = reserve;
            },
        }
        reserve
    }

    /// One transaction under a free-form name.
    pub fn transact(&mut self, name: String, count: u8, direction: Direction) -> (r: Result<
        Reserve,
        APIError,
    >)
        ensures
            valid_reserves(final(self)@),
            final(self)@ == reserves_after_named(old(self)@, name@, count as nat, direction),
            match transaction_result(old(self)@, name@, count as nat, direction) {
                Ok(model) => r matches Ok(reserve) && reserve@ == model,
                Err(e) => r == Err::<Reserve, APIError>(e),
            },
    {
        proof {
            use_type_invariant(&*self);
        }
        match Denomination::resolve(name) {
            Some(denomination) => Ok(self.apply(denomination, count, direction)),
            None => Err(APIError::IllegalDenominationName),
        }
    }

    /// Puts `count` coins of the named denomination in; what does not fit is discarded.
    pub fn add_coins(&mut self, name: String, count: u8) -> (r: Result<Reserve, APIError>)
        ensures
            valid_reserves(final(self)@),
            final(self)@ == reserves_after_named(old(self)@, name@, count as nat, Direction::Add),
            match transaction_result(old(self)@, name@, count as nat, Direction::Add) {
                Ok(model) => r matches Ok(reserve) && reserve@ == model,
                Err(e) => r == Err::<Reserve, APIError>(e),
            },
    {
        self.transact(name, count, Direction::Add)
    }

    /// Takes `count` coins of the named denomination out, or all that are held.
    pub fn subtract_coins(&mut self, name: String, count: u8) -> (r: Result<Reserve, APIError>)
        ensures
            valid_reserves(final(self)@),
            final(self)@ == reserves_after_named(
                old(self)@,
                name@,
                count as nat,
                Direction::Subtract,
            ),
            match transaction_result(old(self)@, name@, count as nat, Direction::Subtract) {
                Ok(model) => r matches Ok(reserve) && reserve@ == model,
                Err(e) => r == Err::<Reserve, APIError>(e),
            },
    {
        self.transact(name, count, Direction::Subtract)
    }
}

} // verus!
