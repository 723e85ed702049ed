//! The four coin denominations and the lookup from a free-form name to one of them.

use vstd::prelude::*;

verus! {

/// Position of the quarters in a reserve collection.
pub const QUARTERS_INDEX: usize = 0;

/// Position of the dimes in a reserve collection.
pub const DIMES_INDEX: usize = 1;

/// Position of the nickels in a reserve collection.
pub const NICKELS_INDEX: usize = 2;

/// Position of the pennies in a reserve collection.
pub const PENNIES_INDEX: usize = 3;

/// Number of denominations, and so the length of every reserve collection.
pub const DENOMINATION_COUNT: usize = 4;

/// A coin type. Free-form names are turned into one of these at the boundary,
/// so no position inside the library can be out of range.
#[derive(Clone, Copy, Debug, PartialEq, Eq, Structural)]
pub enum Denomination {
    Quarter,
    Dime,
    Nickel,
    Penny,
}

/// The lowercase form of a string, as `str::to_lowercase` computes it from the
/// Unicode `Lowercase` property.
pub uninterp spec fn lowercase(s: Seq<char>) -> Seq<char>;

/// The position that an already lowercased name stands for: exactly the four
/// singular names are accepted.
pub open spec fn lowercase_name_index(lowered: Seq<char>) -> Option<usize> {
    if lowered == "quarter"@ {
        Some(QUARTERS_INDEX)
    } else if lowered == "dime"@ {
        Some(DIMES_INDEX)
    } else if lowered == "nickel"@ {
        Some(NICKELS_INDEX)
    } else if lowered == "penny"@ {
        Some(PENNIES_INDEX)
    } else {
        None
    }
}

/// The position that a name stands for, whatever its case.
pub open spec fn name_index(name: Seq<char>) -> Option<usize> {
    lowercase_name_index(lowercase(name))
}

/// The denomination that a name stands for, whatever its case.
pub open spec fn name_denomination(name: Seq<char>) -> Option<Denomination> {
    match name_index(name) {
        Some(i) => Denomination::at(i as int),
        None => None,
    }
}

impl Denomination {
    /// Where this denomination stands in a reserve collection.
    pub open spec fn position(self) -> int {
        match self {
            Denomination::Quarter => 0,
            Denomination::Dime => 1,
            Denomination::Nickel => 2,
            Denomination::Penny => 3,
        }
    }

    /// The denomination that stands at a position, if any does.
    pub open spec fn at(i: int) -> Option<Denomination> {
        if i == 0 {
            Some(Denomination::Quarter)
        } else if i == 1 {
            Some(Denomination::Dime)
        } else if i == 2 {
            Some(Denomination::Nickel)
        } else if i == 3 {
            Some(Denomination::Penny)
        } else {
            None
        }
    }

    /// The plural name under which a reserve of this denomination is listed.
    pub open spec fn listed_name(self) -> Seq<char> {
        match self {
            Denomination::Quarter => "Quarters"@,
            Denomination::Dime => "Dimes"@,
            Denomination::Nickel => "Nickels"@,
            Denomination::Penny => "Pennies"@,
        }
    }

    /// The value of one coin in hundredths of the currency unit.
    pub open spec fn minor_units(self) -> int {
        match self {
            Denomination::Quarter => 25,
            Denomination::Dime => 10,
            Denomination::Nickel => 5,
            Denomination::Penny => 1,
        }
    }

    /// Positions and denominations correspond one to one.
    pub proof fn position_round_trip(self)
        ensures
            0 <= self.position() < DENOMINATION_COUNT,
            Denomination::at(self.position()) == Some(self),
    {
    }

    /// A position names a denomination exactly when it is below the count, and
    /// that denomination stands at the position.
    pub proof fn at_round_trip(i: int)
        ensures
            Denomination::at(i) is Some <==> 0 <= i < DENOMINATION_COUNT,
            Denomination::at(i) matches Some(d) ==> d.position() == i,
    {
    }

    /// Where this denomination stands in a reserve collection.
    pub fn index(self) -> (i: usize)
        ensures
            i == self.position(),
    {
        match self {
            Denomination::Quarter => QUARTERS_INDEX,
            Denomination::Dime => DIMES_INDEX,
            Denomination::Nickel => NICKELS_INDEX,
            Denomination::Penny => PENNIES_INDEX,
        }
    }

    /// The denomination at a position, or nothing from position four on.
    pub fn from_index(i: usize) -> (r: Option<Denomination>)
        ensures
            r == Denomination::at(i as int),
    {
        if i == QUARTERS_INDEX {
            Some(Denomination::Quarter)
        } else if i == DIMES_INDEX {
            Some(Denomination::Dime)
        } else if i == NICKELS_INDEX {
            Some(Denomination::Nickel)
        } else if i == PENNIES_INDEX {
            Some(Denomination::Penny)
        } else {
            None
        }
    }

    /// The plural name under which a reserve of this denomination is listed.
    pub fn name(self) -> (r: String)
        ensures
            r@ == self.listed_name(),
    {
        match self {
            Denomination::Quarter => "Quarters".to_owned(),
            Denomination::Dime => "Dimes".to_owned(),
            Denomination::Nickel => "Nickels".to_owned(),
            Denomination::Penny => "Pennies".to_owned(),
        }
    }

    /// The value of one coin in hundredths of the currency unit.
    pub fn value_in_minor_units(self) -> (v: u8)
        ensures
            v == self.minor_units(),
    {
        match self {
            Denomination::Quarter => 25,
            Denomination::Dime => 10,
            Denomination::Nickel => 5,
            Denomination::Penny => 1,
        }
    }

    /// Looks a free-form name up, whatever its case.
    pub fn resolve(name: String) -> (r: Option<Denomination>)
        ensures
            r == name_denomination(name@),
    {
        match get_coin_index(name) {
            Some(i) => Denomination::from_index(i),
            None => None,
        }
    }
}

/// `str::to_lowercase`: the result is the lowercase form of the argument. The
/// conversion reads nothing but the string, so equal strings give equal results.
#[verifier::external_body]
fn to_lowercase(s: &String) -> (r: String)
    ensures
        r@ == lowercase(s@),
{
    s.to_lowercase()
}

/// Matches a name that is already in lowercase against the four accepted
/// singular names.
pub fn index_of_lowercase_name(lowered: &String) -> (r: Option<usize>)
    ensures
        r == lowercase_name_index(lowered@),
{
    if *lowered == "quarter".to_owned() {
        Some(QUARTERS_INDEX)
    } else if *lowered == "dime".to_owned() {
        Some(DIMES_INDEX)
    } else if *lowered == "nickel".to_owned() {
        Some(NICKELS_INDEX)
    } else if *lowered == "penny".to_owned() {
        Some(PENNIES_INDEX)
    } else {
        None
    }
}

/// The sole step between an untrusted name and a position in the collection:
/// the name is lowercased and then matched exactly.
pub fn get_coin_index(denomination: String) -> (r: Option<usize>)
    ensures
        r == name_index(denomination@),
        r matches Some(i) ==> i < DENOMINATION_COUNT,
{
    let lowered = to_lowercase(&denomination);
    index_of_lowercase_name(&lowered)
}

} // verus!
