//! The store that owns the reserves and serialises every read and write of them.

use crate::collection::seed_reserves;
use crate::collection::valid_reserves;
use crate::collection::ReserveCollection;
use crate::denomination::name_denomination;
use crate::denomination::Denomination;
use crate::error::APIError;
use crate::reserve::Direction;
use crate::reserve::Reserve;
use crate::reserve::ReserveModel;
use std::sync::Mutex;
use std::sync::MutexGuard;
use vstd::prelude::*;

verus! {

/// `std::sync::Mutex`, carried as an opaque value: nothing is known of what it
/// holds until it is locked.
#[verifier::external_type_specification]
#[verifier::external_body]
#[verifier::reject_recursive_types(T)]
pub struct ExMutex<T: ?Sized>(Mutex<T>);

/// `std::sync::MutexGuard`, carried as an opaque value: the lock is released
/// when the guard goes out of scope.
#[verifier::external_type_specification]
#[verifier::external_body]
#[verifier::reject_recursive_types(T)]
pub struct ExMutexGuard<'a, T: ?Sized + 'a>(MutexGuard<'a, T>);

/// The reserves around which a mutex was created: the value that `Mutex::new`
/// was given. It is fixed for the life of the mutex and says nothing of what
/// the mutex holds once transactions have gone through it.
pub uninterp spec fn created_with(mutex: Mutex<ReserveCollection>) -> Seq<ReserveModel>;

/// `Mutex::new`: a fresh, unlocked mutex whose data is the collection handed
/// in, so the reserves it was created with are those of the argument.
#[verifier::external_body]
fn new_mutex(reserves: ReserveCollection) -> (mutex: Mutex<ReserveCollection>)
    ensures
        created_with(mutex) == reserves@,
{
    Mutex::new(reserves)
}

/// `Mutex::lock`: waits for the lock and hands the guard out, or nothing where
/// the mutex is poisoned. Nothing is claimed of which of the two happens.
#[verifier::external_body]
fn acquire<'a>(mutex: &'a Mutex<ReserveCollection>) -> Option<MutexGuard<'a, ReserveCollection>> {
    match mutex.lock() {
        Ok(guard) => Some(guard),
        Err(_) => None,
    }
}

/// `MutexGuard::deref_mut`: the collection that the guard protects. Nothing is
/// claimed of what it holds beyond its type.
#[verifier::external_body]
fn contents<'a, 'b>(guard: &'a mut MutexGuard<'b, ReserveCollection>) -> &'a mut ReserveCollection {
    &mut **guard
}

/// What a transaction returns once exclusive access was asked for: with no
/// access it fails and touches nothing; with access it is the transaction on
/// the collection that was handed over.
pub fn apply_with_access(
    access: Option<&mut ReserveCollection>,
    denomination: Denomination,
    count: u8,
    direction: Direction,
) -> (r: Result<Reserve, APIError>)
    ensures
        access is None ==> r == Err::<Reserve, APIError>(APIError::StateUnavailable),
        access matches Some(collection) ==> {
            &&& r matches Ok(reserve)
            &&& reserve@ == collection@[denomination.position()].after(count as nat, direction)
            &&& final(collection)@ == crate::collection::reserves_after(
                collection@,
                denomination,
                count as nat,
                direction,
            )
            &&& valid_reserves(collection@)
            &&& valid_reserves(final(collection)@)
        },
{
    match access {
        Some(collection) => Ok(collection.apply(denomination, count, direction)),
        None => Err(APIError::StateUnavailable),
    }
}

/// What can come back from a transaction on a store whose reserves other
/// callers change meanwhile: the outcome of that transaction on some valid
/// reserve of the denomination.
pub open spec fn possible_outcome(
    reserve: ReserveModel,
    denomination: Denomination,
    count: nat,
    direction: Direction,
) -> bool {
    exists|before: ReserveModel|
        before.within_capacity() && before.denomination == denomination && reserve
            == #[trigger] before.after(count, direction)
}

/// Whatever a store hands back is within its capacity and of the denomination
/// that was asked for.
pub proof fn possible_outcome_is_bounded(
    reserve: ReserveModel,
    denomination: Denomination,
    count: nat,
    direction: Direction,
)
    requires
        possible_outcome(reserve, denomination, count, direction),
    ensures
        reserve.within_capacity(),
        reserve.denomination == denomination,
        direction == Direction::Add ==> reserve.current_count >= vstd::math::min(
            count as int,
            reserve.max_count as int,
        ),
        direction == Direction::Subtract ==> reserve.current_count + count <= reserve.max_count
            || reserve.current_count == 0,
{
    let before = choose|before: ReserveModel|
        before.within_capacity() && before.denomination == denomination && reserve
            == #[trigger] before.after(count, direction);
    before.transaction_keeps_bounds(count, direction);
}

/// The owner of the reserves. All reads and writes go through one lock over
/// the whole collection, taken once per operation and never nested.
pub struct ReserveStore {
    reserves: Mutex<ReserveCollection>,
}

impl ReserveStore {
    /// The reserves from which this store started. What it holds later
    /// depends on the transactions of every caller and is read under the lock.
    pub closed spec fn starting_reserves(&self) -> Seq<ReserveModel> {
        created_with(self.reserves)
    }

    /// A store that starts from the seed reserves.
    pub fn new() -> (store: Self)
        ensures
            store.starting_reserves() == seed_reserves(),
            valid_reserves(store.starting_reserves()),
    {
        ReserveStore { reserves: new_mutex(ReserveCollection::seed()) }
    }

    /// A store that starts from the given reserves.
    pub fn with_reserves(reserves: ReserveCollection) -> (store: Self)
        ensures
            store.starting_reserves() == reserves@,
            valid_reserves(store.starting_reserves()),
    {
        let reserves = reserves.snapshot();
        ReserveStore { reserves: new_mutex(reserves) }
    }

    /// A copy of all four reserves, taken under the lock. It fails only where
    /// the lock cannot be had.
    pub fn snapshot(&self) -> (r: Result<ReserveCollection, APIError>)
        ensures
            r matches Ok(collection) ==> valid_reserves(collection@),
            r matches Err(e) ==> e == APIError::StateUnavailable,
    {
        match acquire(&self.reserves) {
            Some(mut guard) => {
                let collection = contents(&mut guard);
                Ok(collection.snapshot())
            },
            None => Err(APIError::StateUnavailable),
        }
    }

    /// Takes the lock, carries one transaction out on the reserve of
    /// `denomination` and releases the lock again, on every path. Reading,
    /// computing and writing all happen inside this one acquisition.
    pub fn with_exclusive_access(
        &self,
        denomination: Denomination,
        count: u8,
        direction: Direction,
    ) -> (r: Result<Reserve, APIError>)
        ensures
            r matches Ok(reserve) ==> possible_outcome(
                reserve@,
                denomination,
                count as nat,
                direction,
            ),
            r matches Err(e) ==> e == APIError::StateUnavailable,
    {
        match acquire(&self.reserves) {
            Some(mut guard) => {
                let collection = contents(&mut guard);
                let ghost before = collection@[denomination.position()];
                let r = apply_with_access(Some(collection), denomination, count, direction);
                assert(before.within_capacity() && before.denomination == denomination);
                assert(r matches Ok(reserve) && reserve@ == before.after(count as nat, direction));
                r
            },
            None => apply_with_access(None, denomination, count, direction),
        }
    }

    /// One transaction under a free-form name. The name is looked up before
    /// the lock is asked for, so an unknown name never waits.
    pub fn transact(&self, name: String, count: u8, direction: Direction) -> (r: Result<
        Reserve,
        APIError,
    >)
        ensures
            name_denomination(name@) is None <==> r == Err::<Reserve, APIError>(
                APIError::IllegalDenominationName,
            ),
            r matches Ok(reserve) ==> name_denomination(name@) matches Some(denomination)
                && possible_outcome(reserve@, denomination, count as nat, direction),
    {
        match Denomination::resolve(name) {
            Some(denomination) => self.with_exclusive_access(denomination, count, direction),
            None => Err(APIError::IllegalDenominationName),
        }
    }

    /// Puts `count` coins of the named denomination in; what does not fit is discarded.
    pub fn add_coins(&self, name: String, count: u8) -> (r: Result<Reserve, APIError>)
        ensures
            name_denomination(name@) is None <==> r == Err::<Reserve, APIError>(
                APIError::IllegalDenominationName,
            ),
            r matches Ok(reserve) ==> name_denomination(name@) matches Some(denomination)
                && possible_outcome(reserve@, denomination, count as nat, Direction::Add),
    {
        self.transact(name, count, Direction::Add)
    }

    /// Takes `count` coins of the named denomination out, or all that are held.
    pub fn subtract_coins(&self, name: String, count: u8) -> (r: Result<Reserve, APIError>)
        ensures
            name_denomination(name@) is None <==> r == Err::<Reserve, APIError>(
                APIError::IllegalDenominationName,
            ),
            r matches Ok(reserve) ==> name_denomination(name@) matches Some(denomination)
                && possible_outcome(reserve@, denomination, count as nat, Direction::Subtract),
    {
        self.transact(name, count, Direction::Subtract)
    }
}

} // verus!
