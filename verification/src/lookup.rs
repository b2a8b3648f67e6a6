//! Looking a device up by its address.
//!
//! A stack offers no index by address, so a lookup asks the devices one by
//! one. What the devices told is plain data, and the rule of the lookup is
//! stated over it here.

use vstd::prelude::*;
use crate::error::BluetoothError;

verus! {

/// Whether what a device told of its address ends a search for `address`:
/// the device has that address, or it failed to tell.
pub open spec fn settles(told: Result<String, BluetoothError>, address: Seq<char>) -> bool {
    match told {
        Ok(own) => own@ == address,
        Err(_) => true,
    }
}

/// Whether `at` is the first place in `told` that ends a search for
/// `address`.
pub open spec fn first_settled(
    told: Seq<Result<String, BluetoothError>>,
    address: Seq<char>,
    at: int,
) -> bool {
    &&& 0 <= at < told.len()
    &&& settles(told[at], address)
    &&& forall|k: int| 0 <= k < at ==> !settles(#[trigger] told[k], address)
}

/// Whether `r` is the outcome of a search for `address` among devices that
/// told `told`, in their order.
///
/// The first device that has the address is found, by its place. A device
/// before it that failed to tell its address fails the search, with its own
/// failure. Where every device told another address, none is found.
pub open spec fn locates(
    told: Seq<Result<String, BluetoothError>>,
    address: Seq<char>,
    r: Result<Option<usize>, BluetoothError>,
) -> bool {
    match r {
        Ok(Some(at)) => first_settled(told, address, at as int) && told[at as int] is Ok,
        Ok(None) => forall|k: int| 0 <= k < told.len() ==> !settles(#[trigger] told[k], address),
        Err(failure) => exists|at: int|
            first_settled(told, address, at) && #[trigger] told[at] == Err::<
                String,
                BluetoothError,
            >(failure),
    }
}

/// Whether `told` ends a search for `address`.
pub fn is_settled(told: &Result<String, BluetoothError>, address: &String) -> (r: bool)
    ensures
        r == settles(*told, address@),
{
    match told {
        Ok(own) => *own == *address,
        Err(_) => true,
    }
}

/// Searches what the devices told for `address`, see `locates`.
pub fn find_address(told: &Vec<Result<String, BluetoothError>>, address: &String) -> (r: Result<
    Option<usize>,
    BluetoothError,
>)
    ensures
        locates(told@, address@, r),
{
    let mut at: usize = 0;
    while at < told.len()
        invariant
            at <= told@.len(),
            forall|k: int| 0 <= k < at ==> !settles(#[trigger] told@[k], address@),
        decreases told@.len() - at,
    {
        match &told[at] {
            Ok(own) => {
                if *own == *address {
                    return Ok(Some(at));
                }
            },
            Err(failure) => {
                let failure = failure.clone();
                assert(first_settled(told@, address@, at as int));
                return Err(failure);
            },
        }
        at += 1;
    }
    Ok(None)
}

/// A search has one outcome: `locates` holds of no two.
pub proof fn search_is_decided(
    told: Seq<Result<String, BluetoothError>>,
    address: Seq<char>,
    first: Result<Option<usize>, BluetoothError>,
    second: Result<Option<usize>, BluetoothError>,
)
    requires
        locates(told, address, first),
        locates(told, address, second),
    ensures
        first == second,
{
    let at = place_of(told, address, first);
    let other = place_of(told, address, second);
    if at >= 0 && other >= 0 {
        assert(at == other) by {
            if at < other {
                assert(settles(told[at], address));
            } else if other < at {
                assert(settles(told[other], address));
            }
        }
    } else if at >= 0 {
        assert(settles(told[at], address));
    } else if other >= 0 {
        assert(settles(told[other], address));
    }
}

/// The place that settled a search with outcome `r`, or -1 where none did.
pub(crate) proof fn place_of(
    told: Seq<Result<String, BluetoothError>>,
    address: Seq<char>,
    r: Result<Option<usize>, BluetoothError>,
) -> (at: int)
    requires
        locates(told, address, r),
    ensures
        r is Ok && r->Ok_0 is None ==> at == -1,
        !(r is Ok && r->Ok_0 is None) ==> first_settled(told, address, at),
        r matches Ok(Some(found)) ==> at == found,
        r matches Err(failure) ==> told[at] == Err::<String, BluetoothError>(failure),
{
    match r {
        Ok(Some(found)) => found as int,
        Ok(None) => -1,
        Err(failure) => choose|at: int|
            first_settled(told, address, at) && #[trigger] told[at] == Err::<
                String,
                BluetoothError,
            >(failure),
    }
}

/// Among devices none of which has the address, a search finds none, and
/// does not fail.
pub proof fn absent_address_is_not_found(
    told: Seq<Result<String, BluetoothError>>,
    address: Seq<char>,
    r: Result<Option<usize>, BluetoothError>,
)
    requires
        forall|k: int|
            0 <= k < told.len() ==> (#[trigger] told[k]) is Ok && told[k]->Ok_0@ != address,
        locates(told, address, r),
    ensures
        r == Ok::<Option<usize>, BluetoothError>(None),
{
    let at = place_of(told, address, r);
    if at >= 0 {
        assert(settles(told[at], address));
    }
}

/// Among devices exactly one of which has the address, a search finds that
/// one.
pub proof fn single_address_is_found(
    told: Seq<Result<String, BluetoothError>>,
    address: Seq<char>,
    owner: int,
    r: Result<Option<usize>, BluetoothError>,
)
    requires
        0 <= owner < told.len(),
        forall|k: int| 0 <= k < told.len() ==> (#[trigger] told[k]) is Ok,
        forall|k: int|
            0 <= k < told.len() ==> ((#[trigger] told[k])->Ok_0@ == address <==> k == owner),
        locates(told, address, r),
    ensures
        r matches Ok(Some(at)) && at == owner,
{
    let at = place_of(told, address, r);
    assert(settles(told[owner], address));
    if at >= 0 {
        assert(settles(told[at], address));
    }
}

/// A search that a device settled has the same outcome whatever the devices
/// after it tell, so asking no further than that device loses nothing.
pub proof fn later_answers_change_nothing(
    told: Seq<Result<String, BluetoothError>>,
    later: Seq<Result<String, BluetoothError>>,
    address: Seq<char>,
    r: Result<Option<usize>, BluetoothError>,
)
    requires
        locates(told, address, r),
        r != Ok::<Option<usize>, BluetoothError>(None),
    ensures
        locates(told + later, address, r),
{
    let at = place_of(told, address, r);
    let all = told + later;
    assert(all[at] == told[at]);
    assert forall|k: int| 0 <= k < at implies !settles(#[trigger] all[k], address) by {
        assert(all[k] == told[k]);
    }
    assert(first_settled(all, address, at));
}

} // verus!
