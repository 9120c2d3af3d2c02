//! The use case: validate a raw request, look the number up in a
//! repository, and map every lower-layer failure to one of three stable,
//! caller-facing errors.

use vstd::prelude::*;
use crate::entities::PokemonNumber;
use crate::entities::valid_raw;
use crate::repository::PokemonRecord;
use crate::repository::Repository;

verus! {

/// The raw, unvalidated input a caller hands the use case.
pub struct Request {
    /// The raw species number to fetch.
    pub number: u16,
}

/// Why the use case produced no record. Every failure path ends in exactly
/// one of these three; no lower-layer error detail leaks past this boundary.
#[derive(Clone, Copy, PartialEq, Eq, Structural, Debug)]
pub enum Error {
    /// The raw number failed range validation; the repository was never
    /// consulted.
    BadRequest,
    /// The number is valid but the repository holds no record for it.
    NotFound,
    /// The repository reported an internal failure, of whatever nature.
    Unknown,
}

/// The one outcome the use case may produce for a raw number against a
/// repository whose abstract state is the given table and health flag.
pub open spec fn fetch_outcome(
    number: u16,
    fails: bool,
    records: Map<u16, PokemonRecord>,
) -> Result<PokemonRecord, Error> {
    if !valid_raw(number) {
        Err(Error::BadRequest)
    } else if fails {
        Err(Error::Unknown)
    } else if records.contains_key(number) {
        Ok(records[number])
    } else {
        Err(Error::NotFound)
    }
}

/// Fetch the record stored under `req.number`.
///
/// The raw number is validated first; an out-of-range number is rejected as
/// [`Error::BadRequest`] and the repository is not consulted. For a valid
/// number the repository answers: a missing record becomes
/// [`Error::NotFound`], a storage failure becomes [`Error::Unknown`], and a
/// found record is returned exactly as the store holds it.
pub fn execute<R: Repository>(repo: &R, req: Request) -> (r: Result<PokemonRecord, Error>)
    ensures
        r == fetch_outcome(req.number, repo.fails(), repo.records()),
{
    match PokemonNumber::from_raw(req.number) {
        Err(_) => Err(Error::BadRequest),
        Ok(number) => match repo.find_by_number(number) {
            Ok(Some(record)) => Ok(record),
            Ok(None) => Err(Error::NotFound),
            Err(_) => Err(Error::Unknown),
        },
    }
}

/// An out-of-range number is rejected before any lookup: the outcome is
/// `BadRequest`, and it is the same whatever state any repository is in.
pub proof fn lemma_bad_request_ignores_repository(
    number: u16,
    fails1: bool,
    records1: Map<u16, PokemonRecord>,
    fails2: bool,
    records2: Map<u16, PokemonRecord>,
)
    requires
        !valid_raw(number),
    ensures
        fetch_outcome(number, fails1, records1) == Err::<PokemonRecord, Error>(Error::BadRequest),
        fetch_outcome(number, fails1, records1) == fetch_outcome(number, fails2, records2),
{
}

/// A valid number that a healthy repository holds no record for is
/// answered with `NotFound`.
pub proof fn lemma_not_found(number: u16, records: Map<u16, PokemonRecord>)
    requires
        valid_raw(number),
        !records.contains_key(number),
    ensures
        fetch_outcome(number, false, records) == Err::<PokemonRecord, Error>(Error::NotFound),
{
}

/// A faulty repository is answered with `Unknown`, for every valid number
/// and whatever its table holds: the failure's nature never shows.
pub proof fn lemma_unknown_on_storage_failure(number: u16, records: Map<u16, PokemonRecord>)
    requires
        valid_raw(number),
    ensures
        fetch_outcome(number, true, records) == Err::<PokemonRecord, Error>(Error::Unknown),
{
}

/// A valid number with a matching record is answered with exactly the
/// record the store holds: what was stored comes back unchanged.
pub proof fn lemma_found_returns_stored_record(number: u16, records: Map<u16, PokemonRecord>)
    requires
        valid_raw(number),
        records.contains_key(number),
    ensures
        fetch_outcome(number, false, records) == Ok::<PokemonRecord, Error>(records[number]),
{
}

/// Idempotence: the outcome is a function of the request and the
/// repository's abstract state alone, so repeated calls with the same
/// request against an unchanged repository agree.
pub proof fn lemma_idempotent(
    number: u16,
    fails: bool,
    records: Map<u16, PokemonRecord>,
    r1: Result<PokemonRecord, Error>,
    r2: Result<PokemonRecord, Error>,
)
    requires
        r1 == fetch_outcome(number, fails, records),
        r2 == fetch_outcome(number, fails, records),
    ensures
        r1 == r2,
{
}

} // verus!
