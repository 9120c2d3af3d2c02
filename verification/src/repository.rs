//! The abstract storage capability the use case depends on, and an
//! in-memory store that implements it.

use vstd::prelude::*;
use crate::entities::PokemonNumber;

verus! {

/// The record the storage layer holds for one species.
#[derive(PartialEq, Eq, Debug)]
pub struct PokemonRecord {
    /// The validated number the record is stored under.
    pub number: PokemonNumber,
    /// The species name.
    pub name: String,
}

impl Clone for PokemonRecord {
    /// A clone is the record itself, field for field.
    fn clone(&self) -> (r: Self)
        ensures
            r == *self,
    {
        PokemonRecord { number: self.number, name: self.name.clone() }
    }
}

/// What the storage layer reports when it cannot answer at all: an I/O
/// fault, corruption, a timeout. The use case never inspects it further.
#[derive(Clone, Copy, PartialEq, Eq, Structural, Debug)]
pub enum RepositoryError {
    /// The store failed for a reason it does not care to distinguish.
    Unknown,
}

/// An abstract store of species records.
///
/// Its observable state is a table of records keyed by raw number
/// ([`Repository::records`]) together with a health flag
/// ([`Repository::fails`]). A healthy store answers every lookup truthfully
/// from its table; a faulty one reports an error and nothing else.
pub trait Repository {
    /// The records the store currently holds, keyed by raw species number.
    spec fn records(&self) -> Map<u16, PokemonRecord>;

    /// Whether the store is in a state in which lookups fail.
    spec fn fails(&self) -> bool;

    /// Look a record up by its validated number.
    ///
    /// A healthy store returns exactly the record stored under the number,
    /// or `None` when there is none (absence is not an error); a faulty
    /// store returns some storage error.
    fn find_by_number(&self, number: PokemonNumber) -> (r: Result<
        Option<PokemonRecord>,
        RepositoryError,
    >)
        ensures
            self.fails() ==> r is Err,
            !self.fails() ==> r == Ok::<Option<PokemonRecord>, RepositoryError>(
                if self.records().contains_key(number.spec_raw()) {
                    Some(self.records()[number.spec_raw()])
                } else {
                    None
                },
            ),
    ;
}

/// The table a sequence of records stands for: each record is filed under
/// its number, and on a repeated number the later record wins.
pub open spec fn stored_map(s: Seq<PokemonRecord>) -> Map<u16, PokemonRecord>
    decreases s.len(),
{
    if s.len() == 0 {
        Map::empty()
    } else {
        stored_map(s.drop_last()).insert(s.last().number.spec_raw(), s.last())
    }
}

/// An in-memory store: the substitutable double a caller can run the use
/// case against, with a switch that makes it simulate a storage fault.
pub struct InMemoryRepository {
    error: bool,
    pokemons: Vec<PokemonRecord>,
}

impl InMemoryRepository {
    /// An empty, healthy store.
    pub fn new() -> (r: InMemoryRepository)
        ensures
            !r.fails(),
            r.records() == Map::<u16, PokemonRecord>::empty(),
    {
        InMemoryRepository { error: false, pokemons: Vec::new() }
    }

    /// The same store, switched into a faulty state: from now on every
    /// lookup reports a storage error.
    pub fn with_error(self) -> (r: InMemoryRepository)
        ensures
            r.fails(),
            r.records() == self.records(),
    {
        InMemoryRepository { error: true, pokemons: self.pokemons }
    }

    /// Store a record under its number; a record already filed under the
    /// same number is replaced.
    pub fn insert(&mut self, record: PokemonRecord)
        ensures
            final(self).fails() == old(self).fails(),
            final(self).records() == old(self).records().insert(
                record.number.spec_raw(),
                record,
            ),
    {
        let ghost before = self.pokemons@;
        self.pokemons.push(record);
        proof {
            assert(self.pokemons@.drop_last() =~= before);
        }
    }
}

impl Repository for InMemoryRepository {
    closed spec fn records(&self) -> Map<u16, PokemonRecord> {
        stored_map(self.pokemons@)
    }

    closed spec fn fails(&self) -> bool {
        self.error
    }

    fn find_by_number(&self, number: PokemonNumber) -> (r: Result<
        Option<PokemonRecord>,
        RepositoryError,
    >) {
        if self.error {
            return Err(RepositoryError::Unknown);
        }
        let n: u16 = number.raw();
        let mut i: usize = self.pokemons.len();
        proof {
            assert(self.pokemons@.take(i as int) =~= self.pokemons@);
        }
        while i > 0
            invariant
                !self.error,
                i <= self.pokemons.len(),
                n == number.spec_raw(),
                stored_map(self.pokemons@).contains_key(n) == stored_map(
                    self.pokemons@.take(i as int),
                ).contains_key(n),
                stored_map(self.pokemons@).contains_key(n) ==> stored_map(self.pokemons@)[n]
                    == stored_map(self.pokemons@.take(i as int))[n],
            decreases i,
        {
            i = i - 1;
            proof {
                assert(self.pokemons@.take(i as int + 1).drop_last() =~= self.pokemons@.take(
                    i as int,
                ));
            }
            if self.pokemons[i].number.raw() == n {
                return Ok(Some(self.pokemons[i].clone()));
            }
        }
        proof {
            assert(!stored_map(self.pokemons@.take(0)).contains_key(n));
        }
        Ok(None)
    }
}

} // verus!
