use pokedex::entities::PokemonNumber;
use pokedex::entities::ValidationError;
use pokedex::fetch_pokemon::execute;
use pokedex::fetch_pokemon::Error;
use pokedex::fetch_pokemon::Request;
use pokedex::repository::InMemoryRepository;
use pokedex::repository::PokemonRecord;

fn pikachu_number() -> PokemonNumber {
    PokemonNumber::from_raw(25).unwrap()
}

fn pikachu_record() -> PokemonRecord {
    PokemonRecord { number: pikachu_number(), name: String::from("Pikachu") }
}

#[test]
fn it_should_return_an_unknown_error_when_an_unexpected_error_happens() {
    let repo = InMemoryRepository::new().with_error();
    let req = Request { number: 25 };

    let res = execute(&repo, req);

    match res {
        Err(Error::Unknown) => {}
        _ => unreachable!(),
    };
}

#[test]
fn it_should_return_a_bad_request_error_when_request_is_invalid() {
    let repo = InMemoryRepository::new();
    let req = Request { number: 0 };

    let res = execute(&repo, req);

    match res {
        Err(Error::BadRequest) => {}
        _ => unreachable!(),
    };
}

#[test]
fn it_should_return_a_not_found_error_when_the_repo_does_not_contain_the_pokemon() {
    let repo = InMemoryRepository::new();
    let req = Request { number: 25 };

    let res = execute(&repo, req);

    match res {
        Err(Error::NotFound) => {}
        _ => unreachable!(),
    };
}

#[test]
fn it_should_return_the_stored_record_when_the_repo_contains_the_pokemon() {
    let mut repo = InMemoryRepository::new();
    repo.insert(pikachu_record());

    let res = execute(&repo, Request { number: 25 });

    assert_eq!(res, Ok(pikachu_record()));
}

#[test]
fn it_should_return_an_unknown_error_even_when_a_record_is_stored() {
    let mut repo = InMemoryRepository::new();
    repo.insert(pikachu_record());
    let repo = repo.with_error();

    let res = execute(&repo, Request { number: 25 });

    assert_eq!(res, Err(Error::Unknown));
}

#[test]
fn it_should_return_a_bad_request_error_without_consulting_a_faulty_repo() {
    let repo = InMemoryRepository::new().with_error();

    let res = execute(&repo, Request { number: 0 });

    assert_eq!(res, Err(Error::BadRequest));
}

#[test]
fn it_should_reject_every_number_above_the_known_range() {
    let repo = InMemoryRepository::new();

    assert_eq!(execute(&repo, Request { number: 899 }), Err(Error::BadRequest));
    assert_eq!(execute(&repo, Request { number: u16::MAX }), Err(Error::BadRequest));
}

#[test]
fn it_should_accept_the_bounds_of_the_known_range() {
    let repo = InMemoryRepository::new();

    assert_eq!(execute(&repo, Request { number: 1 }), Err(Error::NotFound));
    assert_eq!(execute(&repo, Request { number: 898 }), Err(Error::NotFound));
}

#[test]
fn it_should_give_the_same_result_on_repeated_calls() {
    let mut repo = InMemoryRepository::new();
    repo.insert(pikachu_record());

    let first = execute(&repo, Request { number: 25 });
    let second = execute(&repo, Request { number: 25 });

    assert_eq!(first, second);
    assert_eq!(first, Ok(pikachu_record()));
}

#[test]
fn it_should_replace_a_record_stored_under_the_same_number() {
    let mut repo = InMemoryRepository::new();
    repo.insert(pikachu_record());
    repo.insert(PokemonRecord { number: pikachu_number(), name: String::from("Raichu") });

    let res = execute(&repo, Request { number: 25 });

    assert_eq!(res, Ok(PokemonRecord { number: pikachu_number(), name: String::from("Raichu") }));
}

#[test]
fn it_should_find_a_record_among_several() {
    let mut repo = InMemoryRepository::new();
    repo.insert(PokemonRecord {
        number: PokemonNumber::from_raw(1).unwrap(),
        name: String::from("Bulbasaur"),
    });
    repo.insert(pikachu_record());
    repo.insert(PokemonRecord {
        number: PokemonNumber::from_raw(898).unwrap(),
        name: String::from("Calyrex"),
    });

    assert_eq!(execute(&repo, Request { number: 25 }), Ok(pikachu_record()));
    assert_eq!(execute(&repo, Request { number: 4 }), Err(Error::NotFound));
}

#[test]
fn number_validation_accepts_exactly_the_known_range() {
    assert_eq!(PokemonNumber::from_raw(0), Err(ValidationError::OutOfRange));
    assert_eq!(PokemonNumber::from_raw(899), Err(ValidationError::OutOfRange));
    assert_eq!(PokemonNumber::from_raw(u16::MAX), Err(ValidationError::OutOfRange));
    assert!(PokemonNumber::from_raw(1).is_ok());
    assert!(PokemonNumber::from_raw(25).is_ok());
    assert!(PokemonNumber::from_raw(898).is_ok());
}

#[test]
fn number_round_trips_to_its_raw_value() {
    assert_eq!(PokemonNumber::from_raw(1).unwrap().raw(), 1);
    assert_eq!(PokemonNumber::from_raw(25).unwrap().raw(), 25);
    assert_eq!(PokemonNumber::from_raw(898).unwrap().raw(), 898);
}
