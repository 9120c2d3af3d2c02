//! Fetching a Pokémon by its number, with the domain logic verified.
//!
//! The crate separates a validated identifier type ([`entities`]), an
//! abstract storage capability ([`repository`]), and the use case that
//! orchestrates validation, lookup and error mapping ([`fetch_pokemon`]).

pub mod entities;
pub mod fetch_pokemon;
pub mod repository;
