//! A small authentication service: it issues signed identity tokens that
//! are good for 24 hours, verifies the tokens that clients present, and
//! counts both operations and the time they take.
//!
//! - [`keys`] loads the RSA key pair, once.
//! - [`codec`] turns a subject into a signed token and a token back into
//!   claims, under one fixed policy: RS256 and no other algorithm, and no
//!   token past its expiry.
//! - [`service`] wraps the codec into the two operations `issue` and
//!   `verify`, which measure and count themselves.
//! - [`app_state`] holds the counters, [`report`] the averages.
//! - [`views`] gives results and options their mathematical values.
//! - [`jwt`] and [`clock`] hold what is taken on trust: the calls into
//!   `jsonwebtoken`, `chrono` and the clocks of `std`.
//!
//! The library does no I/O and holds no lock: a host reads the key files,
//! keeps the counters of each operation behind a lock, and speaks HTTP.

pub mod app_state;
pub mod claims;
pub mod clock;
pub mod codec;
pub mod errors;
pub mod jwt;
pub mod keys;
pub mod report;
pub mod service;
pub mod views;
