//! The verified core of an address-book and login server for remote-desktop
//! clients: account registration and login with Argon2 password hashes,
//! signed access tokens with a one-week lifetime, the authentication
//! middleware's decisions, the address book's storage format, and the
//! database schema. Database access, HTTP and JSON (de)serialisation are
//! left to the program around the library.

pub mod account;
pub mod address_book;
pub mod api;
pub mod auth;
pub mod auth_new;
pub mod clock;
mod fresh;
pub mod gate;
pub mod hash;
pub mod ids;
pub mod m20220101_000001_create_table;
pub mod m20220101_000002_create_table;
pub mod peer;
pub mod routes;
pub mod schema;
pub mod tag;
pub mod text;
pub mod token;
pub mod user;

pub use auth::{Authentication, AuthenticationMiddleware};
pub use auth_new::{Auth, AuthMiddleware};
pub use token::UserToken;
