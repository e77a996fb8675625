//! The account service of a remote desktop server: users log in, get a session, keep an address
//! book, and the server asks whether a session is valid.
//!
//! Everything here is a decision: a request comes in, and the library says which command to run
//! on the database or what to reply; what came back from the command goes into the next decision.
//! Sockets, the database connection and the terminal belong to the program around it.

pub mod address;
pub mod address_book;
pub mod admin;
pub mod clock;
pub mod headers;
pub mod json;
pub mod laws;
pub mod login;
pub mod options;
pub mod password;
pub mod reply;
pub mod runs;
pub mod server;
pub mod session;
pub mod store;
pub mod text;
pub mod token;
