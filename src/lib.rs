//! Authentication, authorization and todo-cache logic of a server-rendered
//! todo list application, with its contracts proved by Verus.
//!
//! The web server, the database, the session store and the template engine
//! stay outside this crate: its functions take what those produce as plain
//! values and say exactly what follows from them.

pub mod cache;
pub mod credentials;
pub mod error;
pub mod gate;
pub mod model;
pub mod serialization;
pub mod service;
pub mod session;
pub mod text;
pub mod token;
pub mod web;
