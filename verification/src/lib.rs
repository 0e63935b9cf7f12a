//! Credential management and request authorization for a multi-resource API.
//!
//! The core of the library is the authentication subsystem: password hashing
//! (`hashing`), stateless signed session tokens (`token`), registration and
//! login over an abstract user directory (`directory`, `auth`), and the
//! request gate that admits or rejects bearer tokens on protected routes
//! (`gate`). Around it stand the plain data model (`model`, `request`,
//! `response`), the error taxonomy (`errors`), profile management (`users`),
//! the stores the resource services draw from (`repository`, `files`), and
//! small verified helpers (`pagination`, `slug`).

pub mod auth;
pub mod decimal;
pub mod directory;
pub mod errors;
pub mod files;
pub mod gate;
pub mod hashing;
pub mod model;
pub mod pagination;
pub mod repository;
pub mod request;
pub mod response;
pub mod slug;
pub mod token;
pub mod users;
