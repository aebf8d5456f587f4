//! Verified core of the JH API server: the rules that decide who may do what,
//! how stored data is shaped and framed, and how errors are answered.

pub mod errors;
pub mod response;
pub mod text;
pub mod numbers;
pub mod permissions;
pub mod users;
pub mod json;
pub mod signing;
pub mod logging;
pub mod stores;
pub mod products;
pub mod ldap;
pub mod sql;
pub mod catchers;
pub mod access;
pub mod images;
pub mod versions;
