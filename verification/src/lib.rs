//! The verified core of a service that keeps, for each account, a Merkle tree
//! of the messages written to it.
pub mod db;
pub mod models;
pub mod routes;
pub mod text;
pub mod utils;
pub mod verifier_service;
