//! A small to-do service core: the data it stores, the statements it sends to
//! the store, the errors it distinguishes and the HTTP answers it gives.

pub mod columns;
pub mod data;
pub mod db;
pub mod error;
pub mod handler;
pub mod route;
pub mod scan;
