//! Small verified building blocks: an interactive Fibonacci calculator's
//! logic, plus a handful of string, struct and enum helpers.
pub mod fibonacci;
pub mod session;
pub mod ownership;
pub mod borrowing;
pub mod slices;
pub mod rectangle;
pub mod user;
pub mod ip_addr;
