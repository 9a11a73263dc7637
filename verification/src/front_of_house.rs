//! The guest-facing side of the toy restaurant.
pub mod hosting;
