//! What the start-up code of each chip family can be told.

pub mod nrf;
