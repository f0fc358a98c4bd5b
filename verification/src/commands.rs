//! The handlers, one per command or control.

pub mod hello_world;
pub mod modify_sign;
pub mod sign_current;
pub mod sign_my_power;
pub mod sign_roll;
pub mod utils;
