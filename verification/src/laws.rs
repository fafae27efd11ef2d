//! What holds of the bring-up as a whole.

pub mod bringup;
pub mod fields;
pub mod steps;
pub mod values;
