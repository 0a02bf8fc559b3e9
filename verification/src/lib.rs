//! Core model of trade orders for an electronic execution venue: the `Order`
//! aggregate with sentinel-based optional fields, a library of named order
//! presets, and a composable family of trigger conditions with a fixed
//! field-level serialization.

pub mod common;
pub mod fields;
pub mod order_condition;
pub mod order;
pub mod presets;
pub mod display;
