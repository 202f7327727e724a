//! Column generation for multiplication in a twelfth degree extension field over a 384 bit prime
//! field.

pub mod algebra;
pub mod chip;
pub mod columns;
pub mod constraints;
pub mod digits;
pub mod formulas;
pub mod fp12;
pub mod fp6;
pub mod fp6_mul;
pub mod groups;
pub mod laws;
pub mod layout;
pub mod memory;
pub mod model;
pub mod natural;
pub mod representation;
