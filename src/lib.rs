//! C-style conditional expressions, `condition ? if_true : if_false`, turned
//! into `if condition { if_true } else { if_false }`.

pub mod laws;
pub mod scan;
pub mod ternary;

pub use ternary::t;
