//! A deeply nested module whose item is bound to a shorter name at the
//! crate root by a `use` alias.

pub mod nested;
