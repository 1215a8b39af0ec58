pub mod builder;
pub mod methods;
pub mod structure;
