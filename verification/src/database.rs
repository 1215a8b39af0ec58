pub mod guarantees;
pub mod memory;
pub mod model;
pub mod scratch;
