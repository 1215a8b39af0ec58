pub mod agent;
pub mod interactions;
pub mod stamps;
