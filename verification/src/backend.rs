pub mod interface;
pub mod openai;
