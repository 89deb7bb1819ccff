pub mod cavern;
pub mod data;
pub mod sprite;
