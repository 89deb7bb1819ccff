//! Cavern data decoding and actor simulation for a classic single-screen
//! platform game: packed colour attributes, one-bit bitmaps, the cavern
//! record format, and the per-tick rules for the player, the guardians,
//! the items, the portal and crumbling floors.

pub mod error;
pub mod color;
pub mod bitmap;
pub mod gamedata;
pub mod actors;
pub mod position;
pub mod cavern;
pub mod item;
pub mod willy;
pub mod guardian;
pub mod portal;
pub mod world;
