pub mod laws;
pub mod level_id;
pub mod traversal;
pub mod unit;
pub mod world;
