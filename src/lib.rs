pub mod angle;
pub mod geometry;
pub mod params;
pub mod scene;
pub mod laws;
pub mod hierarchy;
