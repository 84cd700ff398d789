pub mod basics;
pub mod camera;
pub mod prelude;
pub mod scalar;
pub mod world;
