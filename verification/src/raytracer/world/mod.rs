pub mod background;
pub mod objects;
pub mod scene;
