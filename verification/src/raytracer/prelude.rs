//! The names that a program which builds and renders a scene needs.
pub use crate::raytracer::basics::Albedo;
pub use crate::raytracer::basics::Color;
pub use crate::raytracer::basics::Interval;
pub use crate::raytracer::basics::Position;
pub use crate::raytracer::basics::Vector;
pub use crate::raytracer::scalar::Scalar;
pub use crate::raytracer::world::background::Background;
pub use crate::raytracer::world::background::DummyBackground;
pub use crate::raytracer::world::background::Sky;
pub use crate::raytracer::world::objects::box_3d::AABBox;
pub use crate::raytracer::world::objects::light::Light;
pub use crate::raytracer::world::objects::material::Material;
pub use crate::raytracer::world::objects::sphere::GradientSphere;
pub use crate::raytracer::world::objects::sphere::Sphere;
pub use crate::raytracer::world::objects::Visible;
pub use crate::raytracer::world::scene::ray_cast::Lambertian;
pub use crate::raytracer::world::scene::ray_cast::MonteCarlo;
pub use crate::raytracer::world::scene::ray_cast::RayCastStrategy;
pub use crate::raytracer::world::scene::Scene;
pub use crate::raytracer::world::scene::SceneData;
