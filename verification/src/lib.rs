pub mod camera;
pub mod ecs;
pub mod engine;
pub mod fbits;
pub mod i18n;
pub mod input;
pub mod math;
pub mod scene;

pub use fbits::Quat;
pub use fbits::Vec3;
