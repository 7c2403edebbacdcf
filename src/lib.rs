//! Control core of a crop bed: spray scheduling against two PDMs, lighting, and the
//! decisions of the camera capture loop.
pub mod camera;
pub mod capture;
pub mod channels;
pub mod decimal;
pub mod lighting;
pub mod pdm;
pub mod power;
pub mod queue;
pub mod spray;
