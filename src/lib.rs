//! Display-controller driver core: a transport-agnostic command/pixel
//! interface, pixel-format adapters and model initialization plans.

pub mod color;
pub mod interface;
pub mod models;

pub use models::st7735s::Builder;
