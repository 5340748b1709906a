pub mod api;
pub mod core_foundation;
pub mod favorites;

pub use api::MacOsApi;
