pub mod api;
pub mod cache;
pub mod capture;
pub mod detection;
pub mod image;
pub mod item;
pub mod overlay;
pub mod store;
pub mod template;
