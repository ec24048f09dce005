pub mod api;
pub mod dispatch;
pub mod edge;
pub mod edge_manual;
pub mod edge_winit;
pub mod error;
pub mod text;

pub use error::Error;
