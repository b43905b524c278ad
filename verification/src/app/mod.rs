pub mod browser;
pub mod controller;
pub mod events;
pub mod state;

pub use browser::Browser;
pub use controller::AppController;
pub use state::{AppState, MenuItem, MetaField, OptimizeField, OptimizeProgress, OptimizeStep, OptimizeSummary, Screen};
