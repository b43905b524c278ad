pub mod ai;
pub mod apply;

pub use apply::apply;
