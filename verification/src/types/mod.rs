pub mod output_format;
pub mod progress;

pub use output_format::OutputFormat;
pub use progress::ProgressState;
