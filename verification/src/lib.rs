pub mod app;
pub mod converter;
pub mod export;
pub mod inspector;
pub mod metadata;
pub mod optimizer;
pub mod paths;
pub mod policy;
pub mod screens;
pub mod sorting;
pub mod text;
pub mod types;
pub mod update;
