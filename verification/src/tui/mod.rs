pub mod app;
pub mod input;
pub mod view;
