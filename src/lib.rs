pub mod config;
pub mod keys;
pub mod clicker;
pub mod alarm;
pub mod laws;
