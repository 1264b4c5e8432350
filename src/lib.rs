pub mod adapter;
pub mod compat;
pub mod json;
pub mod merge;
pub mod sisyphus;
pub mod types;
