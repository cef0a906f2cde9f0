pub mod decimal;
pub mod importers;
pub mod utils;
