//! The application's stored settings: profiles, and the executables that
//! each profile lists. Reading and writing the store is the caller's part.

pub mod app_config;
pub mod executables;
pub mod profile;
