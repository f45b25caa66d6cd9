//! Inventory manager core for packages tracked by Homebrew.

pub mod app;
pub mod brew_info_response;
pub mod clock;
pub mod details;
pub mod events;
pub mod helpers;
pub mod keyed;
pub mod layout;
pub mod navigation;
pub mod operations;
pub mod package_info;
pub mod repository;
pub mod scheduler;
pub mod search;
pub mod status;
pub mod text;
pub mod version;
