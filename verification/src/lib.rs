pub mod components;
pub mod config;
pub mod error;
pub mod git;
pub mod github;
pub mod languages;
pub mod links;
pub mod pipeline;
pub mod platform;
pub mod shellwords;
pub mod strutil;
pub mod table;
pub mod utils;
