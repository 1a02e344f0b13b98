pub mod cli;
pub mod config;
pub mod feed;
pub mod paths;
pub mod quote;
