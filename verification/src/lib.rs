//! The decisions of a search-augmented language model API server.

pub mod arguments;
pub mod cli;
pub mod info;
pub mod models;
pub mod pages;
pub mod path;
pub mod routes;
pub mod search;
pub mod startup;
pub mod text;
