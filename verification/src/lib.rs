//! The decisions of a web search service that answers from a search-capable
//! language model and backs its answers with web sources.

pub mod answer;
pub mod budget;
pub mod cache;
pub mod config;
pub mod doctor;
pub mod enrich;
pub mod error;
pub mod fetch;
pub mod gather;
pub mod laws;
pub mod model;
pub mod paging;
pub mod plan;
pub mod pool;
pub mod provider;
pub mod request;
pub mod search;
pub mod service;
pub mod session;
pub mod sitemap;
pub mod text;
pub mod urls;
