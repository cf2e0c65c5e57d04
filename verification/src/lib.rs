//! Technology-news tracking: article identity, in-memory stores and
//! keyword trend reports.

pub mod aggregate;
pub mod article;
pub mod error;
pub mod gateway;
pub mod http;
pub mod ingest;
pub mod persist;
pub mod ranking;
pub mod repo;
pub mod repository;
pub mod shared;
pub mod text;
pub mod text_map;
pub mod trend;
pub mod usecase;
pub mod user;
