//! Core logic of the mmp music server: song metadata, the in-memory music
//! library, the search-index layout, cover and stream handling.

pub mod text;
pub mod files;
pub mod song;
pub mod songfile;
pub mod library;
pub mod paths;
pub mod stream;
pub mod search;
pub mod schema;
pub mod routes;
pub mod tasks;
