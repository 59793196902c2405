//! A small library behind an episode-ranking web page: it validates raw
//! query parameters into a filter configuration, ranks and filters the
//! episode catalog, and builds the selector view-models handed to a renderer.

pub mod assembler;
pub mod episodes;
pub mod parse;
pub mod presenters;
pub mod ranking;
pub mod validate;
