//! Extraction and normalisation of the results of national popular votes:
//! the text of a result page goes in, typed records come out.

pub mod constants;
pub mod converters;
pub mod data;
pub mod extractors;
pub mod markup;
pub mod pattern;
pub mod pipeline;
pub mod table;
pub mod text;
