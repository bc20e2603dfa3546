//! Profile-page scraping engine: the retry policy of each retrieval, field
//! extraction from markup, and the per-page outcome model, walked over an id
//! range one page at a time.
pub mod driver;
pub mod fetch;
pub mod name;
pub mod outcome;
pub mod page;
pub mod photo;
pub mod text;
