//! Extraction of an academic calendar (the academic year and its numbered
//! study periods) from the text of a published HTML page.
//!
//! The library works on document text that the caller has fetched. It finds
//! the year marker, selects table rows that mention a study period, and turns
//! each such row into a typed period record. Every step is stated over
//! mathematical models and proved.
pub mod errors;
pub mod date;
pub mod patterns;
pub mod text;
pub mod document;
pub mod study_period;
pub mod study_year;
