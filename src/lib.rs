//! A coffee-brewing review form: the catalog of coffees, the form state and its edits,
//! the assembly of a submission payload, and the status of a sent submission.

pub mod catalog;
pub mod form;
pub mod input;
pub mod models;
pub mod selection;
pub mod submission;
