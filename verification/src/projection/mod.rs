//! Read models.
//!
//! Each projection says what one event does to one row of a table: it takes
//! the row that stands under the id of the event, if there is one, and gives
//! the row to put in its place, or none to take it out. Replaying an event
//! leads to the same row.

pub mod recipe_imports_view;
pub mod recipes_view;
