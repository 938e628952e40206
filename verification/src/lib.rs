//! imkitchen: the recipe library of a kitchen planner, with its proofs.

#![allow(unused_imports)]

pub mod admin;
pub mod forms;
pub mod history;
pub mod import;
pub mod json;
pub mod projection;
pub mod recipe;
pub mod text;
pub mod web;
