//! A reminder list: named tasks with due times, classified as overdue or due
//! soon against a clock reading, rendered as display lines, and driven by a
//! line-oriented command language.

pub mod clock;
pub mod command;
pub mod item;
pub mod laws;
pub mod store;
pub mod text;
