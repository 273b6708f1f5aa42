//! A weekly South Indian meal planner: calendar handling, the built-in meal
//! templates, the offline week planner with its aggregated shopping list, the
//! configuration model and the text pieces of the Copilot chat exchange.
pub mod ai;
pub mod calendar;
pub mod config;
pub mod display;
pub mod laws;
pub mod models;
pub mod plan_laws;
pub mod planner;
pub mod quantity;
pub mod templates;
pub mod text;
