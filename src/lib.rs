//! Turns the `layout` attributes of a markup text into CSS rules.
pub mod area;
pub mod builder;
pub mod classes;
pub mod component_css;
pub mod components;
pub mod media_query;
pub mod parser;
pub mod render;
pub mod rules;
pub mod scaled;
pub mod styles;
pub mod text;
pub mod tokens;
pub mod utilities;
