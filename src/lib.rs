pub mod catalog;
pub mod matcher;
pub mod resolver;
pub mod text;
