pub mod cargo;
pub mod doc;
pub mod events;
pub mod grouping;
pub mod pattern;
pub mod process;
pub mod text;
