pub mod app_lifecycle;
pub mod assoc;
pub mod chords;
pub mod chordsapp;
pub mod commands;
pub mod constants;
pub mod context;
pub mod feature;
pub mod frontmost;
pub mod input;
pub mod js;
pub mod mode;
pub mod order;
pub mod paths;
pub mod readline;
pub mod sources;
pub mod store;
pub mod text;
