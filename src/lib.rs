pub mod event;
pub mod labels;
pub mod normalize;
pub mod wire;
pub mod raw_input;
pub mod daemon;
pub mod laws;
pub mod commands;
