//! The parts that the screen is put together from.

pub mod confirm_prompt;
pub mod help_panel;
