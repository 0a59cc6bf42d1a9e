//! What is shown: the rows, texts and styles of each part of the screen,
//! ready for a terminal to paint.

pub mod confirm;
pub mod draw;
pub mod help;
