//! A sand timer for the terminal: the countdown state machine and the
//! size-adaptive layout that turns a timer snapshot into positioned, coloured
//! blocks of text.

pub mod app;
pub mod args;
pub mod clock;
pub mod events;
pub mod glyphs;
pub mod layout;
pub mod ui;
