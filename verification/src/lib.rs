//! A system-information display library: it turns host readings and a
//! display configuration into the text lines that a terminal shows beside
//! a piece of ASCII art.

pub mod art;
pub mod cli;
pub mod config;
pub mod display;
pub mod facts;
pub mod info;
pub mod metadata;
pub mod paint;
pub mod system_info;
pub mod text;
