//! The verified core of the Shapoist rhythm game client: its stopwatch, the
//! judging of hits on notes, the bookkeeping of a chart's timeline, its texts
//! in several languages, the housekeeping of its files and the values that
//! its editor, buttons and settings exchange.

pub mod button;
pub mod chart;
pub mod command;
pub mod edit_page;
pub mod error;
pub mod init;
pub mod judge;
pub mod language;
pub mod note;
pub mod page;
pub mod play;
pub mod setting;
pub mod shader;
pub mod shape;
pub mod system_function;
pub mod text;
pub mod timer;
pub mod window;
