//! A lightweight curses alternative: buffer-based cell drawing, a packed
//! 16-bit attribute codec, and typed input events unpacked from the raw
//! notification records of an underlying terminal-control library.
//!
//! Output is double-buffered: cell writes only touch the off-screen buffer
//! and become visible when the buffer is flushed to the display.
#![allow(non_camel_case_types)]

mod attr;
mod cells;
mod events;
mod session;

pub use attr::{color, style, convert_color, convert_style, convert_foreground, convert_background};
pub use attr::{color_code, style_code, foreground_attr, background_attr};
pub use attr::{lemma_color_codes_unique, lemma_style_codes_unique, lemma_attr_word_recoverable};
pub use cells::{cell_write, cell_write_of, print_cells, print_ch_cell};
pub use events::{raw_event, event, unpack_error, nil_raw_event, unpack_event, try_unpack_event};
pub use events::event_of;
pub use session::{session_outcome, wind_down, wind_down_of, with_term_wind_down};
pub use session::lemma_wind_down_total;
