//! Driver core for a 128x250 four-color e-paper panel: a packed 2-bit-per-pixel
//! framebuffer, an encoder from logical panel commands to (opcode, payload) wire
//! pairs, and the sequencing state machine that decides which transactions,
//! delays and busy polls each driver operation performs.
//!
//! The hardware lines themselves (serial bus, data/command select, reset and
//! busy pins) live outside this crate: every operation here returns the exact
//! sequence of bus actions to perform, and an unverified runner executes them.

use vstd::prelude::*;

mod jd79661;
mod jd79661_display;
mod theme;

pub use jd79661::actions_view;
pub use jd79661::bus_ops_view;
pub use jd79661::busy_wait_step;
pub use jd79661::command_list;
pub use jd79661::command_list_views;
pub use jd79661::decode;
pub use jd79661::encode;
pub use jd79661::encode_decode_roundtrip;
pub use jd79661::init_sequence;
pub use jd79661::init_transaction_views;
pub use jd79661::init_wire_pairs;
pub use jd79661::opcode_of;
pub use jd79661::payload_of;
pub use jd79661::power_down_views;
pub use jd79661::power_up_views;
pub use jd79661::reset_pulse_views;
pub use jd79661::transaction_op_views;
pub use jd79661::transaction_ops;
pub use jd79661::wire_pair;
pub use jd79661::Action;
pub use jd79661::ActionView;
pub use jd79661::BusOp;
pub use jd79661::BusOpView;
pub use jd79661::Command;
pub use jd79661::PowerState;
pub use jd79661::JD79661;
pub use jd79661_display::apply_pixel;
pub use jd79661_display::apply_pixels;
pub use jd79661_display::byte_index;
pub use jd79661_display::fill_byte;
pub use jd79661_display::in_bounds;
pub use jd79661_display::lemma_clipped_pixels_leave_buffer;
pub use jd79661_display::lemma_fill_byte_readback;
pub use jd79661_display::lemma_pixel_readback;
pub use jd79661_display::lemma_write_readback;
pub use jd79661_display::pixel_code_in_byte;
pub use jd79661_display::pixel_shift;
pub use jd79661_display::write_pixel_byte;
pub use jd79661_display::JD79661Color;
pub use jd79661_display::JD79661Display;
pub use jd79661_display::JD79661Theme;
pub use jd79661_display::X_OFFSET;
pub use theme::Theme;

verus! {

/// Width of the panel in pixels.
pub const WIDTH: usize = 128;

/// Height of the panel in pixels.
pub const HEIGHT: usize = 250;

/// Bits per pixel in the packed wire format.
pub const PIXDEPTH: usize = 2;

/// Bytes in one packed framebuffer row: four pixels per byte.
pub const BYTES_PER_ROW: usize = WIDTH * PIXDEPTH / 8;

/// Total bytes in the packed framebuffer.
pub const BUFFER_LENGTH: usize = WIDTH * HEIGHT * PIXDEPTH / 8;

} // verus!
