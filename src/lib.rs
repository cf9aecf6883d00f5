//! A fixed-capacity buffer shared by producers and consumers, and the
//! decisions of the monitor that guards it.

pub mod buffer;
pub mod monitor;
pub mod text;

pub use buffer::BoundedBuffer;
