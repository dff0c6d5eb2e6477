//! A text console for a freestanding kernel: sixteen-colour attributes, the
//! 25 x 80 character grid of the display adapter, and a writer that puts
//! bytes on its last row, wraps at the right edge and scrolls on line feed.

pub mod boot;
pub mod buffer;
pub mod cell;
pub mod color;
pub mod screen;
pub mod writer;

pub use boot::KERNEL_STACK_SIZE;
pub use buffer::{Buffer, BUF_HEIGHT, BUF_WIDTH};
pub use cell::VGAChar;
pub use color::{VGAColor, VGAPalette};
pub use screen::Screen;
pub use writer::Writer;
