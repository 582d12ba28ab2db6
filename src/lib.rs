//! Host logic for a window that shows a decoded video with a widget layer
//! composited over it in one shared graphics context.
//!
//! The platform window, the decoding engine and the widget toolkit live
//! outside this library; what is here decides, cycle by cycle, what the host
//! does with them, and in what order.

pub mod geometry;
pub mod ui;
pub mod events;
pub mod driver;
pub mod boundary;

