//! Decoding of animated GIFs into BGRA frames, and the decisions of a viewer
//! that shows them frame by frame.

pub mod pixels;
pub mod gif_processor;
pub mod viewer;
