//! The front end of a 2D canvas: a drawing context that keeps the state a script sets (the
//! transform, the fill and the stroke colour, the smoothing of images) and turns every drawing
//! call into a command for a rendering worker, which alone holds the pixels.
//!
//! Numbers come in as IEEE 754 bit patterns and are worked on with integers: `double` and
//! `single` hold the two formats, `ieee` the rounding that both share. `geometry` and
//! `draw_image` settle which rectangles a `drawImage` call reads and writes. `canvas_msg` has
//! the commands and the channel that keeps their order, `context` the drawing context itself.

pub mod canvas_msg;
pub mod color;
pub mod context;
pub mod double;
pub mod draw_image;
pub mod error;
pub mod geometry;
pub mod ieee;
pub mod image_data;
pub mod matrix;
pub mod single;
pub mod style;
