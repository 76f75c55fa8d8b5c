//! In-terminal image previews: reads the EXIF orientation out of a file's TIFF block,
//! turns the decoded bitmap upright, fits it to a region of the terminal's cell grid, and
//! builds the graphics command that shows it, behind a flag that a cancelling party clears.

pub mod byte_order;
pub mod exif;
pub mod bitmap;
pub mod orientation;
pub mod scaling;
pub mod protocol;
pub mod gate;
pub mod preview;
