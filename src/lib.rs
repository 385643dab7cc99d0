//! A check that two shaping requests give different glyph output on a font.

pub mod lemmas;
pub mod reporter;
pub mod shaping;
pub mod shaping_differs;
pub mod text;

pub use reporter::{Fix, Problem};
pub use shaping::{Checker, ShapingError, ShapingInput};
pub use shaping_differs::ShapingDiffers;
