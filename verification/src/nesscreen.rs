use vstd::prelude::*;
use crate::error::NesError;

verus! {

/// One call of `draw_pixel`: a position on the screen and a colour as red,
/// green and blue.
#[derive(Clone, Copy, Debug, PartialEq, Eq)]
pub struct Pixel {
    pub x: u8,
    pub y: u8,
    pub rgb: (u8, u8, u8),
}

/// Where the console shows its picture. A frame is what was drawn between
/// two calls of `vblank`.
pub trait NesScreen {
    /// Colours the pixel in column `x`, 0 to 255, and row `y`, 0 to 239.
    fn draw_pixel(&mut self, x: u8, y: u8, rgb: (u8, u8, u8)) -> Result<(), NesError>;

    /// Tells the screen that the frame is complete.
    fn vblank(&mut self) -> Result<(), NesError>;
}

/// A screen that shows nothing.
pub struct NoScreen;

impl NesScreen for NoScreen {
    fn draw_pixel(&mut self, x: u8, y: u8, rgb: (u8, u8, u8)) -> (res: Result<(), NesError>)
        ensures
            res == Ok::<(), NesError>(()),
    {
        Ok(())
    }

    fn vblank(&mut self) -> (res: Result<(), NesError>)
        ensures
            res == Ok::<(), NesError>(()),
    {
        Ok(())
    }
}

} // verus!
