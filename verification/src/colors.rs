//! Named colours.

use vstd::prelude::*;
use crate::color::RgbColor;

verus! {

/// All channels dark.
pub fn off() -> (color: RgbColor)
    ensures
        color == (RgbColor { r: 0, g: 0, b: 0 }),
{
    RgbColor { r: 0, g: 0, b: 0 }
}

pub fn red() -> (color: RgbColor)
    ensures
        color == (RgbColor { r: 255, g: 0, b: 0 }),
{
    RgbColor { r: 255, g: 0, b: 0 }
}

pub fn green() -> (color: RgbColor)
    ensures
        color == (RgbColor { r: 0, g: 255, b: 0 }),
{
    RgbColor { r: 0, g: 255, b: 0 }
}

pub fn blue() -> (color: RgbColor)
    ensures
        color == (RgbColor { r: 0, g: 0, b: 255 }),
{
    RgbColor { r: 0, g: 0, b: 255 }
}

pub fn white() -> (color: RgbColor)
    ensures
        color == (RgbColor { r: 255, g: 255, b: 255 }),
{
    RgbColor { r: 255, g: 255, b: 255 }
}

pub fn yellow() -> (color: RgbColor)
    ensures
        color == (RgbColor { r: 255, g: 255, b: 0 }),
{
    RgbColor { r: 255, g: 255, b: 0 }
}

pub fn cyan() -> (color: RgbColor)
    ensures
        color == (RgbColor { r: 0, g: 255, b: 255 }),
{
    RgbColor { r: 0, g: 255, b: 255 }
}

pub fn magenta() -> (color: RgbColor)
    ensures
        color == (RgbColor { r: 255, g: 0, b: 255 }),
{
    RgbColor { r: 255, g: 0, b: 255 }
}

/// Dimmer versions, for button backgrounds.
pub fn dim_red() -> (color: RgbColor)
    ensures
        color == (RgbColor { r: 32, g: 0, b: 0 }),
{
    RgbColor { r: 32, g: 0, b: 0 }
}

pub fn dim_green() -> (color: RgbColor)
    ensures
        color == (RgbColor { r: 0, g: 32, b: 0 }),
{
    RgbColor { r: 0, g: 32, b: 0 }
}

pub fn dim_blue() -> (color: RgbColor)
    ensures
        color == (RgbColor { r: 0, g: 0, b: 32 }),
{
    RgbColor { r: 0, g: 0, b: 32 }
}

pub fn dim_white() -> (color: RgbColor)
    ensures
        color == (RgbColor { r: 32, g: 32, b: 32 }),
{
    RgbColor { r: 32, g: 32, b: 32 }
}

pub fn dim_yellow() -> (color: RgbColor)
    ensures
        color == (RgbColor { r: 32, g: 32, b: 0 }),
{
    RgbColor { r: 32, g: 32, b: 0 }
}

pub fn dim_cyan() -> (color: RgbColor)
    ensures
        color == (RgbColor { r: 0, g: 32, b: 32 }),
{
    RgbColor { r: 0, g: 32, b: 32 }
}

pub fn dim_magenta() -> (color: RgbColor)
    ensures
        color == (RgbColor { r: 32, g: 0, b: 32 }),
{
    RgbColor { r: 32, g: 0, b: 32 }
}

} // verus!
