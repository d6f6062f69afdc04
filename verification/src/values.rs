use vstd::prelude::*;

verus! {

/// How the layers of a blended image are combined.
#[derive(Clone, Copy, Debug, PartialEq, Eq, Structural)]
pub enum BlendType {
    Linear,
    Gradient,
    Screen,
}

/// A function that may be applied to a noise field.
#[derive(Clone, Copy, Debug, PartialEq, Eq, Structural)]
pub enum FunctionType {
    LogarithmE,
    Sin,
    Cos,
    Tan,
}

/// The height in pixels of every generated image.
pub const HEIGHT: u16 = 2500;

/// The width in pixels of every generated image.
pub const WIDTH: u16 = 2500;

} // verus!
