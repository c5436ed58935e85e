//! What an engine offers the compositor: responding to input, rendering,
//! and being told of outputs and inputs as they come and go.

use vstd::prelude::*;

verus! {

/// Why an engine could not do what it was asked: its own description of
/// the failure.
#[derive(Debug, PartialEq, Eq)]
pub struct EngineError {
    pub message: String,
}

/// Something that responds to user input.
pub trait Update<UpdateParams> {
    /// Respond to input.
    fn update(&mut self, context: UpdateParams) -> Result<(), EngineError>;
}

/// Something that can be rendered to a display.
pub trait Render<'r, RenderParams> {
    /// Render to the display.
    fn render(&'r mut self, context: &'r mut RenderParams) -> Result<(), EngineError>;
}

/// Something told of outputs as they come and go.
pub trait Outputs {
    /// Called when an output is added.
    fn output_added(&mut self, name: &str, screen: usize, width: i32, height: i32) -> Result<
        (),
        EngineError,
    >;

    /// Called when an output's properties change.
    fn output_changed(&mut self) -> Result<(), EngineError>;

    /// Called when an output is removed.
    fn output_removed(&mut self) -> Result<(), EngineError>;
}

/// Something told of inputs as they come and go.
pub trait Inputs {
    /// Called when an input is added.
    fn input_added(&mut self, name: &str) -> Result<(), EngineError>;

    /// Called when an input's properties change.
    fn input_changed(&mut self) -> Result<(), EngineError>;

    /// Called when an input is removed.
    fn input_removed(&mut self) -> Result<(), EngineError>;
}

} // verus!
