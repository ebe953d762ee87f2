//! Core of a deferred-shading renderer, modelled at the value level.
//!
//! The library owns the decisions of the pipeline: which primitive kinds
//! exist, what a render list and an instancing buffer hold, how a point
//! light's influence radius is derived from its attenuation, and which draw
//! operations a light pass issues in which order.  GPU submission itself is
//! left to an executor around the library, which carries out the returned
//! command plans.

use vstd::prelude::*;

pub mod basic_obj;
pub mod deferred;
pub mod light;
pub mod render_pass;

verus! {

/// Failure while building a long-lived rendering resource.
#[derive(Copy, Clone, PartialEq, Eq, Structural, Debug)]
pub enum CreationError {
    /// The mesh set handed to the registry does not cover every primitive kind.
    IncompleteMeshSet,
}

/// Failure while preparing a frame's draw work.
#[derive(Copy, Clone, PartialEq, Eq, Structural, Debug)]
pub enum DrawError {
    /// A light's channels exceed the representable range of the fixed-point model.
    LightOutOfRange,
}

} // verus!
