//! The externally selected display options: a report is rendered at one of
//! three verbosity tiers.
use vstd::prelude::*;

verus! {

/// Verbosity tier for rendered reports. Each higher tier appends content to
/// the lower tier's output, never reordering or removing it; `Minimal` is
/// always a prefix of `Default`, which is a prefix of `Detailed`.
#[derive(Debug, Copy, Clone, PartialEq, Eq, Structural)]
pub enum DisplayStyle {
    Default,
    Minimal,
    Detailed,
}

/// The command-line selection handed to the library by the caller.
#[derive(Debug, Copy, Clone, PartialEq, Eq, Structural)]
pub struct Cli {
    /// Display style
    pub style: DisplayStyle,
}

} // verus!
