//! The plain values that configure a backend: the colour choice a caller
//! asks for, the write style a backend uses, and a verbosity filter.
use vstd::prelude::*;

verus! {

/// Whether a caller wants coloured output.
#[derive(Clone, Copy, Debug, PartialEq, Eq, Structural)]
pub enum ColorChoice {
    /// Always colour the output.
    Always,
    /// Never colour the output.
    Never,
    /// Colour the output when the stream looks like a terminal.
    CargoAuto,
}

/// How a backend styles what it writes.
#[derive(Clone, Copy, Debug, PartialEq, Eq, Structural)]
pub enum WriteStyle {
    /// Try to print styles, without forcing them.
    Auto,
    /// Always print styles.
    Always,
    /// Never print styles.
    Never,
}

/// The most verbose level that a backend lets through.
#[derive(Clone, Copy, Debug, PartialEq, Eq, Structural)]
pub enum FilterLevel {
    /// Nothing is let through.
    Off,
    /// Errors only.
    Error,
    /// Warnings and errors.
    Warn,
    /// Informational records and above.
    Info,
    /// Debugging records and above.
    Debug,
    /// Every record.
    Trace,
}

/// The write style that a colour choice selects.
pub open spec fn write_style_of(c: ColorChoice) -> WriteStyle {
    match c {
        ColorChoice::Always => WriteStyle::Always,
        ColorChoice::CargoAuto => WriteStyle::Auto,
        ColorChoice::Never => WriteStyle::Never,
    }
}

impl ColorChoice {
    /// The write style that this colour choice selects.
    pub fn write_style(self) -> (r: WriteStyle)
        ensures
            r == write_style_of(self),
    {
        match self {
            ColorChoice::Always => WriteStyle::Always,
            ColorChoice::CargoAuto => WriteStyle::Auto,
            ColorChoice::Never => WriteStyle::Never,
        }
    }
}

} // verus!
