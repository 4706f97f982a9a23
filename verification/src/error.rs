use vstd::prelude::*;

verus! {

/// The ways in which the console can fail. Every failure is handed to the
/// caller of the operation that met it; nothing is retried.
#[derive(Clone, Copy, Debug, PartialEq, Eq, Structural)]
pub enum NesError {
    /// The image is not an iNES 1.0 file: wrong tag, wrong header version,
    /// or fewer bytes than its header announces.
    UnsupportedFormat,
    /// The image asks for a mapper, or a mapper mode, that is not emulated.
    UnsupportedMapper,
    /// An access decoded to a region where nothing answers.
    BusError,
    /// A value outside the range that an operation accepts.
    InvalidArgument,
    /// A screen or audio sink refused a call.
    SinkError,
}

} // verus!
