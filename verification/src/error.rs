use vstd::prelude::*;

verus! {

/// The reasons for which a copy request is turned down.
///
/// Every one of them is found before the first element is written, so a
/// rejected request leaves the buffer as it was.
#[derive(Clone, Copy, Debug, PartialEq, Eq, Structural)]
pub enum CopyError {
    /// The source range starts after its own end.
    InvertedRange,
    /// The source range ends past the end of the buffer.
    SourceOutOfBounds,
    /// The destination window ends past the end of the buffer.
    DestOutOfBounds,
    /// A bound of the source range names an index that `usize` cannot hold.
    BoundOverflow,
}

impl CopyError {
    /// The text of [`CopyError::message`].
    pub open spec fn message_text(self) -> Seq<char> {
        match self {
            CopyError::InvertedRange => "src end is before src start"@,
            CopyError::SourceOutOfBounds => "src is out of bounds"@,
            CopyError::DestOutOfBounds => "dest is out of bounds"@,
            CopyError::BoundOverflow => "range bound overflows usize"@,
        }
    }

    /// A short description of the error, fit for a panic message or a log line.
    pub fn message(self) -> (text: &'static str)
        ensures
            text@ == self.message_text(),
    {
        match self {
            CopyError::InvertedRange => "src end is before src start",
            CopyError::SourceOutOfBounds => "src is out of bounds",
            CopyError::DestOutOfBounds => "dest is out of bounds",
            CopyError::BoundOverflow => "range bound overflows usize",
        }
    }
}

} // verus!
