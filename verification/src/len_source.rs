use vstd::prelude::*;

verus! {

/// What limited the number of bytes that were available to a decoder.
#[derive(Clone, Copy, Debug, PartialEq, Eq, Hash, Structural)]
pub enum LenSource {
    /// The length of the byte buffer that was handed in.
    Slice,
    /// A length field of a header that was already decoded.
    Specified,
}

impl LenSource {
    /// The name of the source as it stands in messages.
    pub open spec fn spec_name(self) -> Seq<char> {
        match self {
            LenSource::Slice => "slice length"@,
            LenSource::Specified => "length that a header declares"@,
        }
    }

    /// The name of the source as it stands in messages.
    pub fn name(self) -> (name: &'static str)
        ensures
            name@ == self.spec_name(),
    {
        match self {
            LenSource::Slice => "slice length",
            LenSource::Specified => "length that a header declares",
        }
    }
}

} // verus!
