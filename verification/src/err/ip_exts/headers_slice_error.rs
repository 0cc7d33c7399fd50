use vstd::prelude::*;

use crate::err::ip_exts::header_error::HeaderError;
use crate::err::len_error::LenError;

verus! {

/// Error when decoding IP extension headers from a slice.
#[derive(Clone, Copy, Debug, PartialEq, Eq, Hash, Structural)]
pub enum HeadersSliceError {
    /// Error when an length error is encountered (e.g. unexpected
    /// end of slice).
    Len(LenError),
    /// Error caused by the contents of a header.
    Content(HeaderError),
}

impl HeadersSliceError {
    /// The length error, if this is one.
    pub open spec fn spec_len_error(&self) -> Option<LenError> {
        match *self {
            HeadersSliceError::Len(err) => Some(err),
            HeadersSliceError::Content(_) => None,
        }
    }

    /// The content error, if this is one.
    pub open spec fn spec_content(&self) -> Option<HeaderError> {
        match *self {
            HeadersSliceError::Len(_) => None,
            HeadersSliceError::Content(err) => Some(err),
        }
    }

    /// The same error about bytes that start `offset` bytes later. A
    /// content error names no place and stays as it is.
    pub open spec fn spec_add_offset(self, offset: nat) -> HeadersSliceError {
        match self {
            HeadersSliceError::Len(err) => HeadersSliceError::Len(err.spec_add_offset(offset)),
            HeadersSliceError::Content(err) => HeadersSliceError::Content(err),
        }
    }

    /// Moves the error into a buffer in which the decoded bytes start
    /// `offset` bytes later.
    pub fn add_offset(self, offset: usize) -> (moved: HeadersSliceError)
        requires
            self matches HeadersSliceError::Len(err) ==> err.layer_start_offset + offset
                <= usize::MAX,
        ensures
            moved == self.spec_add_offset(offset as nat),
            moved.is_sound() == self.is_sound(),
    {
        match self {
            HeadersSliceError::Len(err) => HeadersSliceError::Len(err.add_offset(offset)),
            HeadersSliceError::Content(err) => HeadersSliceError::Content(err),
        }
    }

    /// An error of this type is sound when it is a content error or a
    /// length error that describes a real shortfall.
    pub open spec fn is_sound(&self) -> bool {
        match *self {
            HeadersSliceError::Len(err) => err.is_shortfall(),
            HeadersSliceError::Content(_) => true,
        }
    }

    /// The message of the error, which is the message of the error that it
    /// holds.
    pub open spec fn spec_message(&self) -> Seq<char> {
        match *self {
            HeadersSliceError::Len(err) => err.spec_message(),
            HeadersSliceError::Content(err) => err.spec_message(),
        }
    }

    /// The message of the error, in one line. It is the message of the
    /// error that it holds.
    pub fn message(&self) -> (message: String)
        ensures
            message@ == self.spec_message(),
    {
        match self {
            HeadersSliceError::Len(err) => err.message(),
            HeadersSliceError::Content(err) => err.message(),
        }
    }

    /// Returns the [`LenError`] if the error is a `Len`.
    pub fn len_error(&self) -> (found: Option<&LenError>)
        ensures
            match found {
                Some(err) => self.spec_len_error() == Some(*err),
                None => self.spec_len_error().is_none(),
            },
            found.is_some() <==> *self is Len,
    {
        match self {
            HeadersSliceError::Len(err) => Some(err),
            HeadersSliceError::Content(_) => None,
        }
    }

    /// Returns the [`HeaderError`] if the error is a `Content`.
    pub fn content(&self) -> (found: Option<&HeaderError>)
        ensures
            match found {
                Some(err) => self.spec_content() == Some(*err),
                None => self.spec_content().is_none(),
            },
            found.is_some() <==> *self is Content,
    {
        match self {
            HeadersSliceError::Len(_) => None,
            HeadersSliceError::Content(err) => Some(err),
        }
    }
}

/// Exactly one of the two projections of an error is populated.
pub proof fn lemma_exactly_one_projection(err: HeadersSliceError)
    ensures
        err.spec_len_error().is_some() != err.spec_content().is_some(),
        err.spec_len_error() matches Some(len) ==> err == HeadersSliceError::Len(len),
        err.spec_content() matches Some(content) ==> err == HeadersSliceError::Content(content),
{
}

} // verus!
