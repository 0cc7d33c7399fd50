use vstd::prelude::*;
use vstd::slice::slice_subrange;

use crate::err::{Layer, LenError};
use crate::len_source::LenSource;

verus! {

/// The mathematical model of a [`ByteView`]: a buffer and a window into it.
pub struct Span {
    /// All bytes of the buffer that the view was made from.
    pub buffer: Seq<u8>,
    /// Index of the first byte of the window.
    pub offset: nat,
    /// Number of bytes in the window.
    pub len: nat,
}

impl Span {
    /// The window lies inside the buffer, and the buffer is one that fits
    /// into memory.
    pub open spec fn wf(self) -> bool {
        self.offset + self.len <= self.buffer.len() <= usize::MAX
    }

    /// Index of the first byte behind the window.
    pub open spec fn end(self) -> nat {
        self.offset + self.len
    }

    /// The bytes inside the window.
    pub open spec fn bytes(self) -> Seq<u8> {
        self.buffer.subrange(self.offset as int, self.end() as int)
    }

    /// The window over the first `n` bytes of this window.
    pub open spec fn head(self, n: nat) -> Span {
        Span { buffer: self.buffer, offset: self.offset, len: n }
    }

    /// The window over what follows the first `n` bytes of this window.
    pub open spec fn tail(self, n: nat) -> Span {
        Span { buffer: self.buffer, offset: self.offset + n, len: (self.len - n) as nat }
    }

    /// The window over a whole buffer.
    pub open spec fn whole(buffer: Seq<u8>) -> Span {
        Span { buffer, offset: 0, len: buffer.len() }
    }
}

/// The 16 bit number that two bytes encode in network byte order.
pub open spec fn u16_be(high: u8, low: u8) -> u16 {
    (high * 256 + low) as u16
}

/// The 16 bit number in network byte order at index `at` of `bytes`.
pub open spec fn u16_be_at(bytes: Seq<u8>, at: int) -> u16 {
    u16_be(bytes[at], bytes[at + 1])
}

/// The error of asking for `required` bytes of `layer` at the start of a
/// window that holds fewer.
pub open spec fn shortfall(
    span: Span,
    required: nat,
    layer: Layer,
    len_source: LenSource,
) -> LenError {
    LenError {
        required_len: required as usize,
        len: span.len as usize,
        len_source,
        layer,
        layer_start_offset: span.offset as usize,
    }
}

/// What [`ByteView::new`] answers for a buffer of `buffer_len` bytes.
pub open spec fn new_view_error(
    buffer_len: nat,
    offset: nat,
    n: nat,
    layer: Layer,
) -> Option<LenError> {
    if offset > buffer_len {
        Some(
            LenError {
                required_len: offset as usize,
                len: buffer_len as usize,
                len_source: LenSource::Slice,
                layer,
                layer_start_offset: 0,
            },
        )
    } else if n > buffer_len - offset {
        Some(
            LenError {
                required_len: n as usize,
                len: (buffer_len - offset) as usize,
                len_source: LenSource::Slice,
                layer,
                layer_start_offset: offset as usize,
            },
        )
    } else {
        None
    }
}

/// A bounds-checked window into a byte buffer that somebody else owns.
///
/// A view never changes after it was made and never reaches outside of
/// its buffer, so reading through it cannot fail.
#[derive(Clone, Copy, Debug, PartialEq, Eq)]
pub struct ByteView<'a> {
    buffer: &'a [u8],
    offset: usize,
    length: usize,
}

impl<'a> View for ByteView<'a> {
    type V = Span;

    closed spec fn view(&self) -> Span {
        Span { buffer: self.buffer@, offset: self.offset as nat, len: self.length as nat }
    }
}

impl<'a> ByteView<'a> {
    #[verifier::type_invariant]
    spec fn in_bounds(self) -> bool {
        self.offset + self.length <= self.buffer.len()
    }

    /// The view over all bytes of `buffer`.
    pub fn whole(buffer: &'a [u8]) -> (view: ByteView<'a>)
        ensures
            view@ == Span::whole(buffer@),
            view@.wf(),
    {
        ByteView { buffer, offset: 0, length: buffer.len() }
    }

    /// The view over the `n` bytes of `buffer` that start at `offset`.
    ///
    /// Fails exactly when the buffer ends before `offset + n`. The bytes are
    /// asked for in two cuts: `offset` bytes from the start of the buffer,
    /// then `n` bytes from there. So when even `offset` lies behind the end of
    /// the buffer, the error says that `offset` bytes were required at the
    /// start of the buffer; otherwise it says that `n` bytes were required at
    /// `offset`.
    pub fn new(buffer: &'a [u8], offset: usize, n: usize, layer: Layer) -> (made: Result<
        ByteView<'a>,
        LenError,
    >)
        ensures
            made is Ok <==> offset + n <= buffer@.len(),
            match made {
                Ok(view) => view@ == (Span {
                    buffer: buffer@,
                    offset: offset as nat,
                    len: n as nat,
                }) && view@.wf(),
                Err(err) => Some(err) == new_view_error(
                    buffer@.len(),
                    offset as nat,
                    n as nat,
                    layer,
                ) && err.is_shortfall() && err.len_source == LenSource::Slice,
            },
    {
        let behind = match ByteView::whole(buffer).split(offset, layer, LenSource::Slice) {
            Err(err) => {
                return Err(err);
            },
            Ok((_, behind)) => behind,
        };
        match behind.split(n, layer, LenSource::Slice) {
            Err(err) => Err(err),
            Ok((view, _)) => Ok(view),
        }
    }

    /// Index of the first byte of the view in its buffer.
    pub fn offset(&self) -> (offset: usize)
        ensures
            offset == self@.offset,
            self@.wf(),
    {
        proof {
            use_type_invariant(self);
        }
        self.offset
    }

    /// Number of bytes in the view.
    pub fn len(&self) -> (len: usize)
        ensures
            len == self@.len,
            self@.wf(),
    {
        proof {
            use_type_invariant(self);
        }
        self.length
    }

    /// Whether the view holds no byte.
    pub fn is_empty(&self) -> (empty: bool)
        ensures
            empty <==> self@.len == 0,
    {
        self.length == 0
    }

    /// Index of the first byte behind the view in its buffer.
    pub fn end(&self) -> (end: usize)
        ensures
            end == self@.end(),
            self@.wf(),
    {
        proof {
            use_type_invariant(self);
        }
        self.offset + self.length
    }

    /// The whole buffer that the view looks into.
    pub fn buffer(&self) -> (buffer: &'a [u8])
        ensures
            buffer@ == self@.buffer,
            self@.wf(),
    {
        proof {
            use_type_invariant(self);
        }
        self.buffer
    }

    /// The bytes inside the view.
    pub fn as_slice(&self) -> (bytes: &'a [u8])
        ensures
            bytes@ == self@.bytes(),
            self@.wf(),
    {
        proof {
            use_type_invariant(self);
        }
        slice_subrange(self.buffer, self.offset, self.offset + self.length)
    }

    /// The byte at index `at` of the view, if the view is that long.
    pub fn get(&self, at: usize) -> (byte: Option<u8>)
        ensures
            byte == (if at < self@.len {
                Some(self@.bytes()[at as int])
            } else {
                None
            }),
    {
        if at < self.length {
            Some(self.byte(at))
        } else {
            None
        }
    }

    /// The 16 bit number in network byte order whose first byte lies at
    /// index `at` of the view, if the view holds both of its bytes.
    pub fn get_u16_be(&self, at: usize) -> (number: Option<u16>)
        ensures
            number == (if at + 1 < self@.len {
                Some(u16_be_at(self@.bytes(), at as int))
            } else {
                None
            }),
    {
        if at < self.length && self.length - at > 1 {
            Some(self.u16_be(at))
        } else {
            None
        }
    }

    /// The byte at index `at` of the view.
    pub(crate) fn byte(&self, at: usize) -> (byte: u8)
        requires
            at < self@.len,
        ensures
            byte == self@.bytes()[at as int],
            byte == self@.buffer[self@.offset + at],
            self@.wf(),
    {
        proof {
            use_type_invariant(self);
        }
        self.buffer[self.offset + at]
    }

    /// The 16 bit number in network byte order whose first byte lies at
    /// index `at` of the view.
    pub(crate) fn u16_be(&self, at: usize) -> (number: u16)
        requires
            at + 1 < self@.len,
        ensures
            number == u16_be_at(self@.bytes(), at as int),
            self@.wf(),
    {
        let high = self.byte(at);
        let low = self.byte(at + 1);
        (high as u16) * 256 + (low as u16)
    }

    /// The view of the first `n` bytes of this view.
    pub(crate) fn head(&self, n: usize) -> (head: ByteView<'a>)
        requires
            n <= self@.len,
        ensures
            head@ == self@.head(n as nat),
            head@.wf(),
            self@.wf(),
    {
        proof {
            use_type_invariant(self);
        }
        ByteView { buffer: self.buffer, offset: self.offset, length: n }
    }

    /// The view of what follows the first `n` bytes of this view.
    pub(crate) fn tail(&self, n: usize) -> (tail: ByteView<'a>)
        requires
            n <= self@.len,
        ensures
            tail@ == self@.tail(n as nat),
            tail@.wf(),
            self@.wf(),
    {
        proof {
            use_type_invariant(self);
        }
        ByteView { buffer: self.buffer, offset: self.offset + n, length: self.length - n }
    }

    /// Cuts the view behind its first `n` bytes.
    ///
    /// This is the one place where a decoder asks for bytes: it either gets
    /// a view of exactly `n` bytes and a view of the rest, or the error that
    /// names `layer` as starting where this view starts.
    pub fn split(&self, n: usize, layer: Layer, len_source: LenSource) -> (cut: Result<
        (ByteView<'a>, ByteView<'a>),
        LenError,
    >)
        ensures
            self@.wf(),
            cut is Ok <==> n <= self@.len,
            match cut {
                Ok((head, tail)) => head@ == self@.head(n as nat) && tail@ == self@.tail(n as nat)
                    && head@.wf() && tail@.wf(),
                Err(err) => err == shortfall(self@, n as nat, layer, len_source)
                    && err.is_shortfall(),
            },
    {
        proof {
            use_type_invariant(self);
        }
        if n > self.length {
            Err(
                LenError {
                    required_len: n,
                    len: self.length,
                    len_source,
                    layer,
                    layer_start_offset: self.offset,
                },
            )
        } else {
            Ok(
                (
                    ByteView { buffer: self.buffer, offset: self.offset, length: n },
                    ByteView {
                        buffer: self.buffer,
                        offset: self.offset + n,
                        length: self.length - n,
                    },
                ),
            )
        }
    }
}

} // verus!
