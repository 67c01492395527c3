//! The cursor uniform: a tagged 2D position and its GPU byte encoding.
//!
//! The position is held as the raw bit patterns of two 32-bit floats, in
//! window pixel coordinates. The only representation ever written to the
//! GPU buffer is the little-endian concatenation of the two bit patterns,
//! eight bytes in all.

use vstd::prelude::*;

verus! {

/// The four bytes of `v` in little-endian order.
pub open spec fn spec_le_bytes(v: u32) -> Seq<u8> {
    seq![
        (v & 0xff) as u8,
        ((v >> 8) & 0xff) as u8,
        ((v >> 16) & 0xff) as u8,
        ((v >> 24) & 0xff) as u8,
    ]
}

/// The eight-byte uniform encoding: x first, then y, each little-endian.
pub open spec fn spec_encoding(x_bits: u32, y_bits: u32) -> Seq<u8> {
    spec_le_bytes(x_bits) + spec_le_bytes(y_bits)
}

/// The current cursor position, if one has been observed.
///
/// Starts `Unset`; a cursor event makes it `Known` and it never returns to
/// `Unset` (last write wins). The coordinates are f32 bit patterns.
#[derive(Clone, Copy, PartialEq, Eq, Structural, Debug)]
pub enum UniformState {
    Unset,
    Known { x_bits: u32, y_bits: u32 },
}

impl UniformState {
    /// The byte image this state encodes to: `None` exactly when `Unset`.
    pub open spec fn spec_encode(self) -> Option<Seq<u8>> {
        match self {
            UniformState::Unset => None,
            UniformState::Known { x_bits, y_bits } => Some(spec_encoding(x_bits, y_bits)),
        }
    }

    /// Record a newly observed cursor position.
    pub fn update(&mut self, x_bits: u32, y_bits: u32)
        ensures
            *final(self) == (UniformState::Known { x_bits, y_bits }),
    {
        *self = UniformState::Known { x_bits, y_bits };
    }

    /// The little-endian two-float encoding when `Known`, `None` when `Unset`.
    pub fn encode(&self) -> (r: Option<Vec<u8>>)
        ensures
            r is None <==> *self is Unset,
            r matches Some(bytes) ==> self.spec_encode() matches Some(image) && bytes@ == image,
    {
        match self {
            UniformState::Unset => None,
            UniformState::Known { x_bits, y_bits } => {
                let mut bytes = le_bytes(*x_bits);
                let mut tail = le_bytes(*y_bits);
                bytes.append(&mut tail);
                proof {
                    assert(bytes@ =~= spec_encoding(self->x_bits, self->y_bits));
                }
                Some(bytes)
            }
        }
    }
}

/// The four bytes of `v`, least significant first.
fn le_bytes(v: u32) -> (r: Vec<u8>)
    ensures
        r@ == spec_le_bytes(v),
{
    proof {
        assert((v & 0xff) < 256 && ((v >> 8) & 0xff) < 256 && ((v >> 16) & 0xff) < 256
            && ((v >> 24) & 0xff) < 256) by (bit_vector);
    }
    let mut r: Vec<u8> = Vec::new();
    r.push((v & 0xff) as u8);
    r.push(((v >> 8) & 0xff) as u8);
    r.push(((v >> 16) & 0xff) as u8);
    r.push(((v >> 24) & 0xff) as u8);
    proof {
        assert(r@ =~= spec_le_bytes(v));
    }
    r
}

} // verus!
