//! The 3x3 transform matrix of movie and track headers.
use vstd::prelude::*;

use crate::element::fixed_point::{u16f16_text_of, u2f30_text_of, U16F16, U2F30};
use crate::element::ElementParseError;
use crate::field::{be32, read_u32_at, IoError};

verus! {

/// Rows `[a b u] [c d v] [t_x t_y w]`: six 16.16 scale and translation terms
/// and three 2.30 perspective terms.
#[derive(Debug, Clone, Copy, PartialEq, Eq, Structural)]
pub struct QtFileMatrix {
    pub a: U16F16,
    pub b: U16F16,
    pub c: U16F16,
    pub d: U16F16,
    pub t_x: U16F16,
    pub t_y: U16F16,
    pub u: U2F30,
    pub v: U2F30,
    pub w: U2F30,
}

/// The matrix whose nine words, row by row, are `m`.
pub open spec fn matrix_of(m: Seq<u32>) -> QtFileMatrix {
    QtFileMatrix {
        a: U16F16 { bits: m[0] },
        b: U16F16 { bits: m[1] },
        c: U16F16 { bits: m[3] },
        d: U16F16 { bits: m[4] },
        t_x: U16F16 { bits: m[6] },
        t_y: U16F16 { bits: m[7] },
        u: U2F30 { bits: m[2] },
        v: U2F30 { bits: m[5] },
        w: U2F30 { bits: m[8] },
    }
}

/// The matrix stored as nine big-endian words at `p`.
pub open spec fn matrix_at(data: Seq<u8>, p: int) -> QtFileMatrix {
    matrix_of(Seq::new(9, |i: int| be32(data, p + 4 * i)))
}

/// `[[a, b, u], [c, d, v], [t_x, t_y, w]]` with each entry in decimal.
pub open spec fn matrix_text(m: QtFileMatrix) -> Seq<char> {
    "[["@ + u16f16_text_of(m.a.bits) + ", "@ + u16f16_text_of(m.b.bits) + ", "@ + u2f30_text_of(
        m.u.bits,
    ) + "], ["@ + u16f16_text_of(m.c.bits) + ", "@ + u16f16_text_of(m.d.bits) + ", "@
        + u2f30_text_of(m.v.bits) + "], ["@ + u16f16_text_of(m.t_x.bits) + ", "@ + u16f16_text_of(
        m.t_y.bits,
    ) + ", "@ + u2f30_text_of(m.w.bits) + "]]"@
}

impl QtFileMatrix {
    pub fn new(value: &[u32; 9]) -> (r: Self)
        ensures
            r == matrix_of(value@),
    {
        QtFileMatrix {
            a: U16F16::from_bits(value[0]),
            b: U16F16::from_bits(value[1]),
            c: U16F16::from_bits(value[3]),
            d: U16F16::from_bits(value[4]),
            t_x: U16F16::from_bits(value[6]),
            t_y: U16F16::from_bits(value[7]),
            u: U2F30::from_bits(value[2]),
            v: U2F30::from_bits(value[5]),
            w: U2F30::from_bits(value[8]),
        }
    }

    /// Reads nine big-endian words at `pos`.
    pub fn parse(data: &[u8], pos: usize) -> (r: Result<Self, ElementParseError>)
        ensures
            pos + 36 <= data@.len() ==> r == Ok::<Self, ElementParseError>(matrix_at(data@, pos as int)),
            pos + 36 > data@.len() ==> r == Err::<Self, ElementParseError>(
                ElementParseError::IoError(IoError::UnexpectedEof(pos as u64)),
            ),
    {
        if pos > data.len() || data.len() - pos < 36 {
            return Err(ElementParseError::IoError(IoError::UnexpectedEof(pos as u64)));
        }
        let words: [u32; 9] = [
            read_u32_at(data, pos),
            read_u32_at(data, pos + 4),
            read_u32_at(data, pos + 8),
            read_u32_at(data, pos + 12),
            read_u32_at(data, pos + 16),
            read_u32_at(data, pos + 20),
            read_u32_at(data, pos + 24),
            read_u32_at(data, pos + 28),
            read_u32_at(data, pos + 32),
        ];
        assert(words@ =~= Seq::new(9, |i: int| be32(data@, pos + 4 * i)));
        Ok(QtFileMatrix::new(&words))
    }

    /// The matrix row by row, each entry in decimal.
    pub fn to_string(&self) -> (r: String)
        ensures
            r@ == matrix_text(*self),
    {
        let mut s = String::from_str("[[");
        s.append(self.a.to_string().as_str());
        s.append(", ");
        s.append(self.b.to_string().as_str());
        s.append(", ");
        s.append(self.u.to_string().as_str());
        s.append("], [");
        s.append(self.c.to_string().as_str());
        s.append(", ");
        s.append(self.d.to_string().as_str());
        s.append(", ");
        s.append(self.v.to_string().as_str());
        s.append("], [");
        s.append(self.t_x.to_string().as_str());
        s.append(", ");
        s.append(self.t_y.to_string().as_str());
        s.append(", ");
        s.append(self.w.to_string().as_str());
        s.append("]]");
        s
    }
}

} // verus!
