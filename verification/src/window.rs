//! The two horizontal windows and the per-layer masks built from them.

use vstd::prelude::*;
use crate::bits::{bit, test_bit};

verus! {

/// How the two windows are combined when a mask uses both.
#[derive(Clone, Copy, Debug, PartialEq, Eq, Structural)]
pub enum WindowOp {
    And,
    Or,
    Xor,
    XNor,
}

/// Masking settings of one layer.
#[derive(Clone, Copy, Debug, PartialEq, Eq, Structural)]
pub struct Mask {
    pub w1_en: bool,
    pub w2_en: bool,
    pub w1_inv: bool,
    pub w2_inv: bool,
    pub wop: WindowOp,
}

/// The combinator selected by a two-bit field.
pub open spec fn window_op_of(op_bits: u8) -> WindowOp {
    if op_bits == 0 {
        WindowOp::Or
    } else if op_bits == 1 {
        WindowOp::And
    } else if op_bits == 2 {
        WindowOp::Xor
    } else {
        WindowOp::XNor
    }
}

/// Whether column `x` lies in the half-open window `[left, right)`.
pub open spec fn in_window(x: u16, left: u8, right: u8) -> bool {
    left <= x < right
}

impl WindowOp {
    /// The two inputs combined.
    pub open spec fn apply(self, a: bool, b: bool) -> bool {
        match self {
            WindowOp::And => a && b,
            WindowOp::Or => a || b,
            WindowOp::Xor => a != b,
            WindowOp::XNor => a == b,
        }
    }

    /// The combinator that gives, on inverted inputs, the inverted result.
    pub open spec fn dual(self) -> WindowOp {
        match self {
            WindowOp::And => WindowOp::Or,
            WindowOp::Or => WindowOp::And,
            WindowOp::Xor => WindowOp::XNor,
            WindowOp::XNor => WindowOp::Xor,
        }
    }
}

impl Mask {
    /// The mask described by the four bits of `mask_reg` that start at
    /// `mask_offset` (window 1 invert, window 1 enable, window 2 invert,
    /// window 2 enable, from the lowest bit up) and the two bits of `op_reg`
    /// that start at `op_offset`.
    pub open spec fn spec_new(mask_reg: u8, mask_offset: u8, op_reg: u8, op_offset: u8) -> Mask {
        let mask_bits = (mask_reg >> mask_offset) & 0x0f;
        let op_bits = (op_reg >> op_offset) & 0x03;
        Mask {
            w1_en: bit(mask_bits, 1),
            w2_en: bit(mask_bits, 3),
            w1_inv: bit(mask_bits, 0),
            w2_inv: bit(mask_bits, 2),
            wop: window_op_of(op_bits),
        }
    }

    /// Whether the mask covers a pixel that lies inside window 1 iff
    /// `in_w1` and inside window 2 iff `in_w2`.
    pub open spec fn spec_check(self, in_w1: bool, in_w2: bool) -> bool {
        let a = in_w1 != self.w1_inv;
        let b = in_w2 != self.w2_inv;
        if self.w1_en && self.w2_en {
            self.wop.apply(a, b)
        } else if self.w1_en {
            a
        } else if self.w2_en {
            b
        } else {
            false
        }
    }

    /// The mask with both inversion bits flipped and the combinator
    /// replaced by its dual.
    pub open spec fn inverted(self) -> Mask {
        Mask {
            w1_en: self.w1_en,
            w2_en: self.w2_en,
            w1_inv: !self.w1_inv,
            w2_inv: !self.w2_inv,
            wop: self.wop.dual(),
        }
    }

    /// Unpacks the mask of one layer from its two registers.
    pub fn new(mask_reg: u8, mask_offset: u8, op_reg: u8, op_offset: u8) -> (m: Mask)
        requires
            mask_offset < 8,
            op_offset < 8,
        ensures
            m == Self::spec_new(mask_reg, mask_offset, op_reg, op_offset),
    {
        let mask_bits: u8 = (mask_reg >> mask_offset) & 0x0f;
        let op_bits: u8 = (op_reg >> op_offset) & 0x03;
        Mask {
            w1_en: test_bit(mask_bits, 1),
            w2_en: test_bit(mask_bits, 3),
            w1_inv: test_bit(mask_bits, 0),
            w2_inv: test_bit(mask_bits, 2),
            wop: if op_bits == 0 {
                WindowOp::Or
            } else if op_bits == 1 {
                WindowOp::And
            } else if op_bits == 2 {
                WindowOp::Xor
            } else {
                WindowOp::XNor
            },
        }
    }

    /// Determines the masking result from the pixel's window membership.
    pub fn check(&self, in_w1: bool, in_w2: bool) -> (covered: bool)
        ensures
            covered == self.spec_check(in_w1, in_w2),
            !self.w1_en && !self.w2_en ==> !covered,
    {
        let w1 = in_w1 ^ self.w1_inv;
        let w2 = in_w2 ^ self.w2_inv;
        match (self.w1_en, self.w2_en) {
            (false, false) => false,
            (true, false) => w1,
            (false, true) => w2,
            (true, true) => match self.wop {
                WindowOp::And => w1 && w2,
                WindowOp::Or => w1 || w2,
                WindowOp::Xor => w1 ^ w2,
                WindowOp::XNor => !(w1 ^ w2),
            },
        }
    }
}

/// Flipping both inversion bits and taking the dual combinator complements
/// a mask that uses at least one window, and leaves a mask that uses none
/// as it is: empty.
pub proof fn lemma_inverted_mask(m: Mask, in_w1: bool, in_w2: bool)
    ensures
        m.w1_en || m.w2_en ==> m.inverted().spec_check(in_w1, in_w2) == !m.spec_check(in_w1, in_w2),
        !m.w1_en && !m.w2_en ==> m.inverted().spec_check(in_w1, in_w2) == m.spec_check(
            in_w1,
            in_w2,
        ),
        m.inverted().inverted() == m,
{
}

/// A mask that combines both windows by XOR covers exactly the pixels
/// that the same mask with XNOR leaves out, and neither changes when both
/// inversion bits are flipped.
pub proof fn lemma_xor_xnor_complement(m: Mask, in_w1: bool, in_w2: bool)
    requires
        m.w1_en && m.w2_en,
    ensures
        (Mask { wop: WindowOp::Xor, ..m }).spec_check(in_w1, in_w2) == !(Mask {
            wop: WindowOp::XNor,
            ..m
        }).spec_check(in_w1, in_w2),
        m.wop == WindowOp::Xor || m.wop == WindowOp::XNor ==> (Mask {
            w1_inv: !m.w1_inv,
            w2_inv: !m.w2_inv,
            ..m
        }).spec_check(in_w1, in_w2) == m.spec_check(in_w1, in_w2),
{
}

/// A window whose two edges coincide holds no column.
pub proof fn lemma_empty_window(x: u16, edge: u8)
    ensures
        !in_window(x, edge, edge),
{
}

} // verus!
