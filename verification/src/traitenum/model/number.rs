//! The numbers that a numeric method can return, and how a number is taken
//! from the position of a variant.

use vstd::prelude::*;

verus! {

/// A type of number that can be preset from the position of a variant.
///
/// Both functions answer `None` where the type has no such number.
pub trait PresetNumber: Sized + Copy {
    /// The position itself, as a number of this type.
    spec fn spec_from_ordinal(ordinal: usize) -> Option<Self>;

    /// `start + ordinal * increment`, as a number of this type.
    spec fn spec_serial(start: Self, ordinal: usize, increment: Self) -> Option<Self>;

    fn from_ordinal(ordinal: usize) -> (r: Option<Self>)
        ensures
            r == Self::spec_from_ordinal(ordinal),
    ;

    fn serial(start: Self, ordinal: usize, increment: Self) -> (r: Option<Self>)
        ensures
            r == Self::spec_serial(start, ordinal, increment),
    ;
}

impl PresetNumber for usize {
    open spec fn spec_from_ordinal(ordinal: usize) -> Option<usize> {
        if ordinal <= usize::MAX {
            Some(ordinal as usize)
        } else {
            None
        }
    }

    open spec fn spec_serial(start: usize, ordinal: usize, increment: usize) -> Option<usize> {
        let value = start + ordinal * increment;
        if value <= usize::MAX {
            Some(value as usize)
        } else {
            None
        }
    }

    fn from_ordinal(ordinal: usize) -> (r: Option<usize>) {
        if ordinal as u128 <= usize::MAX as u128 {
            Some(ordinal as usize)
        } else {
            None
        }
    }

    fn serial(start: usize, ordinal: usize, increment: usize) -> (r: Option<usize>) {
        let o: u128 = ordinal as u128;
        let i: u128 = increment as u128;
        assert(o * i <= 0xffff_ffff_ffff_ffff * 0xffff_ffff_ffff_ffff) by (nonlinear_arith)
            requires
                0 <= o <= 0xffff_ffff_ffff_ffff,
                0 <= i <= 0xffff_ffff_ffff_ffff,
        ;
        let value: u128 = start as u128 + o * i;
        if value <= usize::MAX as u128 {
            Some(value as usize)
        } else {
            None
        }
    }
}

impl PresetNumber for u64 {
    open spec fn spec_from_ordinal(ordinal: usize) -> Option<u64> {
        if ordinal <= u64::MAX {
            Some(ordinal as u64)
        } else {
            None
        }
    }

    open spec fn spec_serial(start: u64, ordinal: usize, increment: u64) -> Option<u64> {
        let value = start + ordinal * increment;
        if value <= u64::MAX {
            Some(value as u64)
        } else {
            None
        }
    }

    fn from_ordinal(ordinal: usize) -> (r: Option<u64>) {
        if ordinal as u128 <= u64::MAX as u128 {
            Some(ordinal as u64)
        } else {
            None
        }
    }

    fn serial(start: u64, ordinal: usize, increment: u64) -> (r: Option<u64>) {
        let o: u128 = ordinal as u128;
        let i: u128 = increment as u128;
        assert(o * i <= 0xffff_ffff_ffff_ffff * 0xffff_ffff_ffff_ffff) by (nonlinear_arith)
            requires
                0 <= o <= 0xffff_ffff_ffff_ffff,
                0 <= i <= 0xffff_ffff_ffff_ffff,
        ;
        let value: u128 = start as u128 + o * i;
        if value <= u64::MAX as u128 {
            Some(value as u64)
        } else {
            None
        }
    }
}

impl PresetNumber for u32 {
    open spec fn spec_from_ordinal(ordinal: usize) -> Option<u32> {
        if ordinal <= u32::MAX {
            Some(ordinal as u32)
        } else {
            None
        }
    }

    open spec fn spec_serial(start: u32, ordinal: usize, increment: u32) -> Option<u32> {
        let value = start + ordinal * increment;
        if value <= u32::MAX {
            Some(value as u32)
        } else {
            None
        }
    }

    fn from_ordinal(ordinal: usize) -> (r: Option<u32>) {
        if ordinal as u128 <= u32::MAX as u128 {
            Some(ordinal as u32)
        } else {
            None
        }
    }

    fn serial(start: u32, ordinal: usize, increment: u32) -> (r: Option<u32>) {
        let o: u128 = ordinal as u128;
        let i: u128 = increment as u128;
        assert(o * i <= 0xffff_ffff_ffff_ffff * 0xffff_ffff_ffff_ffff) by (nonlinear_arith)
            requires
                0 <= o <= 0xffff_ffff_ffff_ffff,
                0 <= i <= 0xffff_ffff_ffff_ffff,
        ;
        let value: u128 = start as u128 + o * i;
        if value <= u32::MAX as u128 {
            Some(value as u32)
        } else {
            None
        }
    }
}

impl PresetNumber for u8 {
    open spec fn spec_from_ordinal(ordinal: usize) -> Option<u8> {
        if ordinal <= u8::MAX {
            Some(ordinal as u8)
        } else {
            None
        }
    }

    open spec fn spec_serial(start: u8, ordinal: usize, increment: u8) -> Option<u8> {
        let value = start + ordinal * increment;
        if value <= u8::MAX {
            Some(value as u8)
        } else {
            None
        }
    }

    fn from_ordinal(ordinal: usize) -> (r: Option<u8>) {
        if ordinal as u128 <= u8::MAX as u128 {
            Some(ordinal as u8)
        } else {
            None
        }
    }

    fn serial(start: u8, ordinal: usize, increment: u8) -> (r: Option<u8>) {
        let o: u128 = ordinal as u128;
        let i: u128 = increment as u128;
        assert(o * i <= 0xffff_ffff_ffff_ffff * 0xffff_ffff_ffff_ffff) by (nonlinear_arith)
            requires
                0 <= o <= 0xffff_ffff_ffff_ffff,
                0 <= i <= 0xffff_ffff_ffff_ffff,
        ;
        let value: u128 = start as u128 + o * i;
        if value <= u8::MAX as u128 {
            Some(value as u8)
        } else {
            None
        }
    }
}

impl PresetNumber for i64 {
    open spec fn spec_from_ordinal(ordinal: usize) -> Option<i64> {
        if ordinal <= i64::MAX {
            Some(ordinal as i64)
        } else {
            None
        }
    }

    open spec fn spec_serial(start: i64, ordinal: usize, increment: i64) -> Option<i64> {
        let value = start + ordinal * increment;
        if i64::MIN <= value <= i64::MAX {
            Some(value as i64)
        } else {
            None
        }
    }

    fn from_ordinal(ordinal: usize) -> (r: Option<i64>) {
        if ordinal as u128 <= i64::MAX as u128 {
            Some(ordinal as i64)
        } else {
            None
        }
    }

    fn serial(start: i64, ordinal: usize, increment: i64) -> (r: Option<i64>) {
        let o: i128 = ordinal as i128;
        let i: i128 = increment as i128;
        assert(-0xffff_ffff_ffff_ffff * 0x8000_0000_0000_0000 <= o * i <= 0xffff_ffff_ffff_ffff
            * 0x8000_0000_0000_0000) by (nonlinear_arith)
            requires
                0 <= o <= 0xffff_ffff_ffff_ffff,
                -0x8000_0000_0000_0000 <= i <= 0x8000_0000_0000_0000,
        ;
        let value: i128 = start as i128 + o * i;
        if i64::MIN as i128 <= value && value <= i64::MAX as i128 {
            Some(value as i64)
        } else {
            None
        }
    }
}

impl PresetNumber for i32 {
    open spec fn spec_from_ordinal(ordinal: usize) -> Option<i32> {
        if ordinal <= i32::MAX {
            Some(ordinal as i32)
        } else {
            None
        }
    }

    open spec fn spec_serial(start: i32, ordinal: usize, increment: i32) -> Option<i32> {
        let value = start + ordinal * increment;
        if i32::MIN <= value <= i32::MAX {
            Some(value as i32)
        } else {
            None
        }
    }

    fn from_ordinal(ordinal: usize) -> (r: Option<i32>) {
        if ordinal as u128 <= i32::MAX as u128 {
            Some(ordinal as i32)
        } else {
            None
        }
    }

    fn serial(start: i32, ordinal: usize, increment: i32) -> (r: Option<i32>) {
        let o: i128 = ordinal as i128;
        let i: i128 = increment as i128;
        assert(-0xffff_ffff_ffff_ffff * 0x8000_0000_0000_0000 <= o * i <= 0xffff_ffff_ffff_ffff
            * 0x8000_0000_0000_0000) by (nonlinear_arith)
            requires
                0 <= o <= 0xffff_ffff_ffff_ffff,
                -0x8000_0000_0000_0000 <= i <= 0x8000_0000_0000_0000,
        ;
        let value: i128 = start as i128 + o * i;
        if i32::MIN as i128 <= value && value <= i32::MAX as i128 {
            Some(value as i32)
        } else {
            None
        }
    }
}

} // verus!
