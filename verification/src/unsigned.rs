//! The range mapping for the unsigned integer types.
//!
//! For an unsigned type the bounds handed to the model are `[0, MAX]`, so
//! `map_range_ok` in particular demands `from.start <= self` and forward
//! intervals, and the checked form returns `None` whenever a subtraction
//! would fall below zero.

use vstd::prelude::*;

verus! {

use core::ops::Range;
use crate::affine::{checked_map, lemma_trunc_div_nonneg, map_ok, map_val};
use crate::{CheckedMapRange, MapRange};
use vstd::arithmetic::div_mod::{lemma_div_nonincreasing, lemma_div_pos_is_pos};

impl MapRange for u8 {
    open spec fn map_range_ok(self, from: Range<u8>, to: Range<u8>) -> bool {
        map_ok(
            self as int,
            from.start as int,
            from.end as int,
            to.start as int,
            to.end as int,
            u8::MIN as int,
            u8::MAX as int,
        )
    }

    open spec fn map_range_val(self, from: Range<u8>, to: Range<u8>) -> u8 {
        map_val(
            self as int,
            from.start as int,
            from.end as int,
            to.start as int,
            to.end as int,
        ) as u8
    }

    fn map_range(self, from: Range<u8>, to: Range<u8>) -> (r: u8)
        ensures
            r == map_val(
                self as int,
                from.start as int,
                from.end as int,
                to.start as int,
                to.end as int,
            ) as u8,
    {
        proof {
            lemma_trunc_div_nonneg(
                (self - from.start) * (to.end - to.start),
                from.end - from.start,
            );
        }
        to.start + (self - from.start) * (to.end - to.start) / (from.end - from.start)
    }
}

impl CheckedMapRange for u8 {
    open spec fn checked_map_range_val(self, from: Range<u8>, to: Range<u8>) -> Option<u8> {
        match checked_map(
            self as int,
            from.start as int,
            from.end as int,
            to.start as int,
            to.end as int,
            u8::MIN as int,
            u8::MAX as int,
        ) {
            Some(v) => Some(v as u8),
            None => None,
        }
    }

    fn checked_map_range(self, from: Range<u8>, to: Range<u8>) -> (r: Option<u8>)
        ensures
            (match checked_map(
                self as int,
                from.start as int,
                from.end as int,
                to.start as int,
                to.end as int,
                u8::MIN as int,
                u8::MAX as int,
            ) {
                Some(v) => r == Some(v as u8),
                None => r == None::<u8>,
            }),
    {
        let s: u8 = match self.checked_sub(from.start) {
            Some(v) => v,
            None => {
                return None;
            },
        };
        let dt: u8 = match to.end.checked_sub(to.start) {
            Some(v) => v,
            None => {
                return None;
            },
        };
        let p: u8 = match s.checked_mul(dt) {
            Some(v) => v,
            None => {
                return None;
            },
        };
        let df: u8 = match from.end.checked_sub(from.start) {
            Some(v) => v,
            None => {
                return None;
            },
        };
        let q: u8 = match p.checked_div(df) {
            Some(v) => v,
            None => {
                return None;
            },
        };
        proof {
            lemma_trunc_div_nonneg(p as int, df as int);
            lemma_div_pos_is_pos(p as int, df as int);
            lemma_div_nonincreasing(p as int, df as int);
        }
        to.start.checked_add(q)
    }
}

impl MapRange for u16 {
    open spec fn map_range_ok(self, from: Range<u16>, to: Range<u16>) -> bool {
        map_ok(
            self as int,
            from.start as int,
            from.end as int,
            to.start as int,
            to.end as int,
            u16::MIN as int,
            u16::MAX as int,
        )
    }

    open spec fn map_range_val(self, from: Range<u16>, to: Range<u16>) -> u16 {
        map_val(
            self as int,
            from.start as int,
            from.end as int,
            to.start as int,
            to.end as int,
        ) as u16
    }

    fn map_range(self, from: Range<u16>, to: Range<u16>) -> (r: u16)
        ensures
            r == map_val(
                self as int,
                from.start as int,
                from.end as int,
                to.start as int,
                to.end as int,
            ) as u16,
    {
        proof {
            lemma_trunc_div_nonneg(
                (self - from.start) * (to.end - to.start),
                from.end - from.start,
            );
        }
        to.start + (self - from.start) * (to.end - to.start) / (from.end - from.start)
    }
}

impl CheckedMapRange for u16 {
    open spec fn checked_map_range_val(self, from: Range<u16>, to: Range<u16>) -> Option<u16> {
        match checked_map(
            self as int,
            from.start as int,
            from.end as int,
            to.start as int,
            to.end as int,
            u16::MIN as int,
            u16::MAX as int,
        ) {
            Some(v) => Some(v as u16),
            None => None,
        }
    }

    fn checked_map_range(self, from: Range<u16>, to: Range<u16>) -> (r: Option<u16>)
        ensures
            (match checked_map(
                self as int,
                from.start as int,
                from.end as int,
                to.start as int,
                to.end as int,
                u16::MIN as int,
                u16::MAX as int,
            ) {
                Some(v) => r == Some(v as u16),
                None => r == None::<u16>,
            }),
    {
        let s: u16 = match self.checked_sub(from.start) {
            Some(v) => v,
            None => {
                return None;
            },
        };
        let dt: u16 = match to.end.checked_sub(to.start) {
            Some(v) => v,
            None => {
                return None;
            },
        };
        let p: u16 = match s.checked_mul(dt) {
            Some(v) => v,
            None => {
                return None;
            },
        };
        let df: u16 = match from.end.checked_sub(from.start) {
            Some(v) => v,
            None => {
                return None;
            },
        };
        let q: u16 = match p.checked_div(df) {
            Some(v) => v,
            None => {
                return None;
            },
        };
        proof {
            lemma_trunc_div_nonneg(p as int, df as int);
            lemma_div_pos_is_pos(p as int, df as int);
            lemma_div_nonincreasing(p as int, df as int);
        }
        to.start.checked_add(q)
    }
}

impl MapRange for u32 {
    open spec fn map_range_ok(self, from: Range<u32>, to: Range<u32>) -> bool {
        map_ok(
            self as int,
            from.start as int,
            from.end as int,
            to.start as int,
            to.end as int,
            u32::MIN as int,
            u32::MAX as int,
        )
    }

    open spec fn map_range_val(self, from: Range<u32>, to: Range<u32>) -> u32 {
        map_val(
            self as int,
            from.start as int,
            from.end as int,
            to.start as int,
            to.end as int,
        ) as u32
    }

    fn map_range(self, from: Range<u32>, to: Range<u32>) -> (r: u32)
        ensures
            r == map_val(
                self as int,
                from.start as int,
                from.end as int,
                to.start as int,
                to.end as int,
            ) as u32,
    {
        proof {
            lemma_trunc_div_nonneg(
                (self - from.start) * (to.end - to.start),
                from.end - from.start,
            );
        }
        to.start + (self - from.start) * (to.end - to.start) / (from.end - from.start)
    }
}

impl CheckedMapRange for u32 {
    open spec fn checked_map_range_val(self, from: Range<u32>, to: Range<u32>) -> Option<u32> {
        match checked_map(
            self as int,
            from.start as int,
            from.end as int,
            to.start as int,
            to.end as int,
            u32::MIN as int,
            u32::MAX as int,
        ) {
            Some(v) => Some(v as u32),
            None => None,
        }
    }

    fn checked_map_range(self, from: Range<u32>, to: Range<u32>) -> (r: Option<u32>)
        ensures
            (match checked_map(
                self as int,
                from.start as int,
                from.end as int,
                to.start as int,
                to.end as int,
                u32::MIN as int,
                u32::MAX as int,
            ) {
                Some(v) => r == Some(v as u32),
                None => r == None::<u32>,
            }),
    {
        let s: u32 = match self.checked_sub(from.start) {
            Some(v) => v,
            None => {
                return None;
            },
        };
        let dt: u32 = match to.end.checked_sub(to.start) {
            Some(v) => v,
            None => {
                return None;
            },
        };
        let p: u32 = match s.checked_mul(dt) {
            Some(v) => v,
            None => {
                return None;
            },
        };
        let df: u32 = match from.end.checked_sub(from.start) {
            Some(v) => v,
            None => {
                return None;
            },
        };
        let q: u32 = match p.checked_div(df) {
            Some(v) => v,
            None => {
                return None;
            },
        };
        proof {
            lemma_trunc_div_nonneg(p as int, df as int);
            lemma_div_pos_is_pos(p as int, df as int);
            lemma_div_nonincreasing(p as int, df as int);
        }
        to.start.checked_add(q)
    }
}

impl MapRange for u64 {
    open spec fn map_range_ok(self, from: Range<u64>, to: Range<u64>) -> bool {
        map_ok(
            self as int,
            from.start as int,
            from.end as int,
            to.start as int,
            to.end as int,
            u64::MIN as int,
            u64::MAX as int,
        )
    }

    open spec fn map_range_val(self, from: Range<u64>, to: Range<u64>) -> u64 {
        map_val(
            self as int,
            from.start as int,
            from.end as int,
            to.start as int,
            to.end as int,
        ) as u64
    }

    fn map_range(self, from: Range<u64>, to: Range<u64>) -> (r: u64)
        ensures
            r == map_val(
                self as int,
                from.start as int,
                from.end as int,
                to.start as int,
                to.end as int,
            ) as u64,
    {
        proof {
            lemma_trunc_div_nonneg(
                (self - from.start) * (to.end - to.start),
                from.end - from.start,
            );
        }
        to.start + (self - from.start) * (to.end - to.start) / (from.end - from.start)
    }
}

impl CheckedMapRange for u64 {
    open spec fn checked_map_range_val(self, from: Range<u64>, to: Range<u64>) -> Option<u64> {
        match checked_map(
            self as int,
            from.start as int,
            from.end as int,
            to.start as int,
            to.end as int,
            u64::MIN as int,
            u64::MAX as int,
        ) {
            Some(v) => Some(v as u64),
            None => None,
        }
    }

    fn checked_map_range(self, from: Range<u64>, to: Range<u64>) -> (r: Option<u64>)
        ensures
            (match checked_map(
                self as int,
                from.start as int,
                from.end as int,
                to.start as int,
                to.end as int,
                u64::MIN as int,
                u64::MAX as int,
            ) {
                Some(v) => r == Some(v as u64),
                None => r == None::<u64>,
            }),
    {
        let s: u64 = match self.checked_sub(from.start) {
            Some(v) => v,
            None => {
                return None;
            },
        };
        let dt: u64 = match to.end.checked_sub(to.start) {
            Some(v) => v,
            None => {
                return None;
            },
        };
        let p: u64 = match s.checked_mul(dt) {
            Some(v) => v,
            None => {
                return None;
            },
        };
        let df: u64 = match from.end.checked_sub(from.start) {
            Some(v) => v,
            None => {
                return None;
            },
        };
        let q: u64 = match p.checked_div(df) {
            Some(v) => v,
            None => {
                return None;
            },
        };
        proof {
            lemma_trunc_div_nonneg(p as int, df as int);
            lemma_div_pos_is_pos(p as int, df as int);
            lemma_div_nonincreasing(p as int, df as int);
        }
        to.start.checked_add(q)
    }
}

impl MapRange for u128 {
    open spec fn map_range_ok(self, from: Range<u128>, to: Range<u128>) -> bool {
        map_ok(
            self as int,
            from.start as int,
            from.end as int,
            to.start as int,
            to.end as int,
            u128::MIN as int,
            u128::MAX as int,
        )
    }

    open spec fn map_range_val(self, from: Range<u128>, to: Range<u128>) -> u128 {
        map_val(
            self as int,
            from.start as int,
            from.end as int,
            to.start as int,
            to.end as int,
        ) as u128
    }

    fn map_range(self, from: Range<u128>, to: Range<u128>) -> (r: u128)
        ensures
            r == map_val(
                self as int,
                from.start as int,
                from.end as int,
                to.start as int,
                to.end as int,
            ) as u128,
    {
        proof {
            lemma_trunc_div_nonneg(
                (self - from.start) * (to.end - to.start),
                from.end - from.start,
            );
        }
        to.start + (self - from.start) * (to.end - to.start) / (from.end - from.start)
    }
}

impl CheckedMapRange for u128 {
    open spec fn checked_map_range_val(self, from: Range<u128>, to: Range<u128>) -> Option<u128> {
        match checked_map(
            self as int,
            from.start as int,
            from.end as int,
            to.start as int,
            to.end as int,
            u128::MIN as int,
            u128::MAX as int,
        ) {
            Some(v) => Some(v as u128),
            None => None,
        }
    }

    fn checked_map_range(self, from: Range<u128>, to: Range<u128>) -> (r: Option<u128>)
        ensures
            (match checked_map(
                self as int,
                from.start as int,
                from.end as int,
                to.start as int,
                to.end as int,
                u128::MIN as int,
                u128::MAX as int,
            ) {
                Some(v) => r == Some(v as u128),
                None => r == None::<u128>,
            }),
    {
        let s: u128 = match self.checked_sub(from.start) {
            Some(v) => v,
            None => {
                return None;
            },
        };
        let dt: u128 = match to.end.checked_sub(to.start) {
            Some(v) => v,
            None => {
                return None;
            },
        };
        let p: u128 = match s.checked_mul(dt) {
            Some(v) => v,
            None => {
                return None;
            },
        };
        let df: u128 = match from.end.checked_sub(from.start) {
            Some(v) => v,
            None => {
                return None;
            },
        };
        let q: u128 = match p.checked_div(df) {
            Some(v) => v,
            None => {
                return None;
            },
        };
        proof {
            lemma_trunc_div_nonneg(p as int, df as int);
            lemma_div_pos_is_pos(p as int, df as int);
            lemma_div_nonincreasing(p as int, df as int);
        }
        to.start.checked_add(q)
    }
}

impl MapRange for usize {
    open spec fn map_range_ok(self, from: Range<usize>, to: Range<usize>) -> bool {
        map_ok(
            self as int,
            from.start as int,
            from.end as int,
            to.start as int,
            to.end as int,
            usize::MIN as int,
            usize::MAX as int,
        )
    }

    open spec fn map_range_val(self, from: Range<usize>, to: Range<usize>) -> usize {
        map_val(
            self as int,
            from.start as int,
            from.end as int,
            to.start as int,
            to.end as int,
        ) as usize
    }

    fn map_range(self, from: Range<usize>, to: Range<usize>) -> (r: usize)
        ensures
            r == map_val(
                self as int,
                from.start as int,
                from.end as int,
                to.start as int,
                to.end as int,
            ) as usize,
    {
        proof {
            lemma_trunc_div_nonneg(
                (self - from.start) * (to.end - to.start),
                from.end - from.start,
            );
        }
        to.start + (self - from.start) * (to.end - to.start) / (from.end - from.start)
    }
}

impl CheckedMapRange for usize {
    open spec fn checked_map_range_val(self, from: Range<usize>, to: Range<usize>) -> Option<usize> {
        match checked_map(
            self as int,
            from.start as int,
            from.end as int,
            to.start as int,
            to.end as int,
            usize::MIN as int,
            usize::MAX as int,
        ) {
            Some(v) => Some(v as usize),
            None => None,
        }
    }

    fn checked_map_range(self, from: Range<usize>, to: Range<usize>) -> (r: Option<usize>)
        ensures
            (match checked_map(
                self as int,
                from.start as int,
                from.end as int,
                to.start as int,
                to.end as int,
                usize::MIN as int,
                usize::MAX as int,
            ) {
                Some(v) => r == Some(v as usize),
                None => r == None::<usize>,
            }),
    {
        let s: usize = match self.checked_sub(from.start) {
            Some(v) => v,
            None => {
                return None;
            },
        };
        let dt: usize = match to.end.checked_sub(to.start) {
            Some(v) => v,
            None => {
                return None;
            },
        };
        let p: usize = match s.checked_mul(dt) {
            Some(v) => v,
            None => {
                return None;
            },
        };
        let df: usize = match from.end.checked_sub(from.start) {
            Some(v) => v,
            None => {
                return None;
            },
        };
        let q: usize = match p.checked_div(df) {
            Some(v) => v,
            None => {
                return None;
            },
        };
        proof {
            lemma_trunc_div_nonneg(p as int, df as int);
            lemma_div_pos_is_pos(p as int, df as int);
            lemma_div_nonincreasing(p as int, df as int);
        }
        to.start.checked_add(q)
    }
}

} // verus!
