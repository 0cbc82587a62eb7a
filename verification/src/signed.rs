//! The range mapping for the signed integer types.
//!
//! The bounds handed to the model are `[MIN, MAX]`. Reversed intervals are
//! representable, so the mapping may invert a quantity; the division of the
//! transform truncates toward zero, as Rust's `/` does, which the model's
//! `trunc_div` captures. The unchecked form computes its quotient through
//! `checked_div`, whose success its precondition guarantees.

use vstd::prelude::*;

verus! {

use core::ops::Range;
use crate::affine::{checked_map, map_ok, map_val};
use crate::{CheckedMapRange, MapRange};

impl MapRange for i8 {
    open spec fn map_range_ok(self, from: Range<i8>, to: Range<i8>) -> bool {
        map_ok(
            self as int,
            from.start as int,
            from.end as int,
            to.start as int,
            to.end as int,
            i8::MIN as int,
            i8::MAX as int,
        )
    }

    open spec fn map_range_val(self, from: Range<i8>, to: Range<i8>) -> i8 {
        map_val(
            self as int,
            from.start as int,
            from.end as int,
            to.start as int,
            to.end as int,
        ) as i8
    }

    fn map_range(self, from: Range<i8>, to: Range<i8>) -> (r: i8)
        ensures
            r == map_val(
                self as int,
                from.start as int,
                from.end as int,
                to.start as int,
                to.end as int,
            ) as i8,
    {
        let s: i8 = self - from.start;
        let dt: i8 = to.end - to.start;
        let p: i8 = s * dt;
        let df: i8 = from.end - from.start;
        let q: i8 = p.checked_div(df).unwrap();
        to.start + q
    }
}

impl CheckedMapRange for i8 {
    open spec fn checked_map_range_val(self, from: Range<i8>, to: Range<i8>) -> Option<i8> {
        match checked_map(
            self as int,
            from.start as int,
            from.end as int,
            to.start as int,
            to.end as int,
            i8::MIN as int,
            i8::MAX as int,
        ) {
            Some(v) => Some(v as i8),
            None => None,
        }
    }

    fn checked_map_range(self, from: Range<i8>, to: Range<i8>) -> (r: Option<i8>)
        ensures
            (match checked_map(
                self as int,
                from.start as int,
                from.end as int,
                to.start as int,
                to.end as int,
                i8::MIN as int,
                i8::MAX as int,
            ) {
                Some(v) => r == Some(v as i8),
                None => r == None::<i8>,
            }),
    {
        let s: i8 = match self.checked_sub(from.start) {
            Some(v) => v,
            None => {
                return None;
            },
        };
        let dt: i8 = match to.end.checked_sub(to.start) {
            Some(v) => v,
            None => {
                return None;
            },
        };
        let p: i8 = match s.checked_mul(dt) {
            Some(v) => v,
            None => {
                return None;
            },
        };
        let df: i8 = match from.end.checked_sub(from.start) {
            Some(v) => v,
            None => {
                return None;
            },
        };
        let q: i8 = match p.checked_div(df) {
            Some(v) => v,
            None => {
                return None;
            },
        };
        to.start.checked_add(q)
    }
}

impl MapRange for i16 {
    open spec fn map_range_ok(self, from: Range<i16>, to: Range<i16>) -> bool {
        map_ok(
            self as int,
            from.start as int,
            from.end as int,
            to.start as int,
            to.end as int,
            i16::MIN as int,
            i16::MAX as int,
        )
    }

    open spec fn map_range_val(self, from: Range<i16>, to: Range<i16>) -> i16 {
        map_val(
            self as int,
            from.start as int,
            from.end as int,
            to.start as int,
            to.end as int,
        ) as i16
    }

    fn map_range(self, from: Range<i16>, to: Range<i16>) -> (r: i16)
        ensures
            r == map_val(
                self as int,
                from.start as int,
                from.end as int,
                to.start as int,
                to.end as int,
            ) as i16,
    {
        let s: i16 = self - from.start;
        let dt: i16 = to.end - to.start;
        let p: i16 = s * dt;
        let df: i16 = from.end - from.start;
        let q: i16 = p.checked_div(df).unwrap();
        to.start + q
    }
}

impl CheckedMapRange for i16 {
    open spec fn checked_map_range_val(self, from: Range<i16>, to: Range<i16>) -> Option<i16> {
        match checked_map(
            self as int,
            from.start as int,
            from.end as int,
            to.start as int,
            to.end as int,
            i16::MIN as int,
            i16::MAX as int,
        ) {
            Some(v) => Some(v as i16),
            None => None,
        }
    }

    fn checked_map_range(self, from: Range<i16>, to: Range<i16>) -> (r: Option<i16>)
        ensures
            (match checked_map(
                self as int,
                from.start as int,
                from.end as int,
                to.start as int,
                to.end as int,
                i16::MIN as int,
                i16::MAX as int,
            ) {
                Some(v) => r == Some(v as i16),
                None => r == None::<i16>,
            }),
    {
        let s: i16 = match self.checked_sub(from.start) {
            Some(v) => v,
            None => {
                return None;
            },
        };
        let dt: i16 = match to.end.checked_sub(to.start) {
            Some(v) => v,
            None => {
                return None;
            },
        };
        let p: i16 = match s.checked_mul(dt) {
            Some(v) => v,
            None => {
                return None;
            },
        };
        let df: i16 = match from.end.checked_sub(from.start) {
            Some(v) => v,
            None => {
                return None;
            },
        };
        let q: i16 = match p.checked_div(df) {
            Some(v) => v,
            None => {
                return None;
            },
        };
        to.start.checked_add(q)
    }
}

impl MapRange for i32 {
    open spec fn map_range_ok(self, from: Range<i32>, to: Range<i32>) -> bool {
        map_ok(
            self as int,
            from.start as int,
            from.end as int,
            to.start as int,
            to.end as int,
            i32::MIN as int,
            i32::MAX as int,
        )
    }

    open spec fn map_range_val(self, from: Range<i32>, to: Range<i32>) -> i32 {
        map_val(
            self as int,
            from.start as int,
            from.end as int,
            to.start as int,
            to.end as int,
        ) as i32
    }

    fn map_range(self, from: Range<i32>, to: Range<i32>) -> (r: i32)
        ensures
            r == map_val(
                self as int,
                from.start as int,
                from.end as int,
                to.start as int,
                to.end as int,
            ) as i32,
    {
        let s: i32 = self - from.start;
        let dt: i32 = to.end - to.start;
        let p: i32 = s * dt;
        let df: i32 = from.end - from.start;
        let q: i32 = p.checked_div(df).unwrap();
        to.start + q
    }
}

impl CheckedMapRange for i32 {
    open spec fn checked_map_range_val(self, from: Range<i32>, to: Range<i32>) -> Option<i32> {
        match checked_map(
            self as int,
            from.start as int,
            from.end as int,
            to.start as int,
            to.end as int,
            i32::MIN as int,
            i32::MAX as int,
        ) {
            Some(v) => Some(v as i32),
            None => None,
        }
    }

    fn checked_map_range(self, from: Range<i32>, to: Range<i32>) -> (r: Option<i32>)
        ensures
            (match checked_map(
                self as int,
                from.start as int,
                from.end as int,
                to.start as int,
                to.end as int,
                i32::MIN as int,
                i32::MAX as int,
            ) {
                Some(v) => r == Some(v as i32),
                None => r == None::<i32>,
            }),
    {
        let s: i32 = match self.checked_sub(from.start) {
            Some(v) => v,
            None => {
                return None;
            },
        };
        let dt: i32 = match to.end.checked_sub(to.start) {
            Some(v) => v,
            None => {
                return None;
            },
        };
        let p: i32 = match s.checked_mul(dt) {
            Some(v) => v,
            None => {
                return None;
            },
        };
        let df: i32 = match from.end.checked_sub(from.start) {
            Some(v) => v,
            None => {
                return None;
            },
        };
        let q: i32 = match p.checked_div(df) {
            Some(v) => v,
            None => {
                return None;
            },
        };
        to.start.checked_add(q)
    }
}

impl MapRange for i64 {
    open spec fn map_range_ok(self, from: Range<i64>, to: Range<i64>) -> bool {
        map_ok(
            self as int,
            from.start as int,
            from.end as int,
            to.start as int,
            to.end as int,
            i64::MIN as int,
            i64::MAX as int,
        )
    }

    open spec fn map_range_val(self, from: Range<i64>, to: Range<i64>) -> i64 {
        map_val(
            self as int,
            from.start as int,
            from.end as int,
            to.start as int,
            to.end as int,
        ) as i64
    }

    fn map_range(self, from: Range<i64>, to: Range<i64>) -> (r: i64)
        ensures
            r == map_val(
                self as int,
                from.start as int,
                from.end as int,
                to.start as int,
                to.end as int,
            ) as i64,
    {
        let s: i64 = self - from.start;
        let dt: i64 = to.end - to.start;
        let p: i64 = s * dt;
        let df: i64 = from.end - from.start;
        let q: i64 = p.checked_div(df).unwrap();
        to.start + q
    }
}

impl CheckedMapRange for i64 {
    open spec fn checked_map_range_val(self, from: Range<i64>, to: Range<i64>) -> Option<i64> {
        match checked_map(
            self as int,
            from.start as int,
            from.end as int,
            to.start as int,
            to.end as int,
            i64::MIN as int,
            i64::MAX as int,
        ) {
            Some(v) => Some(v as i64),
            None => None,
        }
    }

    fn checked_map_range(self, from: Range<i64>, to: Range<i64>) -> (r: Option<i64>)
        ensures
            (match checked_map(
                self as int,
                from.start as int,
                from.end as int,
                to.start as int,
                to.end as int,
                i64::MIN as int,
                i64::MAX as int,
            ) {
                Some(v) => r == Some(v as i64),
                None => r == None::<i64>,
            }),
    {
        let s: i64 = match self.checked_sub(from.start) {
            Some(v) => v,
            None => {
                return None;
            },
        };
        let dt: i64 = match to.end.checked_sub(to.start) {
            Some(v) => v,
            None => {
                return None;
            },
        };
        let p: i64 = match s.checked_mul(dt) {
            Some(v) => v,
            None => {
                return None;
            },
        };
        let df: i64 = match from.end.checked_sub(from.start) {
            Some(v) => v,
            None => {
                return None;
            },
        };
        let q: i64 = match p.checked_div(df) {
            Some(v) => v,
            None => {
                return None;
            },
        };
        to.start.checked_add(q)
    }
}

impl MapRange for i128 {
    open spec fn map_range_ok(self, from: Range<i128>, to: Range<i128>) -> bool {
        map_ok(
            self as int,
            from.start as int,
            from.end as int,
            to.start as int,
            to.end as int,
            i128::MIN as int,
            i128::MAX as int,
        )
    }

    open spec fn map_range_val(self, from: Range<i128>, to: Range<i128>) -> i128 {
        map_val(
            self as int,
            from.start as int,
            from.end as int,
            to.start as int,
            to.end as int,
        ) as i128
    }

    fn map_range(self, from: Range<i128>, to: Range<i128>) -> (r: i128)
        ensures
            r == map_val(
                self as int,
                from.start as int,
                from.end as int,
                to.start as int,
                to.end as int,
            ) as i128,
    {
        let s: i128 = self - from.start;
        let dt: i128 = to.end - to.start;
        let p: i128 = s * dt;
        let df: i128 = from.end - from.start;
        let q: i128 = p.checked_div(df).unwrap();
        to.start + q
    }
}

impl CheckedMapRange for i128 {
    open spec fn checked_map_range_val(self, from: Range<i128>, to: Range<i128>) -> Option<i128> {
        match checked_map(
            self as int,
            from.start as int,
            from.end as int,
            to.start as int,
            to.end as int,
            i128::MIN as int,
            i128::MAX as int,
        ) {
            Some(v) => Some(v as i128),
            None => None,
        }
    }

    fn checked_map_range(self, from: Range<i128>, to: Range<i128>) -> (r: Option<i128>)
        ensures
            (match checked_map(
                self as int,
                from.start as int,
                from.end as int,
                to.start as int,
                to.end as int,
                i128::MIN as int,
                i128::MAX as int,
            ) {
                Some(v) => r == Some(v as i128),
                None => r == None::<i128>,
            }),
    {
        let s: i128 = match self.checked_sub(from.start) {
            Some(v) => v,
            None => {
                return None;
            },
        };
        let dt: i128 = match to.end.checked_sub(to.start) {
            Some(v) => v,
            None => {
                return None;
            },
        };
        let p: i128 = match s.checked_mul(dt) {
            Some(v) => v,
            None => {
                return None;
            },
        };
        let df: i128 = match from.end.checked_sub(from.start) {
            Some(v) => v,
            None => {
                return None;
            },
        };
        let q: i128 = match p.checked_div(df) {
            Some(v) => v,
            None => {
                return None;
            },
        };
        to.start.checked_add(q)
    }
}

impl MapRange for isize {
    open spec fn map_range_ok(self, from: Range<isize>, to: Range<isize>) -> bool {
        map_ok(
            self as int,
            from.start as int,
            from.end as int,
            to.start as int,
            to.end as int,
            isize::MIN as int,
            isize::MAX as int,
        )
    }

    open spec fn map_range_val(self, from: Range<isize>, to: Range<isize>) -> isize {
        map_val(
            self as int,
            from.start as int,
            from.end as int,
            to.start as int,
            to.end as int,
        ) as isize
    }

    fn map_range(self, from: Range<isize>, to: Range<isize>) -> (r: isize)
        ensures
            r == map_val(
                self as int,
                from.start as int,
                from.end as int,
                to.start as int,
                to.end as int,
            ) as isize,
    {
        let s: isize = self - from.start;
        let dt: isize = to.end - to.start;
        let p: isize = s * dt;
        let df: isize = from.end - from.start;
        let q: isize = p.checked_div(df).unwrap();
        to.start + q
    }
}

impl CheckedMapRange for isize {
    open spec fn checked_map_range_val(self, from: Range<isize>, to: Range<isize>) -> Option<isize> {
        match checked_map(
            self as int,
            from.start as int,
            from.end as int,
            to.start as int,
            to.end as int,
            isize::MIN as int,
            isize::MAX as int,
        ) {
            Some(v) => Some(v as isize),
            None => None,
        }
    }

    fn checked_map_range(self, from: Range<isize>, to: Range<isize>) -> (r: Option<isize>)
        ensures
            (match checked_map(
                self as int,
                from.start as int,
                from.end as int,
                to.start as int,
                to.end as int,
                isize::MIN as int,
                isize::MAX as int,
            ) {
                Some(v) => r == Some(v as isize),
                None => r == None::<isize>,
            }),
    {
        let s: isize = match self.checked_sub(from.start) {
            Some(v) => v,
            None => {
                return None;
            },
        };
        let dt: isize = match to.end.checked_sub(to.start) {
            Some(v) => v,
            None => {
                return None;
            },
        };
        let p: isize = match s.checked_mul(dt) {
            Some(v) => v,
            None => {
                return None;
            },
        };
        let df: isize = match from.end.checked_sub(from.start) {
            Some(v) => v,
            None => {
                return None;
            },
        };
        let q: isize = match p.checked_div(df) {
            Some(v) => v,
            None => {
                return None;
            },
        };
        to.start.checked_add(q)
    }
}

} // verus!
