//! The value model of the emitted wrapper: what a wrapper value holds at
//! run time, what the emitted conversions do with it, and the values of the
//! emitted constants.
//!
//! A generated wrapper has identical layout to its single field, so a value
//! of it is modeled as exactly one primitive integer value; the two emitted
//! conversions are a direct wrap and unwrap of that value.

use vstd::prelude::*;

use crate::classify::PrimInt;

verus! {

/// A value of one of the eight recognized primitive integer types.
#[derive(Clone, Copy, PartialEq, Eq, Structural, Debug)]
pub enum InnerValue {
    U8(u8),
    U16(u16),
    U32(u32),
    U64(u64),
    I8(i8),
    I16(i16),
    I32(i32),
    I64(i64),
}

/// A value of a generated wrapper type: its single inner field, nothing
/// more.
#[derive(Clone, Copy, PartialEq, Eq, Structural, Debug)]
pub struct WrapperValue {
    pub inner: InnerValue,
}

/// The primitive integer type a value belongs to.
pub open spec fn value_type(v: InnerValue) -> PrimInt {
    match v {
        InnerValue::U8(_) => PrimInt::U8,
        InnerValue::U16(_) => PrimInt::U16,
        InnerValue::U32(_) => PrimInt::U32,
        InnerValue::U64(_) => PrimInt::U64,
        InnerValue::I8(_) => PrimInt::I8,
        InnerValue::I16(_) => PrimInt::I16,
        InnerValue::I32(_) => PrimInt::I32,
        InnerValue::I64(_) => PrimInt::I64,
    }
}

/// What the emitted inner-to-wrapper conversion computes.
pub open spec fn spec_wrap(v: InnerValue) -> WrapperValue {
    WrapperValue { inner: v }
}

/// What the emitted wrapper-to-inner conversion computes.
pub open spec fn spec_unwrap(w: WrapperValue) -> InnerValue {
    w.inner
}

/// The emitted inner-to-wrapper conversion: total, a direct wrap.
pub fn wrap(v: InnerValue) -> (w: WrapperValue)
    ensures
        w == spec_wrap(v),
{
    WrapperValue { inner: v }
}

/// The emitted wrapper-to-inner conversion: total, a direct unwrap.
pub fn unwrap(w: WrapperValue) -> (v: InnerValue)
    ensures
        v == spec_unwrap(w),
{
    w.inner
}

/// The value of the emitted `MIN` constant: the minimum representable value
/// of the inner type, wrapped.
pub open spec fn spec_min_value(p: PrimInt) -> InnerValue {
    match p {
        PrimInt::U8 => InnerValue::U8(u8::MIN),
        PrimInt::U16 => InnerValue::U16(u16::MIN),
        PrimInt::U32 => InnerValue::U32(u32::MIN),
        PrimInt::U64 => InnerValue::U64(u64::MIN),
        PrimInt::I8 => InnerValue::I8(i8::MIN),
        PrimInt::I16 => InnerValue::I16(i16::MIN),
        PrimInt::I32 => InnerValue::I32(i32::MIN),
        PrimInt::I64 => InnerValue::I64(i64::MIN),
    }
}

/// The value of the emitted `MAX` constant: the maximum representable value
/// of the inner type, wrapped.
pub open spec fn spec_max_value(p: PrimInt) -> InnerValue {
    match p {
        PrimInt::U8 => InnerValue::U8(u8::MAX),
        PrimInt::U16 => InnerValue::U16(u16::MAX),
        PrimInt::U32 => InnerValue::U32(u32::MAX),
        PrimInt::U64 => InnerValue::U64(u64::MAX),
        PrimInt::I8 => InnerValue::I8(i8::MAX),
        PrimInt::I16 => InnerValue::I16(i16::MAX),
        PrimInt::I32 => InnerValue::I32(i32::MAX),
        PrimInt::I64 => InnerValue::I64(i64::MAX),
    }
}

/// The value of the emitted `BITS` constant: the bit width of the inner
/// type.
pub open spec fn spec_bits(p: PrimInt) -> u32 {
    match p {
        PrimInt::U8 => u8::BITS,
        PrimInt::U16 => u16::BITS,
        PrimInt::U32 => u32::BITS,
        PrimInt::U64 => u64::BITS,
        PrimInt::I8 => i8::BITS,
        PrimInt::I16 => i16::BITS,
        PrimInt::I32 => i32::BITS,
        PrimInt::I64 => i64::BITS,
    }
}

/// The emitted `MIN` constant of a wrapper over the given inner type.
pub fn min_value(p: PrimInt) -> (w: WrapperValue)
    ensures
        w == spec_wrap(spec_min_value(p)),
        value_type(w.inner) == p,
{
    let v = match p {
        PrimInt::U8 => InnerValue::U8(u8::MIN),
        PrimInt::U16 => InnerValue::U16(u16::MIN),
        PrimInt::U32 => InnerValue::U32(u32::MIN),
        PrimInt::U64 => InnerValue::U64(u64::MIN),
        PrimInt::I8 => InnerValue::I8(i8::MIN),
        PrimInt::I16 => InnerValue::I16(i16::MIN),
        PrimInt::I32 => InnerValue::I32(i32::MIN),
        PrimInt::I64 => InnerValue::I64(i64::MIN),
    };
    WrapperValue { inner: v }
}

/// The emitted `MAX` constant of a wrapper over the given inner type.
pub fn max_value(p: PrimInt) -> (w: WrapperValue)
    ensures
        w == spec_wrap(spec_max_value(p)),
        value_type(w.inner) == p,
{
    let v = match p {
        PrimInt::U8 => InnerValue::U8(u8::MAX),
        PrimInt::U16 => InnerValue::U16(u16::MAX),
        PrimInt::U32 => InnerValue::U32(u32::MAX),
        PrimInt::U64 => InnerValue::U64(u64::MAX),
        PrimInt::I8 => InnerValue::I8(i8::MAX),
        PrimInt::I16 => InnerValue::I16(i16::MAX),
        PrimInt::I32 => InnerValue::I32(i32::MAX),
        PrimInt::I64 => InnerValue::I64(i64::MAX),
    };
    WrapperValue { inner: v }
}

/// The emitted `BITS` constant of a wrapper over the given inner type.
pub fn bits(p: PrimInt) -> (b: u32)
    ensures
        b == spec_bits(p),
{
    match p {
        PrimInt::U8 => 8,
        PrimInt::U16 => 16,
        PrimInt::U32 => 32,
        PrimInt::U64 => 64,
        PrimInt::I8 => 8,
        PrimInt::I16 => 16,
        PrimInt::I32 => 32,
        PrimInt::I64 => 64,
    }
}

/// Round trip: converting any representable inner value to the wrapper and
/// back is the identity, and wrapping is injective the other way around as
/// well — a wrapper value converted to its inner type and re-wrapped is
/// itself.
pub proof fn lemma_conversion_round_trip(v: InnerValue, w: WrapperValue)
    ensures
        spec_unwrap(spec_wrap(v)) == v,
        spec_wrap(spec_unwrap(w)) == w,
{
}

} // verus!
