//! Conversions between values and primitive integers.
use crate::value::unsigned_integer::UnsignedInteger;
use vstd::prelude::*;
use vstd::std_specs::convert::{FromSpecImpl, TryFromSpec, TryFromSpecImpl};

verus! {

/// Error of a conversion to a primitive integer type whose range does not
/// hold the number. It gives the value back.
#[derive(Debug)]
pub struct UnsignedIntegerOutOfTargetBounds(pub UnsignedInteger);

impl From<u8> for UnsignedInteger {
    fn from(value: u8) -> (r: Self)
        ensures
            r@ == value,
    {
        UnsignedInteger::from_u64(value as u64)
    }
}

impl FromSpecImpl<u8> for UnsignedInteger {
    /// The result is stated by `from`'s own `ensures`, over the value.
    open spec fn obeys_from_spec() -> bool {
        false
    }

    open spec fn from_spec(v: u8) -> Self {
        choose|r: Self| r@ == v
    }
}

impl From<u16> for UnsignedInteger {
    fn from(value: u16) -> (r: Self)
        ensures
            r@ == value,
    {
        UnsignedInteger::from_u64(value as u64)
    }
}

impl FromSpecImpl<u16> for UnsignedInteger {
    /// The result is stated by `from`'s own `ensures`, over the value.
    open spec fn obeys_from_spec() -> bool {
        false
    }

    open spec fn from_spec(v: u16) -> Self {
        choose|r: Self| r@ == v
    }
}

impl From<u32> for UnsignedInteger {
    fn from(value: u32) -> (r: Self)
        ensures
            r@ == value,
    {
        UnsignedInteger::from_u64(value as u64)
    }
}

impl FromSpecImpl<u32> for UnsignedInteger {
    /// The result is stated by `from`'s own `ensures`, over the value.
    open spec fn obeys_from_spec() -> bool {
        false
    }

    open spec fn from_spec(v: u32) -> Self {
        choose|r: Self| r@ == v
    }
}

impl From<u64> for UnsignedInteger {
    fn from(value: u64) -> (r: Self)
        ensures
            r@ == value,
    {
        UnsignedInteger::from_u64(value as u64)
    }
}

impl FromSpecImpl<u64> for UnsignedInteger {
    /// The result is stated by `from`'s own `ensures`, over the value.
    open spec fn obeys_from_spec() -> bool {
        false
    }

    open spec fn from_spec(v: u64) -> Self {
        choose|r: Self| r@ == v
    }
}

impl From<usize> for UnsignedInteger {
    fn from(value: usize) -> (r: Self)
        ensures
            r@ == value,
    {
        UnsignedInteger::from_u64(value as u64)
    }
}

impl FromSpecImpl<usize> for UnsignedInteger {
    /// The result is stated by `from`'s own `ensures`, over the value.
    open spec fn obeys_from_spec() -> bool {
        false
    }

    open spec fn from_spec(v: usize) -> Self {
        choose|r: Self| r@ == v
    }
}

impl TryFrom<UnsignedInteger> for u8 {
    type Error = UnsignedIntegerOutOfTargetBounds;

    fn try_from(value: UnsignedInteger) -> (r: Result<u8, UnsignedIntegerOutOfTargetBounds>)
        ensures
            r is Ok <==> value@ <= u8::MAX,
            r matches Ok(n) ==> n as int == value@,
            r matches Err(e) ==> e.0@ == value@,
    {
        match value.to_u64_checked() {
            Some(x) => {
                if x <= (u8::MAX as u64) {
                    Ok(x as u8)
                } else {
                    Err(UnsignedIntegerOutOfTargetBounds(value))
                }
            },
            None => Err(UnsignedIntegerOutOfTargetBounds(value)),
        }
    }
}

impl TryFromSpecImpl<UnsignedInteger> for u8 {
    open spec fn obeys_try_from_spec() -> bool {
        true
    }

    open spec fn try_from_spec(v: UnsignedInteger) -> Result<u8, UnsignedIntegerOutOfTargetBounds> {
        if v@ <= u8::MAX {
            Ok(v@ as u8)
        } else {
            Err(UnsignedIntegerOutOfTargetBounds(v))
        }
    }
}

impl TryFrom<UnsignedInteger> for u16 {
    type Error = UnsignedIntegerOutOfTargetBounds;

    fn try_from(value: UnsignedInteger) -> (r: Result<u16, UnsignedIntegerOutOfTargetBounds>)
        ensures
            r is Ok <==> value@ <= u16::MAX,
            r matches Ok(n) ==> n as int == value@,
            r matches Err(e) ==> e.0@ == value@,
    {
        match value.to_u64_checked() {
            Some(x) => {
                if x <= (u16::MAX as u64) {
                    Ok(x as u16)
                } else {
                    Err(UnsignedIntegerOutOfTargetBounds(value))
                }
            },
            None => Err(UnsignedIntegerOutOfTargetBounds(value)),
        }
    }
}

impl TryFromSpecImpl<UnsignedInteger> for u16 {
    open spec fn obeys_try_from_spec() -> bool {
        true
    }

    open spec fn try_from_spec(v: UnsignedInteger) -> Result<u16, UnsignedIntegerOutOfTargetBounds> {
        if v@ <= u16::MAX {
            Ok(v@ as u16)
        } else {
            Err(UnsignedIntegerOutOfTargetBounds(v))
        }
    }
}

impl TryFrom<UnsignedInteger> for u32 {
    type Error = UnsignedIntegerOutOfTargetBounds;

    fn try_from(value: UnsignedInteger) -> (r: Result<u32, UnsignedIntegerOutOfTargetBounds>)
        ensures
            r is Ok <==> value@ <= u32::MAX,
            r matches Ok(n) ==> n as int == value@,
            r matches Err(e) ==> e.0@ == value@,
    {
        match value.to_u64_checked() {
            Some(x) => {
                if x <= (u32::MAX as u64) {
                    Ok(x as u32)
                } else {
                    Err(UnsignedIntegerOutOfTargetBounds(value))
                }
            },
            None => Err(UnsignedIntegerOutOfTargetBounds(value)),
        }
    }
}

impl TryFromSpecImpl<UnsignedInteger> for u32 {
    open spec fn obeys_try_from_spec() -> bool {
        true
    }

    open spec fn try_from_spec(v: UnsignedInteger) -> Result<u32, UnsignedIntegerOutOfTargetBounds> {
        if v@ <= u32::MAX {
            Ok(v@ as u32)
        } else {
            Err(UnsignedIntegerOutOfTargetBounds(v))
        }
    }
}

impl TryFrom<UnsignedInteger> for u64 {
    type Error = UnsignedIntegerOutOfTargetBounds;

    fn try_from(value: UnsignedInteger) -> (r: Result<u64, UnsignedIntegerOutOfTargetBounds>)
        ensures
            r is Ok <==> value@ <= u64::MAX,
            r matches Ok(n) ==> n as int == value@,
            r matches Err(e) ==> e.0@ == value@,
    {
        match value.to_u64_checked() {
            Some(x) => {
                if x <= (u64::MAX as u64) {
                    Ok(x as u64)
                } else {
                    Err(UnsignedIntegerOutOfTargetBounds(value))
                }
            },
            None => Err(UnsignedIntegerOutOfTargetBounds(value)),
        }
    }
}

impl TryFromSpecImpl<UnsignedInteger> for u64 {
    open spec fn obeys_try_from_spec() -> bool {
        true
    }

    open spec fn try_from_spec(v: UnsignedInteger) -> Result<u64, UnsignedIntegerOutOfTargetBounds> {
        if v@ <= u64::MAX {
            Ok(v@ as u64)
        } else {
            Err(UnsignedIntegerOutOfTargetBounds(v))
        }
    }
}

impl TryFrom<UnsignedInteger> for usize {
    type Error = UnsignedIntegerOutOfTargetBounds;

    fn try_from(value: UnsignedInteger) -> (r: Result<usize, UnsignedIntegerOutOfTargetBounds>)
        ensures
            r is Ok <==> value@ <= usize::MAX,
            r matches Ok(n) ==> n as int == value@,
            r matches Err(e) ==> e.0@ == value@,
    {
        match value.to_u64_checked() {
            Some(x) => {
                if x <= (usize::MAX as u64) {
                    Ok(x as usize)
                } else {
                    Err(UnsignedIntegerOutOfTargetBounds(value))
                }
            },
            None => Err(UnsignedIntegerOutOfTargetBounds(value)),
        }
    }
}

impl TryFromSpecImpl<UnsignedInteger> for usize {
    open spec fn obeys_try_from_spec() -> bool {
        true
    }

    open spec fn try_from_spec(v: UnsignedInteger) -> Result<usize, UnsignedIntegerOutOfTargetBounds> {
        if v@ <= usize::MAX {
            Ok(v@ as usize)
        } else {
            Err(UnsignedIntegerOutOfTargetBounds(v))
        }
    }
}

impl TryFrom<UnsignedInteger> for i8 {
    type Error = UnsignedIntegerOutOfTargetBounds;

    fn try_from(value: UnsignedInteger) -> (r: Result<i8, UnsignedIntegerOutOfTargetBounds>)
        ensures
            r is Ok <==> value@ <= i8::MAX,
            r matches Ok(n) ==> n as int == value@,
            r matches Err(e) ==> e.0@ == value@,
    {
        match value.to_u64_checked() {
            Some(x) => {
                if x <= (i8::MAX as u64) {
                    Ok(x as i8)
                } else {
                    Err(UnsignedIntegerOutOfTargetBounds(value))
                }
            },
            None => Err(UnsignedIntegerOutOfTargetBounds(value)),
        }
    }
}

impl TryFromSpecImpl<UnsignedInteger> for i8 {
    open spec fn obeys_try_from_spec() -> bool {
        true
    }

    open spec fn try_from_spec(v: UnsignedInteger) -> Result<i8, UnsignedIntegerOutOfTargetBounds> {
        if v@ <= i8::MAX {
            Ok(v@ as i8)
        } else {
            Err(UnsignedIntegerOutOfTargetBounds(v))
        }
    }
}

impl TryFrom<UnsignedInteger> for i16 {
    type Error = UnsignedIntegerOutOfTargetBounds;

    fn try_from(value: UnsignedInteger) -> (r: Result<i16, UnsignedIntegerOutOfTargetBounds>)
        ensures
            r is Ok <==> value@ <= i16::MAX,
            r matches Ok(n) ==> n as int == value@,
            r matches Err(e) ==> e.0@ == value@,
    {
        match value.to_u64_checked() {
            Some(x) => {
                if x <= (i16::MAX as u64) {
                    Ok(x as i16)
                } else {
                    Err(UnsignedIntegerOutOfTargetBounds(value))
                }
            },
            None => Err(UnsignedIntegerOutOfTargetBounds(value)),
        }
    }
}

impl TryFromSpecImpl<UnsignedInteger> for i16 {
    open spec fn obeys_try_from_spec() -> bool {
        true
    }

    open spec fn try_from_spec(v: UnsignedInteger) -> Result<i16, UnsignedIntegerOutOfTargetBounds> {
        if v@ <= i16::MAX {
            Ok(v@ as i16)
        } else {
            Err(UnsignedIntegerOutOfTargetBounds(v))
        }
    }
}

impl TryFrom<UnsignedInteger> for i32 {
    type Error = UnsignedIntegerOutOfTargetBounds;

    fn try_from(value: UnsignedInteger) -> (r: Result<i32, UnsignedIntegerOutOfTargetBounds>)
        ensures
            r is Ok <==> value@ <= i32::MAX,
            r matches Ok(n) ==> n as int == value@,
            r matches Err(e) ==> e.0@ == value@,
    {
        match value.to_u64_checked() {
            Some(x) => {
                if x <= (i32::MAX as u64) {
                    Ok(x as i32)
                } else {
                    Err(UnsignedIntegerOutOfTargetBounds(value))
                }
            },
            None => Err(UnsignedIntegerOutOfTargetBounds(value)),
        }
    }
}

impl TryFromSpecImpl<UnsignedInteger> for i32 {
    open spec fn obeys_try_from_spec() -> bool {
        true
    }

    open spec fn try_from_spec(v: UnsignedInteger) -> Result<i32, UnsignedIntegerOutOfTargetBounds> {
        if v@ <= i32::MAX {
            Ok(v@ as i32)
        } else {
            Err(UnsignedIntegerOutOfTargetBounds(v))
        }
    }
}

impl TryFrom<UnsignedInteger> for i64 {
    type Error = UnsignedIntegerOutOfTargetBounds;

    fn try_from(value: UnsignedInteger) -> (r: Result<i64, UnsignedIntegerOutOfTargetBounds>)
        ensures
            r is Ok <==> value@ <= i64::MAX,
            r matches Ok(n) ==> n as int == value@,
            r matches Err(e) ==> e.0@ == value@,
    {
        match value.to_u64_checked() {
            Some(x) => {
                if x <= (i64::MAX as u64) {
                    Ok(x as i64)
                } else {
                    Err(UnsignedIntegerOutOfTargetBounds(value))
                }
            },
            None => Err(UnsignedIntegerOutOfTargetBounds(value)),
        }
    }
}

impl TryFromSpecImpl<UnsignedInteger> for i64 {
    open spec fn obeys_try_from_spec() -> bool {
        true
    }

    open spec fn try_from_spec(v: UnsignedInteger) -> Result<i64, UnsignedIntegerOutOfTargetBounds> {
        if v@ <= i64::MAX {
            Ok(v@ as i64)
        } else {
            Err(UnsignedIntegerOutOfTargetBounds(v))
        }
    }
}

impl TryFrom<UnsignedInteger> for isize {
    type Error = UnsignedIntegerOutOfTargetBounds;

    fn try_from(value: UnsignedInteger) -> (r: Result<isize, UnsignedIntegerOutOfTargetBounds>)
        ensures
            r is Ok <==> value@ <= isize::MAX,
            r matches Ok(n) ==> n as int == value@,
            r matches Err(e) ==> e.0@ == value@,
    {
        match value.to_u64_checked() {
            Some(x) => {
                if x <= (isize::MAX as u64) {
                    Ok(x as isize)
                } else {
                    Err(UnsignedIntegerOutOfTargetBounds(value))
                }
            },
            None => Err(UnsignedIntegerOutOfTargetBounds(value)),
        }
    }
}

impl TryFromSpecImpl<UnsignedInteger> for isize {
    open spec fn obeys_try_from_spec() -> bool {
        true
    }

    open spec fn try_from_spec(v: UnsignedInteger) -> Result<isize, UnsignedIntegerOutOfTargetBounds> {
        if v@ <= isize::MAX {
            Ok(v@ as isize)
        } else {
            Err(UnsignedIntegerOutOfTargetBounds(v))
        }
    }
}

/// Converting a value to `u8` succeeds exactly when the number fits in
/// `u8`, and then gives that number unchanged; otherwise the error gives
/// the same number back.
pub proof fn law_value_to_u8(v: UnsignedInteger)
    ensures
        (<u8 as TryFromSpec<UnsignedInteger>>::try_from_spec(v) is Ok) <==> v@ <= u8::MAX,
        <u8 as TryFromSpec<UnsignedInteger>>::try_from_spec(v) matches Ok(n) ==> n as int == v@,
        <u8 as TryFromSpec<UnsignedInteger>>::try_from_spec(v) matches Err(e) ==> e.0@ == v@,
{
}

/// Converting a value to `u16` succeeds exactly when the number fits in
/// `u16`, and then gives that number unchanged; otherwise the error gives
/// the same number back.
pub proof fn law_value_to_u16(v: UnsignedInteger)
    ensures
        (<u16 as TryFromSpec<UnsignedInteger>>::try_from_spec(v) is Ok) <==> v@ <= u16::MAX,
        <u16 as TryFromSpec<UnsignedInteger>>::try_from_spec(v) matches Ok(n) ==> n as int == v@,
        <u16 as TryFromSpec<UnsignedInteger>>::try_from_spec(v) matches Err(e) ==> e.0@ == v@,
{
}

/// Converting a value to `u32` succeeds exactly when the number fits in
/// `u32`, and then gives that number unchanged; otherwise the error gives
/// the same number back.
pub proof fn law_value_to_u32(v: UnsignedInteger)
    ensures
        (<u32 as TryFromSpec<UnsignedInteger>>::try_from_spec(v) is Ok) <==> v@ <= u32::MAX,
        <u32 as TryFromSpec<UnsignedInteger>>::try_from_spec(v) matches Ok(n) ==> n as int == v@,
        <u32 as TryFromSpec<UnsignedInteger>>::try_from_spec(v) matches Err(e) ==> e.0@ == v@,
{
}

/// Converting a value to `u64` succeeds exactly when the number fits in
/// `u64`, and then gives that number unchanged; otherwise the error gives
/// the same number back.
pub proof fn law_value_to_u64(v: UnsignedInteger)
    ensures
        (<u64 as TryFromSpec<UnsignedInteger>>::try_from_spec(v) is Ok) <==> v@ <= u64::MAX,
        <u64 as TryFromSpec<UnsignedInteger>>::try_from_spec(v) matches Ok(n) ==> n as int == v@,
        <u64 as TryFromSpec<UnsignedInteger>>::try_from_spec(v) matches Err(e) ==> e.0@ == v@,
{
}

/// Converting a value to `usize` succeeds exactly when the number fits in
/// `usize`, and then gives that number unchanged; otherwise the error gives
/// the same number back.
pub proof fn law_value_to_usize(v: UnsignedInteger)
    ensures
        (<usize as TryFromSpec<UnsignedInteger>>::try_from_spec(v) is Ok) <==> v@ <= usize::MAX,
        <usize as TryFromSpec<UnsignedInteger>>::try_from_spec(v) matches Ok(n) ==> n as int == v@,
        <usize as TryFromSpec<UnsignedInteger>>::try_from_spec(v) matches Err(e) ==> e.0@ == v@,
{
}

/// Converting a value to `i8` succeeds exactly when the number fits in
/// `i8`, and then gives that number unchanged; otherwise the error gives
/// the same number back.
pub proof fn law_value_to_i8(v: UnsignedInteger)
    ensures
        (<i8 as TryFromSpec<UnsignedInteger>>::try_from_spec(v) is Ok) <==> v@ <= i8::MAX,
        <i8 as TryFromSpec<UnsignedInteger>>::try_from_spec(v) matches Ok(n) ==> n as int == v@,
        <i8 as TryFromSpec<UnsignedInteger>>::try_from_spec(v) matches Err(e) ==> e.0@ == v@,
{
}

/// Converting a value to `i16` succeeds exactly when the number fits in
/// `i16`, and then gives that number unchanged; otherwise the error gives
/// the same number back.
pub proof fn law_value_to_i16(v: UnsignedInteger)
    ensures
        (<i16 as TryFromSpec<UnsignedInteger>>::try_from_spec(v) is Ok) <==> v@ <= i16::MAX,
        <i16 as TryFromSpec<UnsignedInteger>>::try_from_spec(v) matches Ok(n) ==> n as int == v@,
        <i16 as TryFromSpec<UnsignedInteger>>::try_from_spec(v) matches Err(e) ==> e.0@ == v@,
{
}

/// Converting a value to `i32` succeeds exactly when the number fits in
/// `i32`, and then gives that number unchanged; otherwise the error gives
/// the same number back.
pub proof fn law_value_to_i32(v: UnsignedInteger)
    ensures
        (<i32 as TryFromSpec<UnsignedInteger>>::try_from_spec(v) is Ok) <==> v@ <= i32::MAX,
        <i32 as TryFromSpec<UnsignedInteger>>::try_from_spec(v) matches Ok(n) ==> n as int == v@,
        <i32 as TryFromSpec<UnsignedInteger>>::try_from_spec(v) matches Err(e) ==> e.0@ == v@,
{
}

/// Converting a value to `i64` succeeds exactly when the number fits in
/// `i64`, and then gives that number unchanged; otherwise the error gives
/// the same number back.
pub proof fn law_value_to_i64(v: UnsignedInteger)
    ensures
        (<i64 as TryFromSpec<UnsignedInteger>>::try_from_spec(v) is Ok) <==> v@ <= i64::MAX,
        <i64 as TryFromSpec<UnsignedInteger>>::try_from_spec(v) matches Ok(n) ==> n as int == v@,
        <i64 as TryFromSpec<UnsignedInteger>>::try_from_spec(v) matches Err(e) ==> e.0@ == v@,
{
}

/// Converting a value to `isize` succeeds exactly when the number fits in
/// `isize`, and then gives that number unchanged; otherwise the error gives
/// the same number back.
pub proof fn law_value_to_isize(v: UnsignedInteger)
    ensures
        (<isize as TryFromSpec<UnsignedInteger>>::try_from_spec(v) is Ok) <==> v@ <= isize::MAX,
        <isize as TryFromSpec<UnsignedInteger>>::try_from_spec(v) matches Ok(n) ==> n as int == v@,
        <isize as TryFromSpec<UnsignedInteger>>::try_from_spec(v) matches Err(e) ==> e.0@ == v@,
{
}

} // verus!
