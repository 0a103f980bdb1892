//! The host side of the boundary, as data: the values a call carries, the
//! objects a notification allocates, and the scope that bounds them.

use vstd::prelude::*;
use crate::error::JniError;

verus! {

/// Most foreign objects one notification may allocate.
pub const MAX_JAVA_OBJECTS_CAPACITY: usize = 50;

/// One positional argument of a constructor or of a callback.
#[derive(Debug, PartialEq, Eq, Structural, Clone, Copy)]
pub enum ForeignValue {
    /// A 32-bit signed integer, `I` in a signature.
    Int(i32),
    /// A 64-bit signed integer, `J` in a signature.
    Long(i64),
    /// A reference to an object of the scope, by its position in it.
    Object(usize),
}

/// An unsigned 32-bit value in a 32-bit signed slot: the bit pattern stays.
pub open spec fn reinterpret_i32(x: u32) -> i32 {
    if x <= 0x7fff_ffff {
        x as i32
    } else {
        (x - 0x1_0000_0000) as i32
    }
}

/// An unsigned 64-bit value in a 64-bit signed slot: the bit pattern stays.
pub open spec fn reinterpret_i64(x: u64) -> i64 {
    if x <= 0x7fff_ffff_ffff_ffff {
        x as i64
    } else {
        (x - 0x1_0000_0000_0000_0000) as i64
    }
}

/// Stores an unsigned 32-bit value in a signed slot of the same width.
pub fn int_from_u32(x: u32) -> (r: i32)
    ensures
        r == reinterpret_i32(x),
{
    if x <= 0x7fff_ffff {
        x as i32
    } else {
        let low: u32 = x - 0x8000_0000;
        (low as i32) + i32::MIN
    }
}

/// Stores an unsigned 64-bit value in a signed slot of the same width.
pub fn long_from_u64(x: u64) -> (r: i64)
    ensures
        r == reinterpret_i64(x),
{
    if x <= 0x7fff_ffff_ffff_ffff {
        x as i64
    } else {
        let low: u64 = x - 0x8000_0000_0000_0000;
        (low as i64) + i64::MIN
    }
}

/// Whether a length or a count can be said in 32 signed bits, as the host
/// says the length of every array.
pub fn fits_int(n: usize) -> (fits: bool)
    ensures
        fits == (n <= i32::MAX),
{
    n <= 0x7fff_ffff
}

/// A length or a count in a 32-bit signed slot, where it fits.
pub fn int_from_usize(n: usize) -> (r: Result<i32, JniError>)
    ensures
        n <= i32::MAX ==> r == Ok::<i32, JniError>(n as i32),
        n > i32::MAX ==> r == Err::<i32, JniError>(JniError::EncodingContract),
{
    if n <= 0x7fff_ffff {
        Ok(n as i32)
    } else {
        Err(JniError::EncodingContract)
    }
}

/// An unsigned 32-bit number in a 32-bit signed slot, where it fits.
pub fn int_from_u32_checked(x: u32) -> (r: Result<i32, JniError>)
    ensures
        x <= i32::MAX ==> r == Ok::<i32, JniError>(x as i32),
        x > i32::MAX ==> r == Err::<i32, JniError>(JniError::EncodingContract),
{
    if x <= 0x7fff_ffff {
        Ok(x as i32)
    } else {
        Err(JniError::EncodingContract)
    }
}

/// An object that lives on the host for the time of one notification.
#[derive(Debug, PartialEq, Eq, Clone)]
pub enum ForeignObject {
    /// A string.
    Text(String),
    /// A byte array with its contents.
    ByteArray(Vec<u8>),
    /// A byte array of the given length, all zero.
    ZeroedByteArray(i32),
    /// An array of 32-bit integers with its contents.
    IntArray(Vec<i32>),
    /// An array of 64-bit integers with its contents.
    LongArray(Vec<i64>),
    /// The class that the class loader finds under the name held by the
    /// object at `name`; the host keeps it under `slot` beyond the scope.
    LoadedClass { slot: usize, name: usize },
    /// An instance of the class kept under `class`, made by the constructor
    /// of the given signature from the given arguments.
    Instance { class: usize, signature: String, fields: Vec<ForeignValue> },
    /// An array of instances of the class kept under `class`: as many
    /// elements as `length` says, each the object at `fill` until
    /// `elements` replaces the leading ones.
    InstanceArray { class: usize, length: i32, fill: usize, elements: Vec<usize> },
}

/// What a `ForeignObject` holds, as mathematical values.
pub enum ForeignObjectView {
    Text(Seq<char>),
    ByteArray(Seq<u8>),
    ZeroedByteArray(i32),
    IntArray(Seq<i32>),
    LongArray(Seq<i64>),
    LoadedClass { slot: usize, name: usize },
    Instance { class: usize, signature: Seq<char>, fields: Seq<ForeignValue> },
    InstanceArray { class: usize, length: i32, fill: usize, elements: Seq<usize> },
}

impl View for ForeignObject {
    type V = ForeignObjectView;

    open spec fn view(&self) -> ForeignObjectView {
        match self {
            ForeignObject::Text(s) => ForeignObjectView::Text(s@),
            ForeignObject::ByteArray(b) => ForeignObjectView::ByteArray(b@),
            ForeignObject::ZeroedByteArray(n) => ForeignObjectView::ZeroedByteArray(*n),
            ForeignObject::IntArray(v) => ForeignObjectView::IntArray(v@),
            ForeignObject::LongArray(v) => ForeignObjectView::LongArray(v@),
            ForeignObject::LoadedClass { slot, name } => ForeignObjectView::LoadedClass {
                slot: *slot,
                name: *name,
            },
            ForeignObject::Instance { class, signature, fields } => ForeignObjectView::Instance {
                class: *class,
                signature: signature@,
                fields: fields@,
            },
            ForeignObject::InstanceArray { class, length, fill, elements } =>
                ForeignObjectView::InstanceArray {
                    class: *class,
                    length: *length,
                    fill: *fill,
                    elements: elements@,
                },
        }
    }
}

/// One call of a method of the callback object.
#[derive(Debug, PartialEq, Eq, Clone)]
pub struct Invocation {
    /// Where the host keeps the method's handle.
    pub method: usize,
    /// Whether the host has to look the method up before the call.
    pub lookup: bool,
    pub name: String,
    pub signature: String,
    pub args: Vec<ForeignValue>,
}

/// What an `Invocation` holds, as mathematical values.
pub struct InvocationView {
    pub method: usize,
    pub lookup: bool,
    pub name: Seq<char>,
    pub signature: Seq<char>,
    pub args: Seq<ForeignValue>,
}

impl View for Invocation {
    type V = InvocationView;

    open spec fn view(&self) -> InvocationView {
        InvocationView {
            method: self.method,
            lookup: self.lookup,
            name: self.name@,
            signature: self.signature@,
            args: self.args@,
        }
    }
}

} // verus!
