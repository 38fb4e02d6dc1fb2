//! Runtime type tags and the dynamic values that flow between tasks.
//!
//! A waiting task declares one [`TypeTag`] per input slot. A producer's
//! sub-result travels as a [`Value`], which carries its own tag; a slot
//! accepts a value only when the two tags are equal.
use vstd::prelude::*;

verus! {

/// The runtime type of a value that can travel along a binding.
#[derive(Clone, Copy, Debug, PartialEq, Eq, Structural)]
pub enum TypeTag {
    Unit,
    Bool,
    Char,
    I8,
    I16,
    I32,
    I64,
    Isize,
    U8,
    U16,
    U32,
    U64,
    Usize,
    Str,
    Text,
    I32s,
}

/// A value of one of the supported types, tagged with that type.
#[derive(Debug, PartialEq)]
pub enum Value {
    Unit,
    Bool(bool),
    Char(char),
    I8(i8),
    I16(i16),
    I32(i32),
    I64(i64),
    Isize(isize),
    U8(u8),
    U16(u16),
    U32(u32),
    U64(u64),
    Usize(usize),
    Str(&'static str),
    Text(String),
    I32s(Vec<i32>),
}

impl Value {
    /// The runtime type of a value.
    pub open spec fn tag_spec(self) -> TypeTag {
        match self {
            Value::Unit => TypeTag::Unit,
            Value::Bool(_) => TypeTag::Bool,
            Value::Char(_) => TypeTag::Char,
            Value::I8(_) => TypeTag::I8,
            Value::I16(_) => TypeTag::I16,
            Value::I32(_) => TypeTag::I32,
            Value::I64(_) => TypeTag::I64,
            Value::Isize(_) => TypeTag::Isize,
            Value::U8(_) => TypeTag::U8,
            Value::U16(_) => TypeTag::U16,
            Value::U32(_) => TypeTag::U32,
            Value::U64(_) => TypeTag::U64,
            Value::Usize(_) => TypeTag::Usize,
            Value::Str(_) => TypeTag::Str,
            Value::Text(_) => TypeTag::Text,
            Value::I32s(_) => TypeTag::I32s,
        }
    }

    /// The runtime type of this value.
    pub fn tag(&self) -> (r: TypeTag)
        ensures
            r == self.tag_spec(),
    {
        match self {
            Value::Unit => TypeTag::Unit,
            Value::Bool(_) => TypeTag::Bool,
            Value::Char(_) => TypeTag::Char,
            Value::I8(_) => TypeTag::I8,
            Value::I16(_) => TypeTag::I16,
            Value::I32(_) => TypeTag::I32,
            Value::I64(_) => TypeTag::I64,
            Value::Isize(_) => TypeTag::Isize,
            Value::U8(_) => TypeTag::U8,
            Value::U16(_) => TypeTag::U16,
            Value::U32(_) => TypeTag::U32,
            Value::U64(_) => TypeTag::U64,
            Value::Usize(_) => TypeTag::Usize,
            Value::Str(_) => TypeTag::Str,
            Value::Text(_) => TypeTag::Text,
            Value::I32s(_) => TypeTag::I32s,
        }
    }
}

/// A Rust type that has a runtime tag and converts to and from [`Value`].
pub trait Typed: Sized {
    /// The tag of this type.
    spec fn tag_of() -> TypeTag;

    /// The value that holds `x`.
    spec fn wrap(x: Self) -> Value;

    fn type_tag() -> (r: TypeTag)
        ensures
            r == Self::tag_of(),
    ;

    fn into_value(self) -> (v: Value)
        ensures
            v == Self::wrap(self),
            v.tag_spec() == Self::tag_of(),
    ;

    /// The payload of `v` when its tag is this type's tag.
    fn from_value(v: Value) -> (r: Option<Self>)
        ensures
            r.is_some() <==> v.tag_spec() == Self::tag_of(),
            r matches Some(x) ==> Self::wrap(x) == v,
    ;
}

impl Typed for () {
    open spec fn tag_of() -> TypeTag {
        TypeTag::Unit
    }

    open spec fn wrap(x: ()) -> Value {
        Value::Unit
    }

    fn type_tag() -> (r: TypeTag) {
        TypeTag::Unit
    }

    fn into_value(self) -> (v: Value) {
        Value::Unit
    }

    fn from_value(v: Value) -> (r: Option<()>) {
        match v {
            Value::Unit => Some(()),
            _ => None,
        }
    }
}

impl Typed for bool {
    open spec fn tag_of() -> TypeTag {
        TypeTag::Bool
    }

    open spec fn wrap(x: bool) -> Value {
        Value::Bool(x)
    }

    fn type_tag() -> (r: TypeTag) {
        TypeTag::Bool
    }

    fn into_value(self) -> (v: Value) {
        Value::Bool(self)
    }

    fn from_value(v: Value) -> (r: Option<bool>) {
        match v {
            Value::Bool(x) => Some(x),
            _ => None,
        }
    }
}

impl Typed for char {
    open spec fn tag_of() -> TypeTag {
        TypeTag::Char
    }

    open spec fn wrap(x: char) -> Value {
        Value::Char(x)
    }

    fn type_tag() -> (r: TypeTag) {
        TypeTag::Char
    }

    fn into_value(self) -> (v: Value) {
        Value::Char(self)
    }

    fn from_value(v: Value) -> (r: Option<char>) {
        match v {
            Value::Char(x) => Some(x),
            _ => None,
        }
    }
}

impl Typed for i8 {
    open spec fn tag_of() -> TypeTag {
        TypeTag::I8
    }

    open spec fn wrap(x: i8) -> Value {
        Value::I8(x)
    }

    fn type_tag() -> (r: TypeTag) {
        TypeTag::I8
    }

    fn into_value(self) -> (v: Value) {
        Value::I8(self)
    }

    fn from_value(v: Value) -> (r: Option<i8>) {
        match v {
            Value::I8(x) => Some(x),
            _ => None,
        }
    }
}

impl Typed for i16 {
    open spec fn tag_of() -> TypeTag {
        TypeTag::I16
    }

    open spec fn wrap(x: i16) -> Value {
        Value::I16(x)
    }

    fn type_tag() -> (r: TypeTag) {
        TypeTag::I16
    }

    fn into_value(self) -> (v: Value) {
        Value::I16(self)
    }

    fn from_value(v: Value) -> (r: Option<i16>) {
        match v {
            Value::I16(x) => Some(x),
            _ => None,
        }
    }
}

impl Typed for i32 {
    open spec fn tag_of() -> TypeTag {
        TypeTag::I32
    }

    open spec fn wrap(x: i32) -> Value {
        Value::I32(x)
    }

    fn type_tag() -> (r: TypeTag) {
        TypeTag::I32
    }

    fn into_value(self) -> (v: Value) {
        Value::I32(self)
    }

    fn from_value(v: Value) -> (r: Option<i32>) {
        match v {
            Value::I32(x) => Some(x),
            _ => None,
        }
    }
}

impl Typed for i64 {
    open spec fn tag_of() -> TypeTag {
        TypeTag::I64
    }

    open spec fn wrap(x: i64) -> Value {
        Value::I64(x)
    }

    fn type_tag() -> (r: TypeTag) {
        TypeTag::I64
    }

    fn into_value(self) -> (v: Value) {
        Value::I64(self)
    }

    fn from_value(v: Value) -> (r: Option<i64>) {
        match v {
            Value::I64(x) => Some(x),
            _ => None,
        }
    }
}

impl Typed for isize {
    open spec fn tag_of() -> TypeTag {
        TypeTag::Isize
    }

    open spec fn wrap(x: isize) -> Value {
        Value::Isize(x)
    }

    fn type_tag() -> (r: TypeTag) {
        TypeTag::Isize
    }

    fn into_value(self) -> (v: Value) {
        Value::Isize(self)
    }

    fn from_value(v: Value) -> (r: Option<isize>) {
        match v {
            Value::Isize(x) => Some(x),
            _ => None,
        }
    }
}

impl Typed for u8 {
    open spec fn tag_of() -> TypeTag {
        TypeTag::U8
    }

    open spec fn wrap(x: u8) -> Value {
        Value::U8(x)
    }

    fn type_tag() -> (r: TypeTag) {
        TypeTag::U8
    }

    fn into_value(self) -> (v: Value) {
        Value::U8(self)
    }

    fn from_value(v: Value) -> (r: Option<u8>) {
        match v {
            Value::U8(x) => Some(x),
            _ => None,
        }
    }
}

impl Typed for u16 {
    open spec fn tag_of() -> TypeTag {
        TypeTag::U16
    }

    open spec fn wrap(x: u16) -> Value {
        Value::U16(x)
    }

    fn type_tag() -> (r: TypeTag) {
        TypeTag::U16
    }

    fn into_value(self) -> (v: Value) {
        Value::U16(self)
    }

    fn from_value(v: Value) -> (r: Option<u16>) {
        match v {
            Value::U16(x) => Some(x),
            _ => None,
        }
    }
}

impl Typed for u32 {
    open spec fn tag_of() -> TypeTag {
        TypeTag::U32
    }

    open spec fn wrap(x: u32) -> Value {
        Value::U32(x)
    }

    fn type_tag() -> (r: TypeTag) {
        TypeTag::U32
    }

    fn into_value(self) -> (v: Value) {
        Value::U32(self)
    }

    fn from_value(v: Value) -> (r: Option<u32>) {
        match v {
            Value::U32(x) => Some(x),
            _ => None,
        }
    }
}

impl Typed for u64 {
    open spec fn tag_of() -> TypeTag {
        TypeTag::U64
    }

    open spec fn wrap(x: u64) -> Value {
        Value::U64(x)
    }

    fn type_tag() -> (r: TypeTag) {
        TypeTag::U64
    }

    fn into_value(self) -> (v: Value) {
        Value::U64(self)
    }

    fn from_value(v: Value) -> (r: Option<u64>) {
        match v {
            Value::U64(x) => Some(x),
            _ => None,
        }
    }
}

impl Typed for usize {
    open spec fn tag_of() -> TypeTag {
        TypeTag::Usize
    }

    open spec fn wrap(x: usize) -> Value {
        Value::Usize(x)
    }

    fn type_tag() -> (r: TypeTag) {
        TypeTag::Usize
    }

    fn into_value(self) -> (v: Value) {
        Value::Usize(self)
    }

    fn from_value(v: Value) -> (r: Option<usize>) {
        match v {
            Value::Usize(x) => Some(x),
            _ => None,
        }
    }
}

impl Typed for &'static str {
    open spec fn tag_of() -> TypeTag {
        TypeTag::Str
    }

    open spec fn wrap(x: &'static str) -> Value {
        Value::Str(x)
    }

    fn type_tag() -> (r: TypeTag) {
        TypeTag::Str
    }

    fn into_value(self) -> (v: Value) {
        Value::Str(self)
    }

    fn from_value(v: Value) -> (r: Option<&'static str>) {
        match v {
            Value::Str(x) => Some(x),
            _ => None,
        }
    }
}

impl Typed for String {
    open spec fn tag_of() -> TypeTag {
        TypeTag::Text
    }

    open spec fn wrap(x: String) -> Value {
        Value::Text(x)
    }

    fn type_tag() -> (r: TypeTag) {
        TypeTag::Text
    }

    fn into_value(self) -> (v: Value) {
        Value::Text(self)
    }

    fn from_value(v: Value) -> (r: Option<String>) {
        match v {
            Value::Text(x) => Some(x),
            _ => None,
        }
    }
}

impl Typed for Vec<i32> {
    open spec fn tag_of() -> TypeTag {
        TypeTag::I32s
    }

    open spec fn wrap(x: Vec<i32>) -> Value {
        Value::I32s(x)
    }

    fn type_tag() -> (r: TypeTag) {
        TypeTag::I32s
    }

    fn into_value(self) -> (v: Value) {
        Value::I32s(self)
    }

    fn from_value(v: Value) -> (r: Option<Vec<i32>>) {
        match v {
            Value::I32s(x) => Some(x),
            _ => None,
        }
    }
}

} // verus!
