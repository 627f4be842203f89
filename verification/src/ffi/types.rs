//! The values that cross the process boundary, and the types they have.
//!
//! Floating-point values travel as their IEEE-754 bit patterns: nothing on the
//! calling side computes with them.
use crate::errors::FFIError;
use crate::text::{
    decimal, decimalText, denotes, signedDecimal, signedDecimalText, writtenNumbersDenoteThemselves,
};
use vstd::prelude::*;
use vstd::string::*;

verus! {

// ------------------------------------------------------------------------------------------------
// Types
// ------------------------------------------------------------------------------------------------

/// The type of a value that crosses the process boundary.
#[derive(Debug, PartialEq)]
pub enum Type {
    Void,
    I8,
    I16,
    I32,
    I64,
    U8,
    U16,
    U32,
    U64,
    F32,
    F64,
    Pointer,
    String,
    CString,
    RawString,
    Struct(Vec<Type>),
}

/// What a [`Type`] denotes, independent of how its field list is stored.
pub enum TypeShape {
    Void,
    I8,
    I16,
    I32,
    I64,
    U8,
    U16,
    U32,
    U64,
    F32,
    F64,
    Pointer,
    String,
    CString,
    RawString,
    Struct(Seq<TypeShape>),
}

/// The shapes of a row of types, in order.
pub open spec fn typeShapes(types: Seq<Type>) -> Seq<TypeShape>
    decreases types,
{
    if types.len() == 0 {
        Seq::empty()
    } else {
        typeShapes(types.drop_last()).push(types.last().shape())
    }
}

impl View for Type {
    type V = TypeShape;

    open spec fn view(&self) -> TypeShape {
        self.shape()
    }
}

impl Type {
    /// What this type denotes.
    pub open spec fn shape(&self) -> TypeShape
        decreases self,
    {
        match self {
            Type::Void => TypeShape::Void,
            Type::I8 => TypeShape::I8,
            Type::I16 => TypeShape::I16,
            Type::I32 => TypeShape::I32,
            Type::I64 => TypeShape::I64,
            Type::U8 => TypeShape::U8,
            Type::U16 => TypeShape::U16,
            Type::U32 => TypeShape::U32,
            Type::U64 => TypeShape::U64,
            Type::F32 => TypeShape::F32,
            Type::F64 => TypeShape::F64,
            Type::Pointer => TypeShape::Pointer,
            Type::String => TypeShape::String,
            Type::CString => TypeShape::CString,
            Type::RawString => TypeShape::RawString,
            Type::Struct(fields) => TypeShape::Struct(typeShapes(fields@)),
        }
    }
}

/// The shapes of a row of types are the shapes of its members.
pub proof fn typeShapesMembers(types: Seq<Type>)
    ensures
        typeShapes(types).len() == types.len(),
        forall|i: int| 0 <= i < types.len() ==> #[trigger] typeShapes(types)[i] == types[i]@,
    decreases types.len(),
{
    if types.len() > 0 {
        typeShapesMembers(types.drop_last());
    }
}

impl Type {
    /// The type of a structure with the given fields, in order.
    pub fn structure(fields: &[Type]) -> (structure: Type)
        ensures
            structure@ == TypeShape::Struct(typeShapes(fields@)),
    {
        Type::Struct(Type::duplicateAll(fields))
    }

    fn duplicateAll(types: &[Type]) -> (copies: Vec<Type>)
        ensures
            typeShapes(copies@) == typeShapes(types@),
        decreases types@, 1nat,
    {
        let mut copies: Vec<Type> = Vec::new();
        let mut i: usize = 0;
        while i < types.len()
            invariant
                i <= types@.len(),
                copies@.len() == i,
                forall|j: int| 0 <= j < i ==> (#[trigger] copies@[j])@ == types@[j]@,
            decreases types@.len() - i,
        {
            copies.push(types[i].duplicate());
            i = i + 1;
        }
        proof {
            typeShapesMembers(copies@);
            typeShapesMembers(types@);
            assert(typeShapes(copies@) =~= typeShapes(types@));
        }
        copies
    }

    /// A type that denotes the same.
    pub fn duplicate(&self) -> (copy: Type)
        ensures
            copy@ == self@,
        decreases self, 0nat,
    {
        match self {
            Type::Void => Type::Void,
            Type::I8 => Type::I8,
            Type::I16 => Type::I16,
            Type::I32 => Type::I32,
            Type::I64 => Type::I64,
            Type::U8 => Type::U8,
            Type::U16 => Type::U16,
            Type::U32 => Type::U32,
            Type::U64 => Type::U64,
            Type::F32 => Type::F32,
            Type::F64 => Type::F64,
            Type::Pointer => Type::Pointer,
            Type::String => Type::String,
            Type::CString => Type::CString,
            Type::RawString => Type::RawString,
            Type::Struct(fields) => Type::Struct(Type::duplicateAll(fields.as_slice())),
        }
    }
}

// ------------------------------------------------------------------------------------------------
// Values
// ------------------------------------------------------------------------------------------------

/// A value that crosses the process boundary.
#[derive(Debug, PartialEq)]
pub enum Value {
    Void,
    I8(i8),
    I16(i16),
    I32(i32),
    I64(i64),
    U8(u8),
    U16(u16),
    U32(u32),
    U64(u64),
    /// A single-precision number, as its bit pattern.
    F32(u32),
    /// A double-precision number, as its bit pattern.
    F64(u64),
    Pointer(usize),
    String(String),
    /// The bytes of a C string, without the terminating zero.
    CString(Vec<u8>),
    RawString(Vec<u8>),
    /// A structure by value, field by field.
    Struct(Vec<Value>),
}

/// A text in quotation marks, as the `Debug` of `str` writes it: what would be
/// taken for something else is escaped.
pub uninterp spec fn quoted(text: Seq<char>) -> Seq<char>;

/// The `Debug` of `str`, by `format!`: the text that [`quoted`] names.
#[verifier::external_body]
fn quote(text: &str) -> (quotation: String)
    ensures
        quotation@ == quoted(text@),
{
    format!("{:?}", text)
}

/// How a value is printed in a message: its variant, and behind it in brackets
/// what it holds.
pub open spec fn printed(value: Value) -> Seq<char>
    decreases value,
{
    match value {
        Value::Void => "Void"@,
        Value::I8(n) => "I8("@ + signedDecimal(n as int) + ")"@,
        Value::I16(n) => "I16("@ + signedDecimal(n as int) + ")"@,
        Value::I32(n) => "I32("@ + signedDecimal(n as int) + ")"@,
        Value::I64(n) => "I64("@ + signedDecimal(n as int) + ")"@,
        Value::U8(n) => "U8("@ + decimal(n as nat) + ")"@,
        Value::U16(n) => "U16("@ + decimal(n as nat) + ")"@,
        Value::U32(n) => "U32("@ + decimal(n as nat) + ")"@,
        Value::U64(n) => "U64("@ + decimal(n as nat) + ")"@,
        Value::F32(bits) => "F32("@ + decimal(bits as nat) + ")"@,
        Value::F64(bits) => "F64("@ + decimal(bits as nat) + ")"@,
        Value::Pointer(address) => "Pointer("@ + decimal(address as nat) + ")"@,
        Value::String(text) => "String("@ + quoted(text@) + ")"@,
        Value::CString(bytes) => "CString(["@ + printedBytes(bytes@) + "])"@,
        Value::RawString(bytes) => "RawString(["@ + printedBytes(bytes@) + "])"@,
        Value::Struct(fields) => "Struct(["@ + printedAll(fields@) + "])"@,
    }
}

/// Bytes in decimal, separated by commas.
pub open spec fn printedBytes(bytes: Seq<u8>) -> Seq<char>
    decreases bytes.len(),
{
    if bytes.len() == 0 {
        Seq::empty()
    } else if bytes.len() == 1 {
        decimal(bytes[0] as nat)
    } else {
        printedBytes(bytes.drop_last()) + ", "@ + decimal(bytes.last() as nat)
    }
}

/// Values as [`printed`], separated by commas.
pub open spec fn printedAll(values: Seq<Value>) -> Seq<char>
    decreases values,
{
    if values.len() == 0 {
        Seq::empty()
    } else if values.len() == 1 {
        printed(values[0])
    } else {
        printedAll(values.drop_last()) + ", "@ + printed(values.last())
    }
}

/// `open`, `content` and `close` in a row.
fn enclosed(open: &str, content: &str, close: &str) -> (text: String)
    ensures
        text@ == open@ + content@ + close@,
{
    let mut text: String = open.to_owned();
    text.append(content);
    text.append(close);
    text
}

fn printBytes(bytes: &Vec<u8>) -> (text: String)
    ensures
        text@ == printedBytes(bytes@),
{
    let mut text: String = String::new();
    let mut i: usize = 0;
    while i < bytes.len()
        invariant
            i <= bytes@.len(),
            text@ == printedBytes(bytes@.take(i as int)),
        decreases bytes@.len() - i,
    {
        assert(bytes@.take(i + 1).drop_last() =~= bytes@.take(i as int));
        if i > 0 {
            text.append(", ");
        }
        text.append(decimalText(bytes[i] as u64).as_str());
        i = i + 1;
        assert(text@ =~= printedBytes(bytes@.take(i as int)));
    }
    assert(bytes@.take(bytes@.len() as int) =~= bytes@);
    text
}

fn printAll(values: &Vec<Value>) -> (text: String)
    ensures
        text@ == printedAll(values@),
    decreases values, 1nat,
{
    let mut text: String = String::new();
    let mut i: usize = 0;
    while i < values.len()
        invariant
            i <= values@.len(),
            text@ == printedAll(values@.take(i as int)),
        decreases values@.len() - i,
    {
        assert(values@.take(i + 1).drop_last() =~= values@.take(i as int));
        if i > 0 {
            text.append(", ");
        }
        text.append(print(&values[i]).as_str());
        i = i + 1;
        assert(text@ =~= printedAll(values@.take(i as int)));
    }
    assert(values@.take(values@.len() as int) =~= values@);
    text
}

/// Prints a value for a message.
pub fn print(value: &Value) -> (text: String)
    ensures
        text@ == printed(*value),
    decreases value, 0nat,
{
    match value {
        Value::Void => "Void".to_owned(),
        Value::I8(n) => enclosed("I8(", signedDecimalText(*n as i64).as_str(), ")"),
        Value::I16(n) => enclosed("I16(", signedDecimalText(*n as i64).as_str(), ")"),
        Value::I32(n) => enclosed("I32(", signedDecimalText(*n as i64).as_str(), ")"),
        Value::I64(n) => enclosed("I64(", signedDecimalText(*n as i64).as_str(), ")"),
        Value::U8(n) => enclosed("U8(", decimalText(*n as u64).as_str(), ")"),
        Value::U16(n) => enclosed("U16(", decimalText(*n as u64).as_str(), ")"),
        Value::U32(n) => enclosed("U32(", decimalText(*n as u64).as_str(), ")"),
        Value::U64(n) => enclosed("U64(", decimalText(*n as u64).as_str(), ")"),
        Value::F32(bits) => enclosed("F32(", decimalText(*bits as u64).as_str(), ")"),
        Value::F64(bits) => enclosed("F64(", decimalText(*bits).as_str(), ")"),
        Value::Pointer(address) => enclosed("Pointer(", decimalText(*address as u64).as_str(), ")"),
        Value::String(text) => enclosed("String(", quote(text.as_str()).as_str(), ")"),
        Value::CString(bytes) => enclosed("CString([", printBytes(bytes).as_str(), "])"),
        Value::RawString(bytes) => enclosed("RawString([", printBytes(bytes).as_str(), "])"),
        Value::Struct(fields) => enclosed("Struct([", printAll(fields).as_str(), "])"),
    }
}

/// A structure passed or returned by value.
#[derive(Debug, PartialEq)]
pub struct StructValue {
    /// The fields, in order.
    pub values: Vec<Value>,
}

impl StructValue {
    /// The structure with the given fields.
    pub fn fromValues(values: Vec<Value>) -> (structure: Self)
        ensures
            structure.values == values,
    {
        StructValue { values }
    }
}

// ------------------------------------------------------------------------------------------------
// Typed access
// ------------------------------------------------------------------------------------------------

/// A value on its way into or out of a call.
#[derive(Debug, PartialEq)]
pub struct Arg(pub Value);

/// The message for a value of the wrong type: what was expected, what came.
pub open spec fn mismatchMessage(expected: Seq<char>, value: Value) -> Seq<char> {
    "expected "@ + expected + " return, got "@ + printed(value)
}

/// The error for a value of the wrong type.
pub fn mismatch(expected: &str, value: &Value) -> (error: FFIError)
    ensures
        error matches FFIError::Other(message) && message@ == mismatchMessage(expected@, *value),
{
    let mut message: String = enclosed("expected ", expected, " return, got ");
    message.append(print(value).as_str());
    FFIError::Other(message)
}

/// What can be handed to a call as an argument.
pub trait FfiArg: Sized {
    /// The value that stands for this argument.
    spec fn argument(self) -> Value;

    /// Turns the argument into the value that crosses the boundary.
    fn intoFfiValue(self) -> (arg: Arg)
        ensures
            arg.0 == self.argument(),
    ;
}

/// What a call can return by itself: a scalar, a pointer, or nothing.
pub trait FfiPrimitive: Sized {
    /// The type that a request asks for.
    spec fn tag() -> Type;

    /// The name of the type in messages.
    spec fn name() -> Seq<char>;

    /// The value that stands for `self`.
    spec fn encoded(self) -> Value;

    /// What `value` stands for, where it has this type.
    spec fn decoded(value: Value) -> Option<Self>;

    /// Whatever is encoded is decoded to itself.
    proof fn encodedIsDecoded(self)
        ensures
            Self::decoded(self.encoded()) == Some(self),
    ;

    /// The type that a request asks for.
    fn TypeTag() -> (tag: Type)
        ensures
            tag == Self::tag(),
    ;

    /// Turns `self` into the value that crosses the boundary.
    fn toFfiValue(self) -> (arg: Arg)
        ensures
            arg.0 == self.encoded(),
    ;

    /// Reads a value back; one of another type is an error that names both.
    fn fromFfiValue(arg: Arg) -> (result: Result<Self, FFIError>)
        ensures
            match Self::decoded(arg.0) {
                Some(value) => result == Ok::<Self, FFIError>(value),
                None => result matches Err(FFIError::Other(message)) && message@ == mismatchMessage(
                    Self::name(),
                    arg.0,
                ),
            },
    ;
}

impl<T: FfiPrimitive> FfiArg for T {
    open spec fn argument(self) -> Value {
        self.encoded()
    }

    fn intoFfiValue(self) -> (arg: Arg) {
        self.toFfiValue()
    }
}

/// An address in the memory of the clone.
#[derive(Debug, Clone, Copy, PartialEq, Eq, Structural)]
pub struct Pointer(pub usize);

/// A single-precision number, as its bit pattern.
#[derive(Debug, Clone, Copy, PartialEq, Eq, Structural)]
pub struct F32(pub u32);

/// A double-precision number, as its bit pattern.
#[derive(Debug, Clone, Copy, PartialEq, Eq, Structural)]
pub struct F64(pub u64);

/// The bytes of a C string, without the terminating zero.
#[derive(Debug, PartialEq)]
pub struct CText(pub Vec<u8>);

/// Bytes handed over as they are.
#[derive(Debug, PartialEq)]
pub struct RawText(pub Vec<u8>);

impl FfiArg for CText {
    open spec fn argument(self) -> Value {
        Value::CString(self.0)
    }

    fn intoFfiValue(self) -> (arg: Arg) {
        Arg(Value::CString(self.0))
    }
}

impl FfiArg for RawText {
    open spec fn argument(self) -> Value {
        Value::RawString(self.0)
    }

    fn intoFfiValue(self) -> (arg: Arg) {
        Arg(Value::RawString(self.0))
    }
}

impl FfiArg for String {
    open spec fn argument(self) -> Value {
        Value::String(self)
    }

    fn intoFfiValue(self) -> (arg: Arg) {
        Arg(Value::String(self))
    }
}

impl FfiArg for StructValue {
    open spec fn argument(self) -> Value {
        Value::Struct(self.values)
    }

    fn intoFfiValue(self) -> (arg: Arg) {
        Arg(Value::Struct(self.values))
    }
}

/// A call whose result nobody looks at: whatever comes back will do.
impl FfiPrimitive for () {
    open spec fn tag() -> Type {
        Type::Void
    }

    open spec fn name() -> Seq<char> {
        "void"@
    }

    open spec fn encoded(self) -> Value {
        Value::Void
    }

    open spec fn decoded(value: Value) -> Option<Self> {
        Some(())
    }

    proof fn encodedIsDecoded(self) {
    }

    fn TypeTag() -> (tag: Type) {
        Type::Void
    }

    fn toFfiValue(self) -> (arg: Arg) {
        Arg(Value::Void)
    }

    fn fromFfiValue(arg: Arg) -> (result: Result<Self, FFIError>) {
        Ok(())
    }
}

impl FfiPrimitive for i8 {
    open spec fn tag() -> Type {
        Type::I8
    }

    open spec fn name() -> Seq<char> {
        "i8"@
    }

    open spec fn encoded(self) -> Value {
        Value::I8(self)
    }

    open spec fn decoded(value: Value) -> Option<Self> {
        match value {
            Value::I8(n) => Some(n),
            _ => None,
        }
    }

    proof fn encodedIsDecoded(self) {
    }

    fn TypeTag() -> (tag: Type) {
        Type::I8
    }

    fn toFfiValue(self) -> (arg: Arg) {
        Arg(Value::I8(self))
    }

    fn fromFfiValue(arg: Arg) -> (result: Result<Self, FFIError>) {
        match arg.0 {
            Value::I8(n) => Ok(n),
            other => Err(mismatch("i8", &other)),
        }
    }
}

impl FfiPrimitive for i16 {
    open spec fn tag() -> Type {
        Type::I16
    }

    open spec fn name() -> Seq<char> {
        "i16"@
    }

    open spec fn encoded(self) -> Value {
        Value::I16(self)
    }

    open spec fn decoded(value: Value) -> Option<Self> {
        match value {
            Value::I16(n) => Some(n),
            _ => None,
        }
    }

    proof fn encodedIsDecoded(self) {
    }

    fn TypeTag() -> (tag: Type) {
        Type::I16
    }

    fn toFfiValue(self) -> (arg: Arg) {
        Arg(Value::I16(self))
    }

    fn fromFfiValue(arg: Arg) -> (result: Result<Self, FFIError>) {
        match arg.0 {
            Value::I16(n) => Ok(n),
            other => Err(mismatch("i16", &other)),
        }
    }
}

impl FfiPrimitive for i32 {
    open spec fn tag() -> Type {
        Type::I32
    }

    open spec fn name() -> Seq<char> {
        "i32"@
    }

    open spec fn encoded(self) -> Value {
        Value::I32(self)
    }

    open spec fn decoded(value: Value) -> Option<Self> {
        match value {
            Value::I32(n) => Some(n),
            _ => None,
        }
    }

    proof fn encodedIsDecoded(self) {
    }

    fn TypeTag() -> (tag: Type) {
        Type::I32
    }

    fn toFfiValue(self) -> (arg: Arg) {
        Arg(Value::I32(self))
    }

    fn fromFfiValue(arg: Arg) -> (result: Result<Self, FFIError>) {
        match arg.0 {
            Value::I32(n) => Ok(n),
            other => Err(mismatch("i32", &other)),
        }
    }
}

impl FfiPrimitive for i64 {
    open spec fn tag() -> Type {
        Type::I64
    }

    open spec fn name() -> Seq<char> {
        "i64"@
    }

    open spec fn encoded(self) -> Value {
        Value::I64(self)
    }

    open spec fn decoded(value: Value) -> Option<Self> {
        match value {
            Value::I64(n) => Some(n),
            _ => None,
        }
    }

    proof fn encodedIsDecoded(self) {
    }

    fn TypeTag() -> (tag: Type) {
        Type::I64
    }

    fn toFfiValue(self) -> (arg: Arg) {
        Arg(Value::I64(self))
    }

    fn fromFfiValue(arg: Arg) -> (result: Result<Self, FFIError>) {
        match arg.0 {
            Value::I64(n) => Ok(n),
            other => Err(mismatch("i64", &other)),
        }
    }
}

impl FfiPrimitive for u8 {
    open spec fn tag() -> Type {
        Type::U8
    }

    open spec fn name() -> Seq<char> {
        "u8"@
    }

    open spec fn encoded(self) -> Value {
        Value::U8(self)
    }

    open spec fn decoded(value: Value) -> Option<Self> {
        match value {
            Value::U8(n) => Some(n),
            _ => None,
        }
    }

    proof fn encodedIsDecoded(self) {
    }

    fn TypeTag() -> (tag: Type) {
        Type::U8
    }

    fn toFfiValue(self) -> (arg: Arg) {
        Arg(Value::U8(self))
    }

    fn fromFfiValue(arg: Arg) -> (result: Result<Self, FFIError>) {
        match arg.0 {
            Value::U8(n) => Ok(n),
            other => Err(mismatch("u8", &other)),
        }
    }
}

impl FfiPrimitive for u16 {
    open spec fn tag() -> Type {
        Type::U16
    }

    open spec fn name() -> Seq<char> {
        "u16"@
    }

    open spec fn encoded(self) -> Value {
        Value::U16(self)
    }

    open spec fn decoded(value: Value) -> Option<Self> {
        match value {
            Value::U16(n) => Some(n),
            _ => None,
        }
    }

    proof fn encodedIsDecoded(self) {
    }

    fn TypeTag() -> (tag: Type) {
        Type::U16
    }

    fn toFfiValue(self) -> (arg: Arg) {
        Arg(Value::U16(self))
    }

    fn fromFfiValue(arg: Arg) -> (result: Result<Self, FFIError>) {
        match arg.0 {
            Value::U16(n) => Ok(n),
            other => Err(mismatch("u16", &other)),
        }
    }
}

impl FfiPrimitive for u32 {
    open spec fn tag() -> Type {
        Type::U32
    }

    open spec fn name() -> Seq<char> {
        "u32"@
    }

    open spec fn encoded(self) -> Value {
        Value::U32(self)
    }

    open spec fn decoded(value: Value) -> Option<Self> {
        match value {
            Value::U32(n) => Some(n),
            _ => None,
        }
    }

    proof fn encodedIsDecoded(self) {
    }

    fn TypeTag() -> (tag: Type) {
        Type::U32
    }

    fn toFfiValue(self) -> (arg: Arg) {
        Arg(Value::U32(self))
    }

    fn fromFfiValue(arg: Arg) -> (result: Result<Self, FFIError>) {
        match arg.0 {
            Value::U32(n) => Ok(n),
            other => Err(mismatch("u32", &other)),
        }
    }
}

impl FfiPrimitive for u64 {
    open spec fn tag() -> Type {
        Type::U64
    }

    open spec fn name() -> Seq<char> {
        "u64"@
    }

    open spec fn encoded(self) -> Value {
        Value::U64(self)
    }

    open spec fn decoded(value: Value) -> Option<Self> {
        match value {
            Value::U64(n) => Some(n),
            _ => None,
        }
    }

    proof fn encodedIsDecoded(self) {
    }

    fn TypeTag() -> (tag: Type) {
        Type::U64
    }

    fn toFfiValue(self) -> (arg: Arg) {
        Arg(Value::U64(self))
    }

    fn fromFfiValue(arg: Arg) -> (result: Result<Self, FFIError>) {
        match arg.0 {
            Value::U64(n) => Ok(n),
            other => Err(mismatch("u64", &other)),
        }
    }
}

impl FfiPrimitive for F32 {
    open spec fn tag() -> Type {
        Type::F32
    }

    open spec fn name() -> Seq<char> {
        "f32"@
    }

    open spec fn encoded(self) -> Value {
        Value::F32(self.0)
    }

    open spec fn decoded(value: Value) -> Option<Self> {
        match value {
            Value::F32(n) => Some(F32(n)),
            _ => None,
        }
    }

    proof fn encodedIsDecoded(self) {
    }

    fn TypeTag() -> (tag: Type) {
        Type::F32
    }

    fn toFfiValue(self) -> (arg: Arg) {
        Arg(Value::F32(self.0))
    }

    fn fromFfiValue(arg: Arg) -> (result: Result<Self, FFIError>) {
        match arg.0 {
            Value::F32(n) => Ok(F32(n)),
            other => Err(mismatch("f32", &other)),
        }
    }
}

impl FfiPrimitive for F64 {
    open spec fn tag() -> Type {
        Type::F64
    }

    open spec fn name() -> Seq<char> {
        "f64"@
    }

    open spec fn encoded(self) -> Value {
        Value::F64(self.0)
    }

    open spec fn decoded(value: Value) -> Option<Self> {
        match value {
            Value::F64(n) => Some(F64(n)),
            _ => None,
        }
    }

    proof fn encodedIsDecoded(self) {
    }

    fn TypeTag() -> (tag: Type) {
        Type::F64
    }

    fn toFfiValue(self) -> (arg: Arg) {
        Arg(Value::F64(self.0))
    }

    fn fromFfiValue(arg: Arg) -> (result: Result<Self, FFIError>) {
        match arg.0 {
            Value::F64(n) => Ok(F64(n)),
            other => Err(mismatch("f64", &other)),
        }
    }
}

impl FfiPrimitive for Pointer {
    open spec fn tag() -> Type {
        Type::Pointer
    }

    open spec fn name() -> Seq<char> {
        "pointer"@
    }

    open spec fn encoded(self) -> Value {
        Value::Pointer(self.0)
    }

    open spec fn decoded(value: Value) -> Option<Self> {
        match value {
            Value::Pointer(n) => Some(Pointer(n)),
            _ => None,
        }
    }

    proof fn encodedIsDecoded(self) {
    }

    fn TypeTag() -> (tag: Type) {
        Type::Pointer
    }

    fn toFfiValue(self) -> (arg: Arg) {
        Arg(Value::Pointer(self.0))
    }

    fn fromFfiValue(arg: Arg) -> (result: Result<Self, FFIError>) {
        match arg.0 {
            Value::Pointer(n) => Ok(Pointer(n)),
            other => Err(mismatch("pointer", &other)),
        }
    }
}

// ------------------------------------------------------------------------------------------------
// What holds of values
// ------------------------------------------------------------------------------------------------

/// What a type denotes tells it apart from every other type: two types that denote
/// the same are the same scalar, or structures with as many fields, each of which
/// denotes the same.
pub proof fn shapesTellTypesApart(one: Type, other: Type)
    requires
        one@ == other@,
    ensures
        match one {
            Type::Struct(fields) => {
                &&& other matches Type::Struct(others)
                &&& fields@.len() == others@.len()
                &&& forall|i: int|
                    0 <= i < fields@.len() ==> (#[trigger] fields@[i])@ == others@[i]@
            },
            _ => one == other,
        },
{
    if let Type::Struct(fields) = one {
        typeShapesMembers(fields@);
        if let Type::Struct(others) = other {
            typeShapesMembers(others@);
            assert forall|i: int| 0 <= i < fields@.len() implies (#[trigger] fields@[i])@
                == others@[i]@ by {
                assert(typeShapes(fields@)[i] == fields@[i]@);
                assert(typeShapes(others@)[i] == others@[i]@);
            }
        }
    }
}

/// A structure has the fields that it was given, in their order: there are as many
/// shapes as types, each is that of the type at its place, and a type that is
/// appended adds its own shape at the end.
pub proof fn fieldsKeepTheirOrder(types: Seq<Type>, last: Type, fields: Vec<Type>)
    requires
        fields@ == types.push(last),
    ensures
        typeShapes(types.push(last)) == typeShapes(types).push(last@),
        Type::Struct(fields)@ matches TypeShape::Struct(shapes) && shapes.len() == types.len() + 1
            && shapes.last() == last@ && (forall|i: int|
            0 <= i < types.len() ==> #[trigger] shapes[i] == types[i]@),
{
    typeShapesMembers(types.push(last));
    typeShapesMembers(types);
    assert(typeShapes(types.push(last)) =~= typeShapes(types).push(last@));
}

/// A scalar goes over as the very number that it is: the value that is sent for it
/// is of its own kind and holds exactly it.
pub proof fn scalarsGoOverAsTheyAre(
    byte: i8,
    short: i16,
    int32: i32,
    long: i64,
    unsignedByte: u8,
    unsignedShort: u16,
    unsignedInt: u32,
    unsignedLong: u64,
    single: F32,
    double: F64,
    pointer: Pointer,
)
    ensures
        byte.encoded() == Value::I8(byte),
        byte.argument() == Value::I8(byte),
        short.encoded() == Value::I16(short),
        short.argument() == Value::I16(short),
        int32.encoded() == Value::I32(int32),
        int32.argument() == Value::I32(int32),
        long.encoded() == Value::I64(long),
        long.argument() == Value::I64(long),
        unsignedByte.encoded() == Value::U8(unsignedByte),
        unsignedByte.argument() == Value::U8(unsignedByte),
        unsignedShort.encoded() == Value::U16(unsignedShort),
        unsignedShort.argument() == Value::U16(unsignedShort),
        unsignedInt.encoded() == Value::U32(unsignedInt),
        unsignedInt.argument() == Value::U32(unsignedInt),
        unsignedLong.encoded() == Value::U64(unsignedLong),
        unsignedLong.argument() == Value::U64(unsignedLong),
        single.encoded() == Value::F32(single.0),
        single.argument() == Value::F32(single.0),
        double.encoded() == Value::F64(double.0),
        double.argument() == Value::F64(double.0),
        pointer.encoded() == Value::Pointer(pointer.0),
        pointer.argument() == Value::Pointer(pointer.0),
        ().encoded() == Value::Void,
        ().argument() == Value::Void,
{
}

/// A value that comes back is read as the very number that it holds.
pub proof fn scalarsComeBackAsTheyAre(
    byte: i8,
    short: i16,
    int32: i32,
    long: i64,
    unsignedByte: u8,
    unsignedShort: u16,
    unsignedInt: u32,
    unsignedLong: u64,
    single: u32,
    double: u64,
    pointer: usize,
)
    ensures
        i8::decoded(Value::I8(byte)) == Some(byte),
        i16::decoded(Value::I16(short)) == Some(short),
        i32::decoded(Value::I32(int32)) == Some(int32),
        i64::decoded(Value::I64(long)) == Some(long),
        u8::decoded(Value::U8(unsignedByte)) == Some(unsignedByte),
        u16::decoded(Value::U16(unsignedShort)) == Some(unsignedShort),
        u32::decoded(Value::U32(unsignedInt)) == Some(unsignedInt),
        u64::decoded(Value::U64(unsignedLong)) == Some(unsignedLong),
        F32::decoded(Value::F32(single)) == Some(F32(single)),
        F64::decoded(Value::F64(double)) == Some(F64(double)),
        Pointer::decoded(Value::Pointer(pointer)) == Some(Pointer(pointer)),
{
}

/// A value is read as nothing but its own kind: what has another type than the one
/// that is asked for is not taken for it, whatever it holds. Where nothing is asked
/// for, anything will do.
pub proof fn valuesKeepTheirKind(value: Value)
    ensures
        (i8::decoded(value) is Some) == (value is I8),
        (i16::decoded(value) is Some) == (value is I16),
        (i32::decoded(value) is Some) == (value is I32),
        (i64::decoded(value) is Some) == (value is I64),
        (u8::decoded(value) is Some) == (value is U8),
        (u16::decoded(value) is Some) == (value is U16),
        (u32::decoded(value) is Some) == (value is U32),
        (u64::decoded(value) is Some) == (value is U64),
        (F32::decoded(value) is Some) == (value is F32),
        (F64::decoded(value) is Some) == (value is F64),
        (Pointer::decoded(value) is Some) == (value is Pointer),
        <() as FfiPrimitive>::decoded(value) == Some(()),
{
}

/// The type that a request asks for is that of the result, and what was asked for
/// is what is read: a value of the type that a tag names is one that is decoded.
pub proof fn tagsNameTheirType()
    ensures
        i8::tag() == Type::I8,
        i16::tag() == Type::I16,
        i32::tag() == Type::I32,
        i64::tag() == Type::I64,
        u8::tag() == Type::U8,
        u16::tag() == Type::U16,
        u32::tag() == Type::U32,
        u64::tag() == Type::U64,
        F32::tag() == Type::F32,
        F64::tag() == Type::F64,
        Pointer::tag() == Type::Pointer,
        <() as FfiPrimitive>::tag() == Type::Void,
{
}

/// Messages name a type as the source code does.
pub proof fn namesAreThoseOfTheSource()
    ensures
        i8::name() == "i8"@,
        i16::name() == "i16"@,
        i32::name() == "i32"@,
        i64::name() == "i64"@,
        u8::name() == "u8"@,
        u16::name() == "u16"@,
        u32::name() == "u32"@,
        u64::name() == "u64"@,
        F32::name() == "f32"@,
        F64::name() == "f64"@,
        Pointer::name() == "pointer"@,
        <() as FfiPrimitive>::name() == "void"@,
{
}

/// A structure goes over field by field: the value that is sent for it has as many
/// fields, and each of them is that of the structure, in order.
pub proof fn structuresGoOverFieldByField(structure: StructValue)
    ensures
        structure.argument() matches Value::Struct(fields) && fields@.len()
            == structure.values@.len() && (forall|i: int|
            0 <= i < fields@.len() ==> #[trigger] fields@[i] == structure.values@[i]),
{
}

/// Texts go over character by character and byte by byte, each as what it is: a C
/// string, raw bytes, or a text.
pub proof fn textsGoOverAsTheyAre(terminated: CText, raw: RawText, text: String)
    ensures
        terminated.argument() matches Value::CString(bytes) && bytes@.len() == terminated.0@.len()
            && (forall|i: int|
            0 <= i < bytes@.len() ==> #[trigger] bytes@[i] == terminated.0@[i]),
        raw.argument() matches Value::RawString(bytes) && bytes@.len() == raw.0@.len() && (forall|
            i: int,
        |
            0 <= i < bytes@.len() ==> #[trigger] bytes@[i] == raw.0@[i]),
        text.argument() matches Value::String(sent) && sent@ == text@,
{
}

/// A number is printed behind the name of its kind, in brackets, and what stands
/// there denotes it.
pub proof fn printedNumbersDenoteThemselves(
    byte: i8,
    short: i16,
    int32: i32,
    long: i64,
    unsignedByte: u8,
    unsignedShort: u16,
    unsignedInt: u32,
    unsignedLong: u64,
    single: u32,
    double: u64,
    pointer: usize,
)
    ensures
        exists|number: Seq<char>|
            #[trigger] denotes(number, byte as int) && printed(Value::I8(byte)) == "I8("@ + number
                + ")"@,
        exists|number: Seq<char>|
            #[trigger] denotes(number, short as int) && printed(Value::I16(short)) == "I16("@ + number
                + ")"@,
        exists|number: Seq<char>|
            #[trigger] denotes(number, int32 as int) && printed(Value::I32(int32)) == "I32("@ + number
                + ")"@,
        exists|number: Seq<char>|
            #[trigger] denotes(number, long as int) && printed(Value::I64(long)) == "I64("@ + number
                + ")"@,
        exists|number: Seq<char>|
            #[trigger] denotes(number, unsignedByte as int) && printed(Value::U8(unsignedByte)) == "U8("@ + number
                + ")"@,
        exists|number: Seq<char>|
            #[trigger] denotes(number, unsignedShort as int) && printed(Value::U16(unsignedShort)) == "U16("@ + number
                + ")"@,
        exists|number: Seq<char>|
            #[trigger] denotes(number, unsignedInt as int) && printed(Value::U32(unsignedInt)) == "U32("@ + number
                + ")"@,
        exists|number: Seq<char>|
            #[trigger] denotes(number, unsignedLong as int) && printed(Value::U64(unsignedLong)) == "U64("@ + number
                + ")"@,
        exists|number: Seq<char>|
            #[trigger] denotes(number, single as int) && printed(Value::F32(single)) == "F32("@ + number
                + ")"@,
        exists|number: Seq<char>|
            #[trigger] denotes(number, double as int) && printed(Value::F64(double)) == "F64("@ + number
                + ")"@,
        exists|number: Seq<char>|
            #[trigger] denotes(number, pointer as int) && printed(Value::Pointer(pointer)) == "Pointer("@ + number
                + ")"@,
        printed(Value::Void) == "Void"@,
{
    writtenNumbersDenoteThemselves(byte as int);
    assert(denotes(signedDecimal(byte as int), byte as int));
    writtenNumbersDenoteThemselves(short as int);
    assert(denotes(signedDecimal(short as int), short as int));
    writtenNumbersDenoteThemselves(int32 as int);
    assert(denotes(signedDecimal(int32 as int), int32 as int));
    writtenNumbersDenoteThemselves(long as int);
    assert(denotes(signedDecimal(long as int), long as int));
    writtenNumbersDenoteThemselves(unsignedByte as int);
    assert(denotes(decimal(unsignedByte as nat), unsignedByte as int));
    writtenNumbersDenoteThemselves(unsignedShort as int);
    assert(denotes(decimal(unsignedShort as nat), unsignedShort as int));
    writtenNumbersDenoteThemselves(unsignedInt as int);
    assert(denotes(decimal(unsignedInt as nat), unsignedInt as int));
    writtenNumbersDenoteThemselves(unsignedLong as int);
    assert(denotes(decimal(unsignedLong as nat), unsignedLong as int));
    writtenNumbersDenoteThemselves(single as int);
    assert(denotes(decimal(single as nat), single as int));
    writtenNumbersDenoteThemselves(double as int);
    assert(denotes(decimal(double as nat), double as int));
    writtenNumbersDenoteThemselves(pointer as int);
    assert(denotes(decimal(pointer as nat), pointer as int));
}

/// Bytes are printed one by one, in order: a single one denotes itself, and of two
/// rows in a row both are printed, with a comma between them.
pub proof fn bytesArePrintedInOrder(byte: u8, one: Seq<u8>, other: Seq<u8>)
    ensures
        denotes(printedBytes(seq![byte]), byte as int),
        printedBytes(Seq::empty()) == Seq::<char>::empty(),
        one.len() > 0 && other.len() > 0 ==> printedBytes(one + other) == printedBytes(one) + ", "@
            + printedBytes(other),
    decreases other.len(),
{
    writtenNumbersDenoteThemselves(byte as int);
    if one.len() > 0 && other.len() > 0 {
        let both = one + other;
        assert(both.drop_last() =~= one + other.drop_last());
        if other.len() == 1 {
            assert(one + other.drop_last() =~= one);
        } else {
            bytesArePrintedInOrder(byte, one, other.drop_last());
        }
        assert(printedBytes(both) =~= printedBytes(one) + ", "@ + printedBytes(other));
    }
}

/// Fields are printed one by one, in order: a single one as it is, and of two rows
/// in a row both are printed, with a comma between them.
pub proof fn fieldsArePrintedInOrder(value: Value, one: Seq<Value>, other: Seq<Value>)
    ensures
        printedAll(seq![value]) == printed(value),
        printedAll(Seq::empty()) == Seq::<char>::empty(),
        one.len() > 0 && other.len() > 0 ==> printedAll(one + other) == printedAll(one) + ", "@
            + printedAll(other),
    decreases other.len(),
{
    if one.len() > 0 && other.len() > 0 {
        let both = one + other;
        assert(both.drop_last() =~= one + other.drop_last());
        if other.len() == 1 {
            assert(one + other.drop_last() =~= one);
        } else {
            fieldsArePrintedInOrder(value, one, other.drop_last());
        }
        assert(printedAll(both) =~= printedAll(one) + ", "@ + printedAll(other));
    }
}

/// Texts, bytes and structures are printed behind the name of their kind, with
/// everything that they hold in brackets.
pub proof fn printedContentsAreComplete(text: String, bytes: Vec<u8>, fields: Vec<Value>)
    ensures
        printed(Value::String(text)) == "String("@ + quoted(text@) + ")"@,
        printed(Value::CString(bytes)) == "CString(["@ + printedBytes(bytes@) + "])"@,
        printed(Value::RawString(bytes)) == "RawString(["@ + printedBytes(bytes@) + "])"@,
        printed(Value::Struct(fields)) == "Struct(["@ + printedAll(fields@) + "])"@,
{
}

/// The message for a value of the wrong type names the type that was expected, and
/// ends with the value that came.
pub proof fn mismatchesNameBoth(expected: Seq<char>, value: Value)
    ensures
        mismatchMessage(expected, value) == "expected "@ + expected + " return, got "@ + printed(
            value,
        ),
{
}

/// Turning a scalar into a value, and a value of its kind into the scalar, keeps the
/// number; a value of another kind is an error.
pub proof fn conversionsKeepTheNumber(
    other: Value,
    byte: (i8, Arg, Result<i8, FFIError>, Result<i8, FFIError>),
    short: (i16, Arg, Result<i16, FFIError>, Result<i16, FFIError>),
    int32: (i32, Arg, Result<i32, FFIError>, Result<i32, FFIError>),
    long: (i64, Arg, Result<i64, FFIError>, Result<i64, FFIError>),
    unsignedByte: (u8, Arg, Result<u8, FFIError>, Result<u8, FFIError>),
    unsignedShort: (u16, Arg, Result<u16, FFIError>, Result<u16, FFIError>),
    unsignedInt: (u32, Arg, Result<u32, FFIError>, Result<u32, FFIError>),
    unsignedLong: (u64, Arg, Result<u64, FFIError>, Result<u64, FFIError>),
    single: (F32, Arg, Result<F32, FFIError>, Result<F32, FFIError>),
    double: (F64, Arg, Result<F64, FFIError>, Result<F64, FFIError>),
    pointer: (Pointer, Arg, Result<Pointer, FFIError>, Result<Pointer, FFIError>),
)
    requires
        call_ensures(<i8 as FfiPrimitive>::toFfiValue, (byte.0,), byte.1),
        call_ensures(
            <i8 as FfiPrimitive>::fromFfiValue,
            (Arg(Value::I8(byte.0)),),
            byte.2,
        ),
        call_ensures(<i8 as FfiPrimitive>::fromFfiValue, (Arg(other),), byte.3),
        call_ensures(<i16 as FfiPrimitive>::toFfiValue, (short.0,), short.1),
        call_ensures(
            <i16 as FfiPrimitive>::fromFfiValue,
            (Arg(Value::I16(short.0)),),
            short.2,
        ),
        call_ensures(<i16 as FfiPrimitive>::fromFfiValue, (Arg(other),), short.3),
        call_ensures(<i32 as FfiPrimitive>::toFfiValue, (int32.0,), int32.1),
        call_ensures(
            <i32 as FfiPrimitive>::fromFfiValue,
            (Arg(Value::I32(int32.0)),),
            int32.2,
        ),
        call_ensures(<i32 as FfiPrimitive>::fromFfiValue, (Arg(other),), int32.3),
        call_ensures(<i64 as FfiPrimitive>::toFfiValue, (long.0,), long.1),
        call_ensures(
            <i64 as FfiPrimitive>::fromFfiValue,
            (Arg(Value::I64(long.0)),),
            long.2,
        ),
        call_ensures(<i64 as FfiPrimitive>::fromFfiValue, (Arg(other),), long.3),
        call_ensures(<u8 as FfiPrimitive>::toFfiValue, (unsignedByte.0,), unsignedByte.1),
        call_ensures(
            <u8 as FfiPrimitive>::fromFfiValue,
            (Arg(Value::U8(unsignedByte.0)),),
            unsignedByte.2,
        ),
        call_ensures(<u8 as FfiPrimitive>::fromFfiValue, (Arg(other),), unsignedByte.3),
        call_ensures(<u16 as FfiPrimitive>::toFfiValue, (unsignedShort.0,), unsignedShort.1),
        call_ensures(
            <u16 as FfiPrimitive>::fromFfiValue,
            (Arg(Value::U16(unsignedShort.0)),),
            unsignedShort.2,
        ),
        call_ensures(<u16 as FfiPrimitive>::fromFfiValue, (Arg(other),), unsignedShort.3),
        call_ensures(<u32 as FfiPrimitive>::toFfiValue, (unsignedInt.0,), unsignedInt.1),
        call_ensures(
            <u32 as FfiPrimitive>::fromFfiValue,
            (Arg(Value::U32(unsignedInt.0)),),
            unsignedInt.2,
        ),
        call_ensures(<u32 as FfiPrimitive>::fromFfiValue, (Arg(other),), unsignedInt.3),
        call_ensures(<u64 as FfiPrimitive>::toFfiValue, (unsignedLong.0,), unsignedLong.1),
        call_ensures(
            <u64 as FfiPrimitive>::fromFfiValue,
            (Arg(Value::U64(unsignedLong.0)),),
            unsignedLong.2,
        ),
        call_ensures(<u64 as FfiPrimitive>::fromFfiValue, (Arg(other),), unsignedLong.3),
        call_ensures(<F32 as FfiPrimitive>::toFfiValue, (single.0,), single.1),
        call_ensures(
            <F32 as FfiPrimitive>::fromFfiValue,
            (Arg(Value::F32(single.0.0)),),
            single.2,
        ),
        call_ensures(<F32 as FfiPrimitive>::fromFfiValue, (Arg(other),), single.3),
        call_ensures(<F64 as FfiPrimitive>::toFfiValue, (double.0,), double.1),
        call_ensures(
            <F64 as FfiPrimitive>::fromFfiValue,
            (Arg(Value::F64(double.0.0)),),
            double.2,
        ),
        call_ensures(<F64 as FfiPrimitive>::fromFfiValue, (Arg(other),), double.3),
        call_ensures(<Pointer as FfiPrimitive>::toFfiValue, (pointer.0,), pointer.1),
        call_ensures(
            <Pointer as FfiPrimitive>::fromFfiValue,
            (Arg(Value::Pointer(pointer.0.0)),),
            pointer.2,
        ),
        call_ensures(<Pointer as FfiPrimitive>::fromFfiValue, (Arg(other),), pointer.3),
    ensures
        byte.1.0 matches Value::I8(sent) && sent == byte.0,
        byte.2 matches Ok(read) && read == byte.0,
        other !is I8 ==> byte.3 is Err,
        short.1.0 matches Value::I16(sent) && sent == short.0,
        short.2 matches Ok(read) && read == short.0,
        other !is I16 ==> short.3 is Err,
        int32.1.0 matches Value::I32(sent) && sent == int32.0,
        int32.2 matches Ok(read) && read == int32.0,
        other !is I32 ==> int32.3 is Err,
        long.1.0 matches Value::I64(sent) && sent == long.0,
        long.2 matches Ok(read) && read == long.0,
        other !is I64 ==> long.3 is Err,
        unsignedByte.1.0 matches Value::U8(sent) && sent == unsignedByte.0,
        unsignedByte.2 matches Ok(read) && read == unsignedByte.0,
        other !is U8 ==> unsignedByte.3 is Err,
        unsignedShort.1.0 matches Value::U16(sent) && sent == unsignedShort.0,
        unsignedShort.2 matches Ok(read) && read == unsignedShort.0,
        other !is U16 ==> unsignedShort.3 is Err,
        unsignedInt.1.0 matches Value::U32(sent) && sent == unsignedInt.0,
        unsignedInt.2 matches Ok(read) && read == unsignedInt.0,
        other !is U32 ==> unsignedInt.3 is Err,
        unsignedLong.1.0 matches Value::U64(sent) && sent == unsignedLong.0,
        unsignedLong.2 matches Ok(read) && read == unsignedLong.0,
        other !is U64 ==> unsignedLong.3 is Err,
        single.1.0 matches Value::F32(sent) && sent == single.0.0,
        single.2 matches Ok(read) && read == single.0,
        other !is F32 ==> single.3 is Err,
        double.1.0 matches Value::F64(sent) && sent == double.0.0,
        double.2 matches Ok(read) && read == double.0,
        other !is F64 ==> double.3 is Err,
        pointer.1.0 matches Value::Pointer(sent) && sent == pointer.0.0,
        pointer.2 matches Ok(read) && read == pointer.0,
        other !is Pointer ==> pointer.3 is Err,
{
}

/// An argument that is no scalar goes over complete: a structure with each of its
/// fields, in order, and a text with each of its characters or bytes.
pub proof fn argumentsGoOverComplete(
    structure: StructValue,
    structureSent: Arg,
    terminated: CText,
    terminatedSent: Arg,
    raw: RawText,
    rawSent: Arg,
    text: String,
    textSent: Arg,
)
    requires
        call_ensures(<StructValue as FfiArg>::intoFfiValue, (structure,), structureSent),
        call_ensures(<CText as FfiArg>::intoFfiValue, (terminated,), terminatedSent),
        call_ensures(<RawText as FfiArg>::intoFfiValue, (raw,), rawSent),
        call_ensures(<String as FfiArg>::intoFfiValue, (text,), textSent),
    ensures
        structureSent.0 matches Value::Struct(fields) && fields@.len() == structure.values@.len()
            && (forall|i: int|
            0 <= i < fields@.len() ==> #[trigger] fields@[i] == structure.values@[i]),
        terminatedSent.0 matches Value::CString(bytes) && bytes@ == terminated.0@,
        rawSent.0 matches Value::RawString(bytes) && bytes@ == raw.0@,
        textSent.0 matches Value::String(sent) && sent@ == text@,
{
}

} // verus!
