#![allow(non_snake_case)]

use chillffi::errors::FFIError;
use chillffi::ffi::types::{
    mismatch, print, Arg, CText, FfiArg, FfiPrimitive, Pointer, RawText, StructValue, Type, Value,
    F32, F64,
};
use chillffi::text::{decimalText, hexadecimalText, lowerChars, parseUnsigned, signedDecimalText};

#[test]
fn numbersAreWritten() {
    assert_eq!(decimalText(0), "0");
    assert_eq!(decimalText(1090), "1090");
    assert_eq!(decimalText(u64::MAX), "18446744073709551615");
    assert_eq!(signedDecimalText(-7), "-7");
    assert_eq!(signedDecimalText(0), "0");
    assert_eq!(signedDecimalText(i64::MIN), "-9223372036854775808");
    assert_eq!(signedDecimalText(i64::MAX), "9223372036854775807");
    assert_eq!(hexadecimalText(0), "0x0");
    assert_eq!(hexadecimalText(0xdead_beef), "0xdeadbeef");
    assert_eq!(hexadecimalText(0x10), "0x10");
}

#[test]
fn numbersAreReadBack() {
    for number in [0, 9, 10, 12_345, u64::MAX] {
        let mut line = decimalText(number);
        line.push('\n');
        assert_eq!(parseUnsigned(&line), Some(number));
    }
    assert_eq!(parseUnsigned("007"), Some(7));
    assert_eq!(parseUnsigned("1_000"), None);
}

#[test]
fn onlyAsciiIsFolded() {
    assert_eq!(lowerChars("AbÄZ1"), vec!['a', 'b', 'Ä', 'z', '1']);
}

#[test]
fn valuesArePrinted() {
    assert_eq!(print(&Value::Void), "Void");
    assert_eq!(print(&Value::I8(-1)), "I8(-1)");
    assert_eq!(print(&Value::U64(u64::MAX)), "U64(18446744073709551615)");
    assert_eq!(print(&Value::Pointer(4096)), "Pointer(4096)");
    assert_eq!(print(&Value::F64(1)), "F64(1)");
    assert_eq!(print(&Value::String("a\tb".to_string())), "String(\"a\\tb\")");
    assert_eq!(print(&Value::CString(vec![104, 105])), "CString([104, 105])");
    assert_eq!(print(&Value::RawString(vec![])), "RawString([])");
    assert_eq!(
        print(&Value::Struct(vec![Value::U8(1), Value::Struct(vec![Value::I16(2), Value::Void])])),
        "Struct([U8(1), Struct([I16(2), Void])])"
    );
}

#[test]
fn printingAgreesWithDebug() {
    let values = vec![
        Value::Void,
        Value::I64(-3),
        Value::U16(9),
        Value::String("quote \" and \\ and \n".to_string()),
        Value::RawString(vec![1, 2, 3]),
        Value::Struct(vec![Value::U32(1), Value::I32(2)]),
    ];
    for value in values {
        assert_eq!(print(&value), format!("{value:?}"));
    }
}

#[test]
fn mismatchesNameBothSides() {
    assert_eq!(
        mismatch("struct", &Value::I32(3)),
        FFIError::Other("expected struct return, got I32(3)".to_string())
    );
}

fn roundTrip<T: FfiPrimitive + PartialEq + Clone>(value: T, tag: Type, encoded: Value) {
    assert_eq!(T::TypeTag(), tag);
    let arg = value.clone().toFfiValue();
    assert_eq!(arg, Arg(encoded));
    assert!(T::fromFfiValue(arg) == Ok(value));
}

#[test]
fn primitivesRoundTrip() {
    roundTrip((), Type::Void, Value::Void);
    roundTrip(-1i8, Type::I8, Value::I8(-1));
    roundTrip(-2i16, Type::I16, Value::I16(-2));
    roundTrip(-3i32, Type::I32, Value::I32(-3));
    roundTrip(-4i64, Type::I64, Value::I64(-4));
    roundTrip(1u8, Type::U8, Value::U8(1));
    roundTrip(2u16, Type::U16, Value::U16(2));
    roundTrip(3u32, Type::U32, Value::U32(3));
    roundTrip(4u64, Type::U64, Value::U64(4));
    roundTrip(F32(1.5f32.to_bits()), Type::F32, Value::F32(0x3fc0_0000));
    roundTrip(F64(1.5f64.to_bits()), Type::F64, Value::F64(0x3ff8_0000_0000_0000));
    roundTrip(Pointer(4096), Type::Pointer, Value::Pointer(4096));
}

fn refused<T: FfiPrimitive>(value: Value, message: &str) {
    match T::fromFfiValue(Arg(value)) {
        Err(FFIError::Other(text)) => assert_eq!(text, message),
        _ => panic!("this value has another type"),
    }
}

#[test]
fn primitivesRefuseOtherTypes() {
    refused::<i8>(Value::U8(1), "expected i8 return, got U8(1)");
    refused::<i16>(Value::I8(1), "expected i16 return, got I8(1)");
    refused::<i32>(Value::U32(1), "expected i32 return, got U32(1)");
    refused::<i64>(Value::I32(1), "expected i64 return, got I32(1)");
    refused::<u8>(Value::I8(1), "expected u8 return, got I8(1)");
    refused::<u16>(Value::U8(1), "expected u16 return, got U8(1)");
    refused::<u32>(Value::I32(1), "expected u32 return, got I32(1)");
    refused::<u64>(Value::Void, "expected u64 return, got Void");
    refused::<F32>(Value::F64(1), "expected f32 return, got F64(1)");
    refused::<F64>(Value::F32(1), "expected f64 return, got F32(1)");
    refused::<Pointer>(Value::U64(1), "expected pointer return, got U64(1)");
}

#[test]
fn argumentsBecomeValues() {
    assert_eq!(5i32.intoFfiValue(), Arg(Value::I32(5)));
    assert_eq!("text".to_string().intoFfiValue(), Arg(Value::String("text".to_string())));
    assert_eq!(CText(vec![1]).intoFfiValue(), Arg(Value::CString(vec![1])));
    assert_eq!(RawText(vec![2]).intoFfiValue(), Arg(Value::RawString(vec![2])));
    assert_eq!(
        StructValue::fromValues(vec![Value::U8(3)]).intoFfiValue(),
        Arg(Value::Struct(vec![Value::U8(3)]))
    );
}

#[test]
fn structuresKeepTheirFields() {
    let fields = vec![Type::I32, Type::Struct(vec![Type::U8, Type::F64]), Type::Pointer];
    assert_eq!(Type::structure(&fields), Type::Struct(fields));
    assert_eq!(Type::structure(&[]).duplicate(), Type::Struct(vec![]));
}
