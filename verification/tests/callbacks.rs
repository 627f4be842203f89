#![allow(non_snake_case)]

use chillffi::errors::CallError;
use chillffi::ffi::callback::addressing::{relativeOffsetOf, resolveRelative, tagOf, typesTagOf};
use chillffi::ffi::callback::arguments::{DynamicArgs, DynamicList};
use chillffi::ffi::callback::decode;
use chillffi::ffi::callback::envelope::Envelope;
use chillffi::ffi::callback::erased::ErasedCallable;
use chillffi::ffi::callback::sendable::Sendable;
use chillffi::ffi::callback::{locate, recognize, DecodeCall};
use chillffi::ffi::types::{Pointer, Type, Value};

#[test]
fn placeholder() {
    assert!(true);
}

#[test]
fn offsetsFindTheirWayBack() {
    assert_eq!(relativeOffsetOf(0x1000, 0x1234), 0x234);
    assert_eq!(resolveRelative(0x1000, 0x234), 0x1234);
    assert_eq!(resolveRelative(0x5000, relativeOffsetOf(0x1000, 0x1234)), 0x5234);
    // An address below the base wraps round, and back.
    assert_eq!(relativeOffsetOf(0x1000, 0x10), usize::MAX - 0xfef);
    assert_eq!(resolveRelative(0x1000, usize::MAX - 0xfef), 0x10);
}

#[test]
fn tagsAreHashes() {
    assert_eq!(tagOf(""), 0xcbf2_9ce4_8422_2325);
    assert_eq!(tagOf("a"), 0xaf63_dc4c_8601_ec8c);
    assert_eq!(tagOf("foobar"), 0x8594_4171_f739_67e8);
    assert_ne!(tagOf("src/main.rs:1:2"), tagOf("src/main.rs:2:1"));
}

#[test]
fn signatureTagsFollowTheTypes() {
    let one = typesTagOf(&[Type::I32, Type::Struct(vec![Type::U8])], &Type::F64);
    let same = typesTagOf(&[Type::I32, Type::Struct(vec![Type::U8])], &Type::F64);
    assert_eq!(one, same);
    assert_ne!(one, typesTagOf(&[Type::I32, Type::U8], &Type::F64));
    assert_ne!(one, typesTagOf(&[Type::I32, Type::Struct(vec![Type::U8])], &Type::F32));
    assert_ne!(
        typesTagOf(&[Type::I32], &Type::Void),
        typesTagOf(&[], &Type::I32)
    );
}

#[test]
fn envelopesAreBytes() {
    let envelope = Envelope {
        relativeOffset: 0x1_0000,
        argsOutputTag: 250,
        siteTag: 0x0102_0304_0506_0708,
        bytes: vec![9, 8, 255],
    };
    let bytes = envelope.encode().expect("encoding does not fail");
    assert_eq!(
        bytes,
        vec![252, 0, 0, 1, 0, 250, 253, 8, 7, 6, 5, 4, 3, 2, 1, 3, 9, 8, 255]
    );
    assert_eq!(Envelope::decode(&bytes), Ok(envelope));
}

#[test]
fn numbersTakeAsManyBytesAsTheyNeed() {
    let encoded = |number: u64| {
        let envelope =
            Envelope { relativeOffset: 0, argsOutputTag: number, siteTag: 0, bytes: vec![] };
        let bytes = envelope.encode().expect("encoding does not fail");
        bytes[1..bytes.len() - 2].to_vec()
    };
    assert_eq!(encoded(0), vec![0]);
    assert_eq!(encoded(250), vec![250]);
    assert_eq!(encoded(251), vec![251, 251, 0]);
    assert_eq!(encoded(0xffff), vec![251, 0xff, 0xff]);
    assert_eq!(encoded(0x1_0000), vec![252, 0, 0, 1, 0]);
    assert_eq!(encoded(0xffff_ffff), vec![252, 0xff, 0xff, 0xff, 0xff]);
    assert_eq!(encoded(0x1_0000_0000), vec![253, 0, 0, 0, 0, 1, 0, 0, 0]);
    assert_eq!(encoded(u64::MAX), vec![253, 255, 255, 255, 255, 255, 255, 255, 255]);
}

#[test]
fn longStatesFit() {
    let state: Vec<u8> = (0..1000).map(|i| (i % 256) as u8).collect();
    let envelope = Envelope { relativeOffset: 1, argsOutputTag: 2, siteTag: 3, bytes: state };
    let bytes = envelope.encode().expect("encoding does not fail");
    assert_eq!(bytes[..6], [1, 2, 3, 251, 0xe8, 0x03]);
    assert_eq!(bytes.len(), 1006);
    assert_eq!(Envelope::decode(&bytes), Ok(envelope));
}

#[test]
fn brokenEnvelopesAreErrors() {
    for bytes in [&[][..], &[1], &[1, 2, 3], &[1, 2, 3, 4, 5], &[254, 0], &[255]] {
        match Envelope::decode(bytes) {
            Err(CallError::Decode(message)) => assert!(!message.is_empty()),
            other => panic!("unexpected result: {other:?}"),
        }
    }
    assert!(matches!(decode(&[], 0), Err(CallError::Decode(_))));
    assert_eq!(
        Envelope::open(Err("broken".to_string())),
        Err(CallError::Decode("broken".to_string()))
    );
}

#[test]
fn whatFollowsAnEnvelopeIsIgnored() {
    let result = Envelope::decode(&[1, 2, 3, 1, 77, 99, 99]);
    assert_eq!(
        result,
        Ok(Envelope { relativeOffset: 1, argsOutputTag: 2, siteTag: 3, bytes: vec![77] })
    );
    assert_eq!(Envelope::open(Ok((1, 2, 3, vec![77]))), result);
}

#[test]
fn numbersMayTakeMoreBytesThanTheyNeed() {
    let result = Envelope::decode(&[251, 1, 0, 252, 2, 0, 0, 0, 253, 3, 0, 0, 0, 0, 0, 0, 0, 0]);
    assert_eq!(
        result,
        Ok(Envelope { relativeOffset: 1, argsOutputTag: 2, siteTag: 3, bytes: vec![] })
    );
}

#[test]
fn statesMayNotBeCutOff() {
    let cut = Err(CallError::Decode("UnexpectedEnd { additional: 1 }".to_string()));
    assert_eq!(Envelope::decode(&[1, 2, 3, 2, 77]), cut);
    assert_eq!(
        Envelope::decode(&[1, 2, 3, 253, 255, 255, 255, 255, 255, 255, 255, 255, 77]),
        cut
    );
    // A length that no number of bytes stands for is described as one.
    for marker in [254, 255] {
        let whole: Result<((usize, u64, u64, Vec<u8>), usize), _> =
            bincode::serde::decode_from_slice(&[1, 2, 3, marker, 7], bincode::config::standard());
        assert_eq!(
            Envelope::decode(&[1, 2, 3, marker, 7]),
            Err(CallError::Decode(whole.unwrap_err().to_string()))
        );
    }
}

#[test]
fn closuresArriveAsTheyWereSent() {
    let base = 0x5555_0000_0000;
    let address = 0x5555_0001_2340;
    let sendable = Sendable::from_closure(
        vec![1, 2, 3],
        relativeOffsetOf(base, address),
        tagOf("src/main.rs:10:5"),
        vec![Type::I32, Type::Pointer],
        Type::U8,
    );
    let bytes = sendable.encode().expect("encoding does not fail");
    assert_eq!(
        decode(&bytes, base),
        Ok(DecodeCall {
            address,
            siteTag: tagOf("src/main.rs:10:5"),
            argsOutputTag: typesTagOf(&[Type::I32, Type::Pointer], &Type::U8),
            state: vec![1, 2, 3],
        })
    );
    // A process that loaded the executable elsewhere finds the code there.
    let other = 0x7f00_0000_0000;
    assert_eq!(decode(&bytes, other).map(|call| call.address), Ok(0x7f00_0001_2340));
}

#[test]
fn envelopesAreLocated() {
    let envelope = Envelope { relativeOffset: 16, argsOutputTag: 2, siteTag: 3, bytes: vec![4] };
    assert_eq!(
        locate(envelope, 4096),
        DecodeCall { address: 4112, siteTag: 3, argsOutputTag: 2, state: vec![4] }
    );
}

#[test]
fn erasedClosuresReturnValues() {
    let counting = ErasedCallable::fromStateAndFn(10i32, |state: &i32, args: &DynamicList| {
        *state + args.values.len() as i32
    });
    assert_eq!(counting.call(DynamicList { values: vec![] }), Value::I32(10));
    assert_eq!(
        counting.call(DynamicList { values: vec![Value::Void, Value::U8(3)] }),
        Value::I32(12)
    );
    let silent = ErasedCallable::fromStateAndFn((), |_: &(), _: &DynamicList| ());
    assert_eq!(silent.call(DynamicList { values: vec![] }), Value::Void);
}

#[test]
fn erasedClosuresTakeTheirArgumentsOutOfTheList() {
    let offset = 100i64;
    let sum = ErasedCallable::from_closure(move |(a, b): (i32, u8)| offset + a as i64 + b as i64);
    assert_eq!(
        sum.call(DynamicList { values: vec![Value::I32(-5), Value::U8(7)] }),
        Value::I64(102)
    );
    let constant = ErasedCallable::from_closure(|(): ()| 3u16);
    assert_eq!(constant.call(DynamicList { values: vec![] }), Value::U16(3));
    let first = ErasedCallable::from_closure(|(a,): (Pointer,)| a);
    assert_eq!(
        first.call(DynamicList { values: vec![Value::Pointer(64)] }),
        Value::Pointer(64)
    );
    let middle = ErasedCallable::from_closure(|(_, b, _): (i8, u32, i16)| b);
    assert_eq!(
        middle.call(DynamicList { values: vec![Value::I8(1), Value::U32(2), Value::I16(3)] }),
        Value::U32(2)
    );
}

#[test]
fn argumentsAreExtractedExactly() {
    let list = |values: Vec<Value>| DynamicList { values };
    assert_eq!(<()>::extract(list(vec![])), Some(()));
    assert_eq!(<()>::extract(list(vec![Value::Void])), None);
    assert_eq!(<(i32,)>::extract(list(vec![Value::I32(4)])), Some((4,)));
    assert_eq!(<(i32,)>::extract(list(vec![Value::U32(4)])), None);
    assert_eq!(<(i32,)>::extract(list(vec![])), None);
    assert_eq!(
        <(i32, u8)>::extract(list(vec![Value::I32(4), Value::U8(5)])),
        Some((4, 5))
    );
    assert_eq!(<(i32, u8)>::extract(list(vec![Value::U8(5), Value::I32(4)])), None);
    assert_eq!(
        <(i8, i16, i64)>::extract(list(vec![Value::I8(1), Value::I16(2), Value::I64(3)])),
        Some((1, 2, 3))
    );
}

#[test]
fn longArgumentListsAreExtractedInOrder() {
    let list = |values: Vec<Value>| DynamicList { values };
    let numbers = |count: u32| list((1..=count).map(Value::U32).collect());
    assert_eq!(
        <(u8, i32, Pointer, u64)>::extract(list(vec![
            Value::U8(1),
            Value::I32(-2),
            Value::Pointer(3),
            Value::U64(4),
        ])),
        Some((1, -2, Pointer(3), 4))
    );
    assert_eq!(<(u32, u32, u32, u32, u32)>::extract(numbers(5)), Some((1, 2, 3, 4, 5)));
    assert_eq!(<(u32, u32, u32, u32, u32)>::extract(numbers(4)), None);
    assert_eq!(<(u32, u32, u32, u32, u32)>::extract(numbers(6)), None);
    assert_eq!(
        <(u32, u32, u32, u32, u32, u32, u32)>::extract(numbers(7)),
        Some((1, 2, 3, 4, 5, 6, 7))
    );
    assert_eq!(
        <(u32, u32, u32, u32, u32, u32, u32, u32, u32, u32, u32, u32)>::extract(numbers(12)),
        Some((1, 2, 3, 4, 5, 6, 7, 8, 9, 10, 11, 12))
    );

    let weighted = ErasedCallable::from_closure(|(a, b, c, d): (u32, u32, u32, u32)| {
        a + 10 * b + 100 * c + 1000 * d
    });
    assert_eq!(weighted.call(numbers(4)), Value::U32(4321));
}

#[test]
fn closuresAreRecognizedByPlaceAndSignature() {
    let site = "src/main.rs:10:5";
    let argTypes = [Type::I32, Type::Pointer];
    let siteTag = tagOf(site);
    let argsOutputTag = typesTagOf(&argTypes, &Type::U8);
    let refused = |text: &str| Err(CallError::Decode(text.to_string()));

    assert_eq!(recognize(siteTag, argsOutputTag, site, &argTypes, &Type::U8), Ok(()));
    assert_eq!(
        recognize(siteTag, argsOutputTag, "src/main.rs:11:5", &argTypes, &Type::U8),
        refused("the callback comes from another place in the source code")
    );
    assert_eq!(
        recognize(siteTag, argsOutputTag, site, &argTypes, &Type::I8),
        refused("the callback has another signature")
    );
    assert_eq!(
        recognize(siteTag, argsOutputTag, site, &argTypes[..1], &Type::U8),
        refused("the callback has another signature")
    );

    // What crosses the boundary carries the tags that are recognized there.
    let sent = Sendable::from_closure(vec![7], 16, siteTag, vec![Type::I32, Type::Pointer], Type::U8);
    let call = decode(&sent.encode().expect("no bytes"), 4096).expect("no envelope");
    assert_eq!(recognize(call.siteTag, call.argsOutputTag, site, &argTypes, &Type::U8), Ok(()));
}
