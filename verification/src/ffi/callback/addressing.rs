//! Where the code of a callback is, and the tags by which it is recognized.
use crate::ffi::types::{typeShapes, typeShapesMembers, Type, TypeShape};
use crate::text::charsOf;
use vstd::prelude::*;
use vstd::string::*;

verus! {

/// The address of what lies `offset` bytes into a module that was loaded at
/// `base`.
pub open spec fn resolved(base: usize, offset: usize) -> usize {
    base.wrapping_add(offset)
}

/// How many bytes into a module that was loaded at `base` the address lies.
pub open spec fn relative(base: usize, address: usize) -> usize {
    address.wrapping_sub(base)
}

/// Resolves an offset in the module that was loaded at `base`.
pub fn resolveRelative(base: usize, offset: usize) -> (address: usize)
    ensures
        address == resolved(base, offset),
{
    base.wrapping_add(offset)
}

/// The offset of an address in the module that was loaded at `base`.
pub fn relativeOffsetOf(base: usize, address: usize) -> (offset: usize)
    ensures
        offset == relative(base, address),
{
    address.wrapping_sub(base)
}

/// An offset finds its way back: resolved against the same base it is the
/// address that it was made of, and resolved against another base it is the
/// address that the module's new place gives it.
pub proof fn offsetsResolve(base: usize, other: usize, address: usize)
    ensures
        resolved(base, relative(base, address)) == address,
        relative(other, resolved(other, relative(base, address))) == relative(base, address),
{
}

// ------------------------------------------------------------------------------------------------
// Tags
// ------------------------------------------------------------------------------------------------

/// Where every hash begins.
pub const HashStart: u64 = 0xcbf2_9ce4_8422_2325;

/// What every step of a hash multiplies by.
pub const HashPrime: u64 = 0x0000_0100_0000_01b3;

/// The FNV-1a hash of a row of numbers.
pub open spec fn hashed(numbers: Seq<u64>) -> u64
    decreases numbers.len(),
{
    if numbers.len() == 0 {
        HashStart
    } else {
        (hashed(numbers.drop_last()) ^ numbers.last()).wrapping_mul(HashPrime)
    }
}

fn hashOf(numbers: &Vec<u64>) -> (hash: u64)
    ensures
        hash == hashed(numbers@),
{
    let mut hash: u64 = HashStart;
    let mut i: usize = 0;
    while i < numbers.len()
        invariant
            i <= numbers@.len(),
            hash == hashed(numbers@.take(i as int)),
        decreases numbers@.len() - i,
    {
        hash = (hash ^ numbers[i]).wrapping_mul(HashPrime);
        i = i + 1;
        assert(numbers@.take(i as int).drop_last() =~= numbers@.take(i - 1));
    }
    assert(numbers@.take(i as int) =~= numbers@);
    hash
}

/// The code points of a text.
pub open spec fn codePoints(text: Seq<char>) -> Seq<u64> {
    Seq::new(text.len(), |i: int| text[i] as u64)
}

/// The tag of a place in the source code.
pub fn tagOf(site: &str) -> (tag: u64)
    ensures
        tag == hashed(codePoints(site@)),
{
    let chars: Vec<char> = charsOf(site);
    let mut codes: Vec<u64> = Vec::new();
    let mut i: usize = 0;
    while i < chars.len()
        invariant
            i <= chars@.len(),
            codes@.len() == i,
            forall|j: int| 0 <= j < i ==> codes@[j] == chars@[j] as u64,
        decreases chars@.len() - i,
    {
        codes.push(chars[i] as u64);
        i = i + 1;
    }
    assert(codes@ =~= codePoints(site@));
    hashOf(&codes)
}

/// How a type is spelled in a tag: a scalar by its number, and a structure by
/// its fields between two numbers of its own.
pub open spec fn spelled(shape: TypeShape) -> Seq<u64>
    decreases shape,
{
    match shape {
        TypeShape::Void => seq![0u64],
        TypeShape::I8 => seq![1u64],
        TypeShape::I16 => seq![2u64],
        TypeShape::I32 => seq![3u64],
        TypeShape::I64 => seq![4u64],
        TypeShape::U8 => seq![5u64],
        TypeShape::U16 => seq![6u64],
        TypeShape::U32 => seq![7u64],
        TypeShape::U64 => seq![8u64],
        TypeShape::F32 => seq![9u64],
        TypeShape::F64 => seq![10u64],
        TypeShape::Pointer => seq![11u64],
        TypeShape::String => seq![12u64],
        TypeShape::CString => seq![13u64],
        TypeShape::RawString => seq![14u64],
        TypeShape::Struct(fields) => seq![15u64] + spelledAll(fields) + seq![16u64],
    }
}

/// How a row of types is spelled in a tag.
pub open spec fn spelledAll(shapes: Seq<TypeShape>) -> Seq<u64>
    decreases shapes,
{
    if shapes.len() == 0 {
        Seq::empty()
    } else {
        spelledAll(shapes.drop_last()) + spelled(shapes.last())
    }
}

/// How a signature is spelled in a tag: the arguments, and behind a number of
/// its own the result.
pub open spec fn spelledSignature(args: Seq<TypeShape>, result: TypeShape) -> Seq<u64> {
    spelledAll(args) + seq![17u64] + spelled(result)
}

fn spell(codes: &mut Vec<u64>, spelledType: &Type)
    ensures
        final(codes)@ == old(codes)@ + spelled(spelledType@),
    decreases spelledType, 0nat,
{
    match spelledType {
        Type::Void => codes.push(0),
        Type::I8 => codes.push(1),
        Type::I16 => codes.push(2),
        Type::I32 => codes.push(3),
        Type::I64 => codes.push(4),
        Type::U8 => codes.push(5),
        Type::U16 => codes.push(6),
        Type::U32 => codes.push(7),
        Type::U64 => codes.push(8),
        Type::F32 => codes.push(9),
        Type::F64 => codes.push(10),
        Type::Pointer => codes.push(11),
        Type::String => codes.push(12),
        Type::CString => codes.push(13),
        Type::RawString => codes.push(14),
        Type::Struct(fields) => {
            codes.push(15);
            spellAll(codes, fields.as_slice());
            codes.push(16);
        },
    }
    assert(codes@ =~= old(codes)@ + spelled(spelledType@));
}

fn spellAll(codes: &mut Vec<u64>, types: &[Type])
    ensures
        final(codes)@ == old(codes)@ + spelledAll(typeShapes(types@)),
    decreases types@, 1nat,
{
    let ghost before = codes@;
    let ghost shapes = typeShapes(types@);
    proof {
        typeShapesMembers(types@);
    }
    let mut i: usize = 0;
    while i < types.len()
        invariant
            i <= types@.len(),
            shapes.len() == types@.len(),
            forall|j: int| 0 <= j < types@.len() ==> #[trigger] shapes[j] == types@[j]@,
            codes@ == before + spelledAll(shapes.take(i as int)),
        decreases types@.len() - i,
    {
        spell(codes, &types[i]);
        i = i + 1;
        assert(shapes.take(i as int).drop_last() =~= shapes.take(i - 1));
        assert(codes@ =~= before + spelledAll(shapes.take(i as int)));
    }
    assert(shapes.take(i as int) =~= shapes);
}

/// The tag of a signature. It depends on the types alone, not on how they are
/// stored.
pub fn typesTagOf(argTypes: &[Type], returnType: &Type) -> (tag: u64)
    ensures
        tag == hashed(spelledSignature(typeShapes(argTypes@), returnType@)),
{
    let mut codes: Vec<u64> = Vec::new();
    spellAll(&mut codes, argTypes);
    codes.push(17);
    spell(&mut codes, returnType);
    assert(codes@ =~= spelledSignature(typeShapes(argTypes@), returnType@));
    hashOf(&codes)
}

// ------------------------------------------------------------------------------------------------
// What holds of addresses and tags
// ------------------------------------------------------------------------------------------------

/// An offset is a distance: it is how far the address lies behind the base, and an
/// address is found that far behind the base again. Where the sum leaves the address
/// space it goes on from its beginning.
pub proof fn offsetsAreDistances(base: usize, address: usize, offset: usize)
    ensures
        base <= address ==> relative(base, address) == address - base,
        base > address ==> relative(base, address) == address - base + usize::MAX + 1,
        base + offset <= usize::MAX ==> resolved(base, offset) == base + offset,
        base + offset > usize::MAX ==> resolved(base, offset) == base + offset - usize::MAX - 1,
{
}

/// Every number of a row counts in its hash: the hash of an empty row is where all
/// hashes begin, and a number that is appended is mixed into the hash of those before
/// it, bit by bit, before that is spread by the multiplication.
pub proof fn everyNumberCountsInTheHash(numbers: Seq<u64>, number: u64)
    ensures
        hashed(Seq::empty()) == 0xcbf2_9ce4_8422_2325u64,
        hashed(numbers.push(number)) == (hashed(numbers) ^ number).wrapping_mul(
            0x0000_0100_0000_01b3u64,
        ),
{
    assert(numbers.push(number).drop_last() =~= numbers);
}

/// The code points of a text tell it apart from every other text: there is one for
/// each character, in order.
pub proof fn codePointsTellTextsApart(one: Seq<char>, other: Seq<char>)
    ensures
        codePoints(one).len() == one.len(),
        forall|i: int| 0 <= i < one.len() ==> #[trigger] codePoints(one)[i] == one[i] as u64,
        codePoints(one) == codePoints(other) ==> one == other,
{
    if codePoints(one) == codePoints(other) {
        assert(one.len() == codePoints(one).len());
        assert(other.len() == codePoints(other).len());
        assert forall|i: int| 0 <= i < one.len() implies one[i] == other[i] by {
            assert(codePoints(one)[i] == one[i] as u64);
            assert(codePoints(other)[i] == other[i] as u64);
            codePointTellsCharactersApart(one[i], other[i]);
        }
        assert(one =~= other);
    }
}

/// Two characters with the same code point are the same.
proof fn codePointTellsCharactersApart(one: char, other: char)
    requires
        one as u64 == other as u64,
    ensures
        one == other,
{
}

/// The spelling of a signature tells it apart from every other signature: two that
/// are spelled alike have the same arguments, in the same order, and the same result.
pub proof fn spellingTellsSignaturesApart(
    args: Seq<TypeShape>,
    result: TypeShape,
    otherArgs: Seq<TypeShape>,
    otherResult: TypeShape,
)
    requires
        spelledSignature(args, result) == spelledSignature(otherArgs, otherResult),
    ensures
        args == otherArgs,
        result == otherResult,
{
    rowsAreToldApart(args, otherArgs, 17, spelled(result), spelled(otherResult));
    let none = Seq::<u64>::empty();
    assert(spelled(result) + none =~= spelled(result));
    assert(spelled(otherResult) + none =~= spelled(otherResult));
    spellingsAreToldApart(result, otherResult, none, none);
}

/// A row of types is spelled from its first one on.
proof fn rowsBeginWithTheirFirst(shapes: Seq<TypeShape>)
    requires
        shapes.len() > 0,
    ensures
        spelledAll(shapes) == spelled(shapes.first()) + spelledAll(shapes.drop_first()),
    decreases shapes.len(),
{
    if shapes.len() == 1 {
        assert(shapes.drop_last() =~= Seq::<TypeShape>::empty());
        assert(shapes.drop_first() =~= Seq::<TypeShape>::empty());
        assert(spelledAll(shapes) =~= spelled(shapes.first()) + spelledAll(shapes.drop_first()));
    } else {
        rowsBeginWithTheirFirst(shapes.drop_last());
        assert(shapes.drop_last().drop_first() =~= shapes.drop_first().drop_last());
        assert(spelledAll(shapes) =~= spelled(shapes.first()) + spelledAll(shapes.drop_first()));
    }
}

/// Every spelling begins with a number that ends no row.
proof fn spellingsBegin(shape: TypeShape)
    ensures
        spelled(shape).len() > 0,
        spelled(shape)[0] < 16,
{
}

/// Where the spelling of a type ends can be told, whatever follows it.
proof fn spellingsAreToldApart(one: TypeShape, other: TypeShape, rest: Seq<u64>, otherRest: Seq<u64>)
    requires
        spelled(one) + rest == spelled(other) + otherRest,
    ensures
        one == other,
        rest == otherRest,
    decreases one,
{
    let both = spelled(one) + rest;
    spellingsBegin(one);
    spellingsBegin(other);
    assert(both[0] == spelled(one)[0]);
    assert(both[0] == spelled(other)[0]);
    if let TypeShape::Struct(fields) = one {
        assert(other is Struct);
        let others = other->Struct_0;
        let tail = both.skip(1);
        assert(tail =~= spelledAll(fields) + seq![16u64] + rest);
        assert(tail =~= spelledAll(others) + seq![16u64] + otherRest);
        rowsAreToldApart(fields, others, 16, rest, otherRest);
    } else {
        assert(spelled(one).len() == 1);
        assert(other !is Struct);
        assert(spelled(other).len() == 1);
        assert(rest =~= both.skip(1));
        assert(otherRest =~= both.skip(1));
    }
}

/// Where the spelling of a row of types ends can be told, if a number follows it that
/// no spelling begins with.
proof fn rowsAreToldApart(
    one: Seq<TypeShape>,
    other: Seq<TypeShape>,
    mark: u64,
    rest: Seq<u64>,
    otherRest: Seq<u64>,
)
    requires
        mark >= 16,
        spelledAll(one) + seq![mark] + rest == spelledAll(other) + seq![mark] + otherRest,
    ensures
        one == other,
        rest == otherRest,
    decreases one,
{
    let both = spelledAll(one) + seq![mark] + rest;
    let end = seq![mark] + rest;
    let otherEnd = seq![mark] + otherRest;
    if one.len() > 0 {
        rowsBeginWithTheirFirst(one);
        spellingsBegin(one.first());
        assert(both[0] == spelled(one.first())[0]);
    } else {
        assert(both[0] == mark);
    }
    if other.len() > 0 {
        rowsBeginWithTheirFirst(other);
        spellingsBegin(other.first());
        assert(both[0] == spelled(other.first())[0]);
    } else {
        assert(both[0] == mark);
    }
    if one.len() > 0 {
        let tail = spelledAll(one.drop_first()) + seq![mark] + rest;
        let otherTail = spelledAll(other.drop_first()) + seq![mark] + otherRest;
        assert(both =~= spelled(one.first()) + tail);
        assert(both =~= spelled(other.first()) + otherTail);
        spellingsAreToldApart(one.first(), other.first(), tail, otherTail);
        rowsAreToldApart(one.drop_first(), other.drop_first(), mark, rest, otherRest);
        assert(one =~= seq![one.first()] + one.drop_first());
        assert(other =~= seq![other.first()] + other.drop_first());
    } else {
        assert(one =~= other);
        assert(rest =~= both.skip(1));
        assert(otherRest =~= both.skip(1));
    }
}

} // verus!
