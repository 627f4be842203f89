//! Text building blocks: rendering numbers, reading them back, and folding
//! ASCII case. Every function here is total and pinned to a sequence of
//! characters, so the messages built on top of it are exact too.
use vstd::prelude::*;
use vstd::string::*;

verus! {

// ------------------------------------------------------------------------------------------------
// Rendering numbers
// ------------------------------------------------------------------------------------------------

/// The character of one decimal or lower-case hexadecimal digit.
pub open spec fn digitChar(digit: nat) -> char {
    if digit < 10 {
        ('0' as nat + digit) as char
    } else {
        ('a' as nat + (digit - 10)) as char
    }
}

/// `number` in base `base`, most significant digit first, without leading zeros.
pub open spec fn digitsOf(number: nat, base: nat) -> Seq<char>
    recommends
        2 <= base,
    decreases number,
{
    if base < 2 || number < base {
        seq![digitChar(number)]
    } else {
        proof {
            vstd::arithmetic::div_mod::lemma_div_decreases(number as int, base as int);
        }
        digitsOf(number / base, base).push(digitChar(number % base))
    }
}

/// `number` in decimal.
pub open spec fn decimal(number: nat) -> Seq<char> {
    digitsOf(number, 10)
}

/// `number` in decimal, with a leading minus sign where it is negative.
pub open spec fn signedDecimal(number: int) -> Seq<char> {
    if number < 0 {
        seq!['-'] + decimal((-number) as nat)
    } else {
        decimal(number as nat)
    }
}

/// `number` in lower-case hexadecimal behind `0x`.
pub open spec fn hexadecimal(number: nat) -> Seq<char> {
    seq!['0', 'x'] + digitsOf(number, 16)
}

fn digitText(digit: u64) -> (text: &'static str)
    requires
        digit < 16,
    ensures
        text@ == seq![digitChar(digit as nat)],
{
    proof {
        reveal_strlit("0");
        reveal_strlit("1");
        reveal_strlit("2");
        reveal_strlit("3");
        reveal_strlit("4");
        reveal_strlit("5");
        reveal_strlit("6");
        reveal_strlit("7");
        reveal_strlit("8");
        reveal_strlit("9");
        reveal_strlit("a");
        reveal_strlit("b");
        reveal_strlit("c");
        reveal_strlit("d");
        reveal_strlit("e");
        reveal_strlit("f");
    }
    let text: &'static str = match digit {
        0 => "0",
        1 => "1",
        2 => "2",
        3 => "3",
        4 => "4",
        5 => "5",
        6 => "6",
        7 => "7",
        8 => "8",
        9 => "9",
        10 => "a",
        11 => "b",
        12 => "c",
        13 => "d",
        14 => "e",
        _ => "f",
    };
    assert(text@ =~= seq![digitChar(digit as nat)]);
    text
}

fn digitsText(number: u64, base: u64) -> (text: String)
    requires
        2 <= base <= 16,
    ensures
        text@ == digitsOf(number as nat, base as nat),
    decreases number,
{
    if number < base {
        let mut text: String = String::new();
        text.append(digitText(number));
        assert(text@ =~= digitsOf(number as nat, base as nat));
        text
    } else {
        proof {
            vstd::arithmetic::div_mod::lemma_div_decreases(number as int, base as int);
        }
        let mut text: String = digitsText(number / base, base);
        text.append(digitText(number % base));
        assert(text@ =~= digitsOf(number as nat, base as nat));
        text
    }
}

/// Renders `number` in decimal.
pub fn decimalText(number: u64) -> (text: String)
    ensures
        text@ == decimal(number as nat),
{
    digitsText(number, 10)
}

/// Renders `number` in decimal, with its sign.
pub fn signedDecimalText(number: i64) -> (text: String)
    ensures
        text@ == signedDecimal(number as int),
{
    if number < 0 {
        let magnitude: u64 = if number == i64::MIN {
            0x8000_0000_0000_0000u64
        } else {
            (-number) as u64
        };
        let mut text: String = String::new();
        text.append("-");
        proof {
            reveal_strlit("-");
        }
        text.append(decimalText(magnitude).as_str());
        assert(text@ =~= signedDecimal(number as int));
        text
    } else {
        decimalText(number as u64)
    }
}

/// Renders `number` in hexadecimal, behind `0x`.
pub fn hexadecimalText(number: u64) -> (text: String)
    ensures
        text@ == hexadecimal(number as nat),
{
    let mut text: String = String::new();
    text.append("0x");
    proof {
        reveal_strlit("0x");
    }
    text.append(digitsText(number, 16).as_str());
    assert(text@ =~= hexadecimal(number as nat));
    text
}

// ------------------------------------------------------------------------------------------------
// Reading text
// ------------------------------------------------------------------------------------------------

/// Collects the characters of `text`.
pub fn charsOf(text: &str) -> (chars: Vec<char>)
    ensures
        chars@ == text@,
{
    let mut chars: Vec<char> = Vec::new();
    let length: usize = text.unicode_len();
    let mut i: usize = 0;
    while i < length
        invariant
            i <= length,
            length == text@.len(),
            chars@ == text@.take(i as int),
        decreases length - i,
    {
        chars.push(text.get_char(i));
        i = i + 1;
        assert(chars@ =~= text@.take(i as int));
    }
    assert(text@.take(length as int) =~= text@);
    chars
}

/// Whether `chars` spell `text`.
pub fn spells(chars: &Vec<char>, text: &str) -> (same: bool)
    ensures
        same == (chars@ == text@),
{
    let length: usize = text.unicode_len();
    if chars.len() != length {
        return false;
    }
    let mut i: usize = 0;
    while i < length
        invariant
            i <= length,
            length == text@.len(),
            chars@.len() == length,
            forall|j: int| 0 <= j < i ==> chars@[j] == text@[j],
        decreases length - i,
    {
        if chars[i] != text.get_char(i) {
            return false;
        }
        i = i + 1;
    }
    assert(chars@ =~= text@);
    true
}

/// ASCII lower case of one character; every other character is itself.
pub open spec fn lowerChar(c: char) -> char {
    if 'A' <= c <= 'Z' {
        (c as u32 + 32) as char
    } else {
        c
    }
}

/// `text` with its ASCII letters in lower case.
pub open spec fn lower(text: Seq<char>) -> Seq<char> {
    text.map_values(|c: char| lowerChar(c))
}

fn lowerCharOf(c: char) -> (lowered: char)
    ensures
        lowered == lowerChar(c),
{
    if 'A' <= c && c <= 'Z' {
        ((c as u8) + 32) as char
    } else {
        c
    }
}

/// The characters of `text`, ASCII letters folded to lower case.
pub fn lowerChars(text: &str) -> (chars: Vec<char>)
    ensures
        chars@ == lower(text@),
{
    let all: Vec<char> = charsOf(text);
    let mut chars: Vec<char> = Vec::new();
    let mut i: usize = 0;
    while i < all.len()
        invariant
            i <= all@.len(),
            all@ == text@,
            chars@ == lower(all@).take(i as int),
        decreases all@.len() - i,
    {
        chars.push(lowerCharOf(all[i]));
        i = i + 1;
        assert(chars@ =~= lower(all@).take(i as int));
    }
    assert(lower(all@).take(all@.len() as int) =~= lower(text@));
    chars
}

// ------------------------------------------------------------------------------------------------
// Reading numbers
// ------------------------------------------------------------------------------------------------

/// The characters of the Unicode property `White_Space`.
pub open spec fn isWhitespace(c: char) -> bool {
    let code: u32 = c as u32;
    ||| 0x9 <= code <= 0xd
    ||| code == 0x20
    ||| code == 0x85
    ||| code == 0xa0
    ||| code == 0x1680
    ||| 0x2000 <= code <= 0x200a
    ||| code == 0x2028
    ||| code == 0x2029
    ||| code == 0x202f
    ||| code == 0x205f
    ||| code == 0x3000
}

/// `text` without its leading whitespace.
pub open spec fn trimStart(text: Seq<char>) -> Seq<char>
    decreases text.len(),
{
    if text.len() > 0 && isWhitespace(text.first()) {
        trimStart(text.drop_first())
    } else {
        text
    }
}

/// `text` without its trailing whitespace.
pub open spec fn trimEnd(text: Seq<char>) -> Seq<char>
    decreases text.len(),
{
    if text.len() > 0 && isWhitespace(text.last()) {
        trimEnd(text.drop_last())
    } else {
        text
    }
}

/// `text` without the whitespace around it.
pub open spec fn trimmed(text: Seq<char>) -> Seq<char> {
    trimEnd(trimStart(text))
}

/// Whether `c` is one of `0` to `9`.
pub open spec fn isDigit(c: char) -> bool {
    '0' <= c <= '9'
}

/// The number that a row of decimal digits denotes.
pub open spec fn numberOf(digits: Seq<char>) -> nat
    decreases digits.len(),
{
    if digits.len() == 0 {
        0
    } else {
        numberOf(digits.drop_last()) * 10 + (digits.last() as nat - '0' as nat) as nat
    }
}

/// The digits of an unsigned number: what is left behind an optional plus sign.
pub open spec fn unsignedDigits(text: Seq<char>) -> Seq<char> {
    if text.len() > 0 && text.first() == '+' {
        text.drop_first()
    } else {
        text
    }
}

/// The `u64` that `text` denotes: an optional plus sign and at least one digit,
/// nothing else, and no more than a `u64` holds.
pub open spec fn unsignedNumber(text: Seq<char>) -> Option<u64> {
    let digits = unsignedDigits(text);
    if digits.len() > 0 && (forall|i: int| 0 <= i < digits.len() ==> isDigit(#[trigger] digits[i]))
        && numberOf(digits) <= u64::MAX {
        Some(numberOf(digits) as u64)
    } else {
        None
    }
}

fn whitespaceChar(c: char) -> (space: bool)
    ensures
        space == isWhitespace(c),
{
    let code: u32 = c as u32;
    (0x9 <= code && code <= 0xd) || code == 0x20 || code == 0x85 || code == 0xa0 || code == 0x1680
        || (0x2000 <= code && code <= 0x200a) || code == 0x2028 || code == 0x2029 || code == 0x202f
        || code == 0x205f || code == 0x3000
}

/// The bounds of `chars` without the whitespace around it.
fn trimBounds(chars: &Vec<char>) -> (bounds: (usize, usize))
    ensures
        bounds.0 <= bounds.1 <= chars@.len(),
        chars@.subrange(bounds.0 as int, bounds.1 as int) == trimmed(chars@),
{
    let length: usize = chars.len();
    let mut start: usize = 0;
    assert(chars@.skip(0) =~= chars@);
    while start < length && whitespaceChar(chars[start])
        invariant
            start <= length,
            length == chars@.len(),
            trimStart(chars@.skip(start as int)) == trimStart(chars@),
        decreases length - start,
    {
        assert(chars@.skip(start as int).drop_first() =~= chars@.skip(start + 1));
        start = start + 1;
    }
    let mut end: usize = length;
    let ghost rest = chars@.skip(start as int);
    assert(trimStart(chars@) == rest);
    assert(chars@.subrange(start as int, end as int) =~= rest);
    while start < end && whitespaceChar(chars[end - 1])
        invariant
            start <= end <= length,
            length == chars@.len(),
            trimEnd(chars@.subrange(start as int, end as int)) == trimEnd(rest),
        decreases end - start,
    {
        assert(chars@.subrange(start as int, end as int).drop_last() =~= chars@.subrange(
            start as int,
            end - 1,
        ));
        end = end - 1;
    }
    (start, end)
}

proof fn numberOfGrows(digits: Seq<char>, n: int)
    requires
        0 <= n <= digits.len(),
        forall|i: int| 0 <= i < digits.len() ==> isDigit(#[trigger] digits[i]),
    ensures
        numberOf(digits.take(n)) <= numberOf(digits),
    decreases digits.len(),
{
    if n < digits.len() {
        let shorter = digits.drop_last();
        numberOfGrows(shorter, n);
        assert(shorter.take(n) =~= digits.take(n));
    } else {
        assert(digits.take(n) =~= digits);
    }
}

/// Reads an unsigned number out of `text`, whitespace around it aside.
pub fn parseUnsigned(text: &str) -> (number: Option<u64>)
    ensures
        number == unsignedNumber(trimmed(text@)),
{
    let chars: Vec<char> = charsOf(text);
    let bounds: (usize, usize) = trimBounds(&chars);
    let end: usize = bounds.1;
    let mut start: usize = bounds.0;
    let ghost core = trimmed(text@);
    if start < end && chars[start] == '+' {
        assert(core.first() == '+');
        start = start + 1;
    }
    let ghost digits = unsignedDigits(core);
    assert(digits =~= chars@.subrange(start as int, end as int));
    if start == end {
        return None;
    }
    let mut value: u64 = 0;
    let mut i: usize = start;
    while i < end
        invariant
            start <= i <= end <= chars@.len(),
            digits == chars@.subrange(start as int, end as int),
            forall|j: int| 0 <= j < i - start ==> isDigit(#[trigger] digits[j]),
            value == numberOf(digits.take(i - start)),
            digits == unsignedDigits(trimmed(text@)),
        decreases end - i,
    {
        let c: char = chars[i];
        let ghost n = i - start;
        assert(digits[n] == c);
        if !('0' <= c && c <= '9') {
            assert(!isDigit(digits[n]));
            return None;
        }
        let digit: u64 = (c as u64) - ('0' as u64);
        assert(digits.take(n + 1).drop_last() =~= digits.take(n));
        assert(numberOf(digits.take(n + 1)) == value * 10 + digit);
        if value > (u64::MAX - digit) / 10 {
            proof {
                if forall|j: int| 0 <= j < digits.len() ==> isDigit(#[trigger] digits[j]) {
                    numberOfGrows(digits, n + 1);
                }
            }
            return None;
        }
        value = value * 10 + digit;
        i = i + 1;
    }
    assert(digits.take(digits.len() as int) =~= digits);
    Some(value)
}

/// What [`parseUnsigned`] makes of a number in decimal with a line break behind
/// it, the form in which the kernel prints its settings: the number itself.
pub proof fn decimalLineReadsBack(number: u64)
    ensures
        unsignedNumber(trimmed(decimal(number as nat).push('\n'))) == Some(number),
{
    let digits = decimal(number as nat);
    let line = digits.push('\n');
    decimalDigits(number as nat);
    assert(isDigit(digits[0]));
    assert(!isWhitespace(line.first()));
    assert(trimStart(line) == line);
    assert(line.drop_last() =~= digits);
    assert(isDigit(digits.last()));
    assert(trimEnd(digits) == digits);
    assert(trimEnd(line) == digits);
    assert(unsignedDigits(digits) == digits);
}

/// A number in decimal is a row of digits that denotes it.
pub proof fn decimalDigits(number: nat)
    ensures
        decimal(number).len() > 0,
        forall|i: int| 0 <= i < decimal(number).len() ==> isDigit(#[trigger] decimal(number)[i]),
        numberOf(decimal(number)) == number,
    decreases number,
{
    let digits = decimal(number);
    if number < 10 {
        assert(digits.drop_last() =~= Seq::<char>::empty());
        assert(numberOf(digits.drop_last()) == 0);
        assert(digits.last() as nat == '0' as nat + number);
    } else {
        decimalDigits(number / 10);
        assert(digits.drop_last() =~= decimal(number / 10));
        assert(digits.last() as nat == '0' as nat + number % 10);
    }
}

// ------------------------------------------------------------------------------------------------
// What holds of texts
// ------------------------------------------------------------------------------------------------

/// Digits have the characters that everybody reads them by: the decimal ones
/// follow each other from `0` on, and the six beyond them from `a` on.
pub proof fn digitsFollowEachOther(digit: nat)
    requires
        digit < 16,
    ensures
        digit < 10 ==> digitChar(digit) as int - '0' as int == digit && isDigit(digitChar(digit)),
        digit >= 10 ==> digitChar(digit) as int - 'a' as int == digit - 10 && 'a' <= digitChar(
            digit,
        ) <= 'f',
        digit == 0 ==> digitChar(digit) == '0',
        digit == 15 ==> digitChar(digit) == 'f',
{
}

/// A row of digits counts in tens: a digit alone is its distance from `0`, and a
/// digit that is appended makes everything before it worth ten times as much.
pub proof fn digitsCountInTens(digits: Seq<char>, digit: char)
    requires
        '0' <= digit <= '9',
    ensures
        numberOf(seq![digit]) == digit as int - '0' as int,
        numberOf(digits.push(digit)) == 10 * numberOf(digits) + (digit as int - '0' as int),
{
    assert(digits.push(digit).drop_last() =~= digits);
    assert(seq![digit].drop_last() =~= Seq::<char>::empty());
    assert(numberOf(Seq::<char>::empty()) == 0);
}

/// The number that a row of digits denotes in a base that is at most sixteen.
pub open spec fn worth(digits: Seq<char>, base: nat) -> nat
    decreases digits.len(),
{
    if digits.len() == 0 {
        0
    } else {
        let last = digits.last();
        let digit: int = if last <= '9' {
            last as int - '0' as int
        } else {
            last as int - 'a' as int + 10
        };
        (worth(digits.drop_last(), base) * base + digit) as nat
    }
}

/// A number is written in the digits that it is made of, and in no more of them
/// than it takes: they are worth the number again, and the first of several is not
/// zero.
pub proof fn digitsAreWorthTheNumber(number: nat, base: nat)
    requires
        2 <= base <= 16,
    ensures
        digitsOf(number, base).len() > 0,
        worth(digitsOf(number, base), base) == number,
        digitsOf(number, base).len() > 1 ==> digitsOf(number, base).first() != '0',
        number > 0 ==> digitsOf(number, base).first() != '0',
    decreases number,
{
    let digits = digitsOf(number, base);
    if number < base {
        assert(digits.drop_last() =~= Seq::<char>::empty());
        assert(worth(digits.drop_last(), base) == 0);
        assert(0 * base == 0) by (nonlinear_arith);
    } else {
        vstd::arithmetic::div_mod::lemma_div_decreases(number as int, base as int);
        vstd::arithmetic::div_mod::lemma_fundamental_div_mod(number as int, base as int);
        vstd::arithmetic::div_mod::lemma_mod_bound(number as int, base as int);
        assert(number / base > 0) by (nonlinear_arith)
            requires
                number >= base,
                base >= 2,
        ;
        digitsAreWorthTheNumber(number / base, base);
        assert(digits.drop_last() =~= digitsOf(number / base, base));
        assert(digits.first() == digitsOf(number / base, base).first());
        assert(worth(digits, base) == (number / base) * base + number % base);
        assert((number / base) * base == base * (number / base)) by (nonlinear_arith);
    }
}

/// Whether a text consists of decimal digits.
pub open spec fn allDigits(text: Seq<char>) -> bool {
    forall|i: int| 0 <= i < text.len() ==> '0' <= #[trigger] text[i] <= '9'
}

/// Whether a text is a number in decimal: a minus sign where the number is
/// negative, and then digits that denote its size, the first of several not zero.
pub open spec fn denotes(text: Seq<char>, number: int) -> bool {
    let digits = if number < 0 {
        text.drop_first()
    } else {
        text
    };
    &&& number < 0 ==> text.len() > 0 && text.first() == '-'
    &&& digits.len() > 0
    &&& allDigits(digits)
    &&& worth(digits, 10) == (if number < 0 {
        -number
    } else {
        number
    })
    &&& digits.len() > 1 ==> digits.first() != '0'
}

/// A number that is written in decimal denotes itself, with its sign.
pub proof fn writtenNumbersDenoteThemselves(number: int)
    ensures
        denotes(signedDecimal(number), number),
        number >= 0 ==> denotes(decimal(number as nat), number),
{
    let size: nat = if number < 0 {
        (-number) as nat
    } else {
        number as nat
    };
    decimalDigits(size);
    digitsAreWorthTheNumber(size, 10);
    let digits = decimal(size);
    assert forall|i: int| 0 <= i < digits.len() implies '0' <= #[trigger] digits[i] <= '9' by {
        assert(isDigit(digits[i]));
    }
    if number < 0 {
        assert(signedDecimal(number).drop_first() =~= digits);
    }
}

/// A number in hexadecimal stands behind `0x`, and its digits are worth the number.
pub proof fn hexadecimalIsWorthTheNumber(number: nat)
    ensures
        hexadecimal(number).len() > 2,
        hexadecimal(number)[0] == '0',
        hexadecimal(number)[1] == 'x',
        worth(hexadecimal(number).skip(2), 16) == number,
        hexadecimal(number).len() > 3 ==> hexadecimal(number)[2] != '0',
{
    digitsAreWorthTheNumber(number, 16);
    assert(hexadecimal(number).skip(2) =~= digitsOf(number, 16));
}

/// Folding concerns the letters from `A` to `Z` alone: each of them becomes the
/// letter that lies as far behind `a` as it lies behind `A`, everything else stays
/// what and where it is, and folding again changes nothing.
pub proof fn foldingConcernsCapitalsAlone(text: Seq<char>)
    ensures
        lower(text).len() == text.len(),
        forall|i: int|
            0 <= i < text.len() && 'A' <= #[trigger] text[i] <= 'Z' ==> lower(text)[i] as int
                - 'a' as int == text[i] as int - 'A' as int,
        forall|i: int|
            0 <= i < text.len() && !('A' <= #[trigger] text[i] <= 'Z') ==> lower(text)[i]
                == text[i],
        lower(lower(text)) == lower(text),
{
    assert(lower(lower(text)) =~= lower(text));
}

/// The whitespace of ASCII is the space and the five characters from the tabulator
/// to the carriage return. Beyond ASCII it is what Unicode calls so.
pub proof fn whitespaceIsWhatUnicodeCallsSo(c: char)
    ensures
        (c as u32) < 0x80 ==> (isWhitespace(c) <==> c == ' ' || '\t' <= c <= '\r'),
        (c as u32) >= 0x80 ==> (isWhitespace(c) <==> c == '\u{85}' || c == '\u{a0}' || c
            == '\u{1680}' || '\u{2000}' <= c <= '\u{200a}' || '\u{2028}' <= c <= '\u{2029}' || c
            == '\u{202f}' || c == '\u{205f}' || c == '\u{3000}'),
{
}

/// Trimming takes whitespace off both ends and nothing else: what is left is a
/// piece of the text that neither begins nor ends with whitespace, and everything
/// before and behind it was whitespace.
pub proof fn trimmingTakesWhitespaceOff(text: Seq<char>)
    ensures
        trimmed(text).len() > 0 ==> !isWhitespace(trimmed(text).first()) && !isWhitespace(
            trimmed(text).last(),
        ),
        exists|start: int, end: int|
            0 <= start <= end <= text.len() && trimmed(text) == #[trigger] text.subrange(start, end)
                && (forall|i: int|
                0 <= i < start || end <= i < text.len() ==> isWhitespace(#[trigger] text[i])),
{
    let start = leadingWhitespace(text);
    let rest = text.skip(start);
    let left = trailingWhitespace(rest);
    let end = start + left;
    assert(rest.take(left) =~= text.subrange(start, end));
    assert forall|i: int| 0 <= i < start || end <= i < text.len() implies isWhitespace(
        #[trigger] text[i],
    ) by {
        if end <= i {
            assert(rest[i - start] == text[i]);
        }
    }
    if trimmed(text).len() > 0 {
        assert(trimmed(text).first() == rest.first());
    }
}

/// How much whitespace a text begins with, and that this is what is taken off.
proof fn leadingWhitespace(text: Seq<char>) -> (start: int)
    ensures
        0 <= start <= text.len(),
        trimStart(text) == text.skip(start),
        forall|i: int| 0 <= i < start ==> isWhitespace(#[trigger] text[i]),
        start < text.len() ==> !isWhitespace(text[start]),
    decreases text.len(),
{
    if text.len() > 0 && isWhitespace(text.first()) {
        let rest = text.drop_first();
        let start = leadingWhitespace(rest);
        assert(rest.skip(start) =~= text.skip(start + 1));
        assert forall|i: int| 0 <= i < start + 1 implies isWhitespace(#[trigger] text[i]) by {
            if i > 0 {
                assert(rest[i - 1] == text[i]);
            }
        }
        start + 1
    } else {
        assert(text.skip(0) =~= text);
        0
    }
}

/// How long a text is without the whitespace that it ends with, and that this is
/// what is left.
proof fn trailingWhitespace(text: Seq<char>) -> (left: int)
    ensures
        0 <= left <= text.len(),
        trimEnd(text) == text.take(left),
        forall|i: int| left <= i < text.len() ==> isWhitespace(#[trigger] text[i]),
        left > 0 ==> !isWhitespace(text[left - 1]),
    decreases text.len(),
{
    if text.len() > 0 && isWhitespace(text.last()) {
        let rest = text.drop_last();
        let left = trailingWhitespace(rest);
        assert(rest.take(left) =~= text.take(left));
        assert forall|i: int| left <= i < text.len() implies isWhitespace(#[trigger] text[i]) by {
            if i < rest.len() {
                assert(rest[i] == text[i]);
            }
        }
        left
    } else {
        assert(text.take(text.len() as int) =~= text);
        text.len() as int
    }
}

/// A text is a number exactly where it is a row of digits, with or without a plus
/// sign before it, and not beyond what fits; and then it is the number that the
/// digits are worth.
pub proof fn numbersAreRowsOfDigits(text: Seq<char>, digits: Seq<char>)
    requires
        text == digits || text == seq!['+'] + digits,
        digits.len() > 0 ==> digits.first() != '+',
    ensures
        (unsignedNumber(text) is Some) == (digits.len() > 0 && (forall|i: int|
            0 <= i < digits.len() ==> '0' <= #[trigger] digits[i] <= '9') && worth(digits, 10)
            <= u64::MAX),
        unsignedNumber(text) matches Some(number) ==> worth(digits, 10) == number,
        unsignedNumber(seq!['+'] + digits) == unsignedNumber(digits),
{
    assert((seq!['+'] + digits).drop_first() =~= digits);
    assert(unsignedDigits(text) == digits);
    assert(unsignedDigits(digits) == digits);
    let all = forall|i: int| 0 <= i < digits.len() ==> '0' <= #[trigger] digits[i] <= '9';
    if all {
        numbersAreWorthTheirDigits(digits);
        assert forall|i: int| 0 <= i < digits.len() implies isDigit(#[trigger] digits[i]) by {}
    } else {
        let i = choose|i: int| 0 <= i < digits.len() && !('0' <= #[trigger] digits[i] <= '9');
        assert(!isDigit(digits[i]));
    }
}

/// A row of decimal digits denotes what it is worth.
proof fn numbersAreWorthTheirDigits(digits: Seq<char>)
    requires
        forall|i: int| 0 <= i < digits.len() ==> '0' <= #[trigger] digits[i] <= '9',
    ensures
        numberOf(digits) == worth(digits, 10),
    decreases digits.len(),
{
    if digits.len() > 0 {
        let before = digits.drop_last();
        assert forall|i: int| 0 <= i < before.len() implies '0' <= #[trigger] before[i] <= '9' by {
            assert(before[i] == digits[i]);
        }
        numbersAreWorthTheirDigits(before);
        assert('0' <= digits[digits.len() - 1] <= '9');
    }
}

} // verus!
