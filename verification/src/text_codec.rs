//! The text form of the hash types: Bech32m on the way out, and Bech32m or the older
//! `0x` hex form on the way in.

use vstd::prelude::*;
use vstd::utf8::{encode_utf8, is_ascii_chars, is_ascii_chars_encode_utf8};

verus! {

// ---- Hex -------------------------------------------------------------------

/// Why a string is not the hex form of some bytes.
#[derive(Debug, Clone, Copy, PartialEq, Eq)]
pub enum HexError {
    /// A byte of the text is no hex digit. `c` is that byte read as a character.
    InvalidHexCharacter { c: char, index: usize },
    /// The text has an odd number of bytes.
    OddLength,
    /// The text does not fit the buffer that it is decoded into.
    InvalidStringLength,
}

/// The value of a hex digit, in either case.
pub open spec fn hex_digit(b: u8) -> Option<u8> {
    if 48 <= b <= 57 {
        Some((b - 48) as u8)
    } else if 65 <= b <= 70 {
        Some((b - 55) as u8)
    } else if 97 <= b <= 102 {
        Some((b - 87) as u8)
    } else {
        None
    }
}

/// `text` is made of hex digits alone, an even number of them.
pub open spec fn is_hex(text: Seq<u8>) -> bool {
    &&& text.len() % 2 == 0
    &&& forall|j: int| 0 <= j < text.len() ==> hex_digit(#[trigger] text[j]) is Some
}

/// `i` is the first position of `text` that does not hold a hex digit.
pub open spec fn first_non_hex(text: Seq<u8>, i: int) -> bool {
    &&& 0 <= i < text.len()
    &&& hex_digit(text[i]) is None
    &&& forall|j: int| 0 <= j < i ==> hex_digit(#[trigger] text[j]) is Some
}

/// The bytes that hex digits stand for: two digits to a byte, the high one first.
pub open spec fn hex_value(text: Seq<u8>) -> Seq<u8> {
    Seq::new(
        text.len() / 2,
        |i: int| (16 * hex_digit(text[2 * i])->0 + hex_digit(text[2 * i + 1])->0) as u8,
    )
}

/// What the bytes of a string decode to as hex. An odd length counts before any wrong
/// digit, and of several wrong digits the first one counts.
pub open spec fn hex_decoded(text: Seq<u8>) -> Result<Seq<u8>, HexError> {
    if text.len() % 2 != 0 {
        Err(HexError::OddLength)
    } else if is_hex(text) {
        Ok(hex_value(text))
    } else {
        let index = choose|i: int| first_non_hex(text, i);
        Err(HexError::InvalidHexCharacter { c: text[index] as char, index: index as usize })
    }
}

/// A result of decoding hex, with the bytes as a sequence.
pub open spec fn hex_outcome(r: Result<Vec<u8>, HexError>) -> Result<Seq<u8>, HexError> {
    match r {
        Ok(bytes) => Ok(bytes@),
        Err(e) => Err(e),
    }
}

/// Calls `hex::decode` on the bytes of a string. It yields the bytes that the digits
/// stand for, `OddLength` for an odd number of bytes whatever they are, and otherwise
/// the first byte that is no digit, with its place. `InvalidStringLength` is for fixed
/// buffers and never comes from it.
#[verifier::external_body]
fn hex_decode(text: &[u8]) -> (r: Result<Vec<u8>, HexError>)
    ensures
        match r {
            Ok(bytes) => is_hex(text@) && bytes@ == hex_value(text@),
            Err(HexError::OddLength) => text@.len() % 2 != 0,
            Err(HexError::InvalidHexCharacter { c, index }) => {
                &&& text@.len() % 2 == 0
                &&& first_non_hex(text@, index as int)
                &&& c == text@[index as int] as char
            },
            Err(HexError::InvalidStringLength) => false,
        },
{
    match hex::decode(text) {
        Ok(bytes) => Ok(bytes),
        Err(hex::FromHexError::InvalidHexCharacter { c, index }) => {
            Err(HexError::InvalidHexCharacter { c, index })
        },
        Err(hex::FromHexError::OddLength) => Err(HexError::OddLength),
        Err(hex::FromHexError::InvalidStringLength) => Err(HexError::InvalidStringLength),
    }
}

/// A string has at most one first position without a hex digit.
proof fn lemma_first_non_hex_unique(text: Seq<u8>, i: int, j: int)
    requires
        first_non_hex(text, i),
        first_non_hex(text, j),
    ensures
        i == j,
{
    if i < j {
        assert(hex_digit(text[i]) is Some);
    } else if j < i {
        assert(hex_digit(text[j]) is Some);
    }
}

/// The character of a hex digit.
pub open spec fn hex_char(digit: u8, upper: bool) -> char {
    if digit < 10 {
        (48 + digit) as char
    } else if upper {
        (55 + digit) as char
    } else {
        (87 + digit) as char
    }
}

/// The hex form of bytes: `0x` or `0X`, and two digits for each byte.
pub open spec fn hex_text(bytes: Seq<u8>, upper_prefix: bool, upper_digits: bool) -> Seq<char> {
    seq![
        '0',
        if upper_prefix {
            'X'
        } else {
            'x'
        },
    ] + Seq::new(
        2 * bytes.len(),
        |i: int|
            hex_char(
                if i % 2 == 0 {
                    bytes[i / 2] / 16
                } else {
                    bytes[i / 2] % 16
                },
                upper_digits,
            ),
    )
}

/// The digits of a hex form decode to the bytes that it was made from.
pub(crate) proof fn lemma_hex_text_decodes(
    bytes: Seq<u8>,
    upper_prefix: bool,
    upper_digits: bool,
)
    ensures
        has_hex_prefix(hex_text(bytes, upper_prefix, upper_digits)),
        hex_decoded(encode_utf8(hex_text(bytes, upper_prefix, upper_digits).skip(2))) == Ok::<
            Seq<u8>,
            HexError,
        >(bytes),
{
    let digits = hex_text(bytes, upper_prefix, upper_digits).skip(2);
    let text = encode_utf8(digits);
    assert(digits.len() == 2 * bytes.len());
    assert(is_ascii_chars(digits));
    is_ascii_chars_encode_utf8(digits);
    assert forall|j: int| 0 <= j < text.len() implies hex_digit(#[trigger] text[j]) == Some(
        if j % 2 == 0 {
            bytes[j / 2] / 16
        } else {
            bytes[j / 2] % 16
        },
    ) by {
        assert(digits[j] as u8 == text[j]);
    }
    assert(is_hex(text));
    assert(hex_value(text) =~= bytes) by {
        assert forall|i: int| 0 <= i < bytes.len() implies #[trigger] hex_value(text)[i]
            == bytes[i] by {
            assert(hex_digit(text[2 * i]) == Some(bytes[i] / 16));
            assert(hex_digit(text[2 * i + 1]) == Some(bytes[i] % 16));
        }
    }
}

// ---- Bech32 ----------------------------------------------------------------

/// The error of `bech32::decode`, carried along unopened.
#[verifier::external_type_specification]
#[verifier::external_body]
pub struct ExDecodeError(bech32::DecodeError);

/// What `bech32::decode` makes of a text: the human-readable part as it is written
/// there and the data with the checksum taken off, or its error.
pub uninterp spec fn bech32_decoded(text: Seq<char>) -> Result<
    (Seq<char>, Seq<u8>),
    bech32::DecodeError,
>;

/// The text that `bech32::encode` with the `Bech32m` checksum writes for a
/// human-readable part and data.
pub uninterp spec fn bech32m_text(hrp: Seq<char>, data: Seq<u8>) -> Option<Seq<char>>;

/// A result of decoding Bech32, with the parts as sequences.
pub open spec fn bech32_outcome(r: Result<(String, Vec<u8>), bech32::DecodeError>) -> Result<
    (Seq<char>, Seq<u8>),
    bech32::DecodeError,
> {
    match r {
        Ok((hrp, data)) => Ok((hrp@, data@)),
        Err(e) => Err(e),
    }
}

/// A human-readable part that Bech32 takes and leaves as it is: 1 to 83 printable ASCII
/// characters, none of them an upper case letter.
pub open spec fn is_lower_hrp(hrp: Seq<char>) -> bool {
    &&& 1 <= hrp.len() <= 83
    &&& forall|i: int|
        0 <= i < hrp.len() ==> '!' <= #[trigger] hrp[i] <= '~' && !('A' <= hrp[i] <= 'Z')
}

/// The number of characters of a Bech32 text: the human-readable part, the separator,
/// the data at five bits to a character, rounded up, and six characters of checksum.
pub open spec fn bech32_len(hrp_len: nat, data_len: nat) -> nat {
    (hrp_len + 1 + (8 * data_len + 4) / 5 + 6) as nat
}

/// The characters that stand for five bits each: digits without `1` and lower case
/// letters without `b`, `i` and `o`.
pub open spec fn is_bech32_char(c: char) -> bool {
    ||| '0' <= c <= '9' && c != '1'
    ||| 'a' <= c <= 'z' && c != 'b' && c != 'i' && c != 'o'
}

/// `text` starts with `hrp` and the separator `1`.
pub open spec fn starts_with_hrp(text: Seq<char>, hrp: Seq<char>) -> bool {
    &&& text.len() > hrp.len()
    &&& text.take(hrp.len() as int) == hrp
    &&& text[hrp.len() as int] == '1'
}

/// `text` is `hrp`, the separator `1`, and one or more data characters.
pub open spec fn is_hrp_string(text: Seq<char>, hrp: Seq<char>) -> bool {
    &&& starts_with_hrp(text, hrp)
    &&& text.len() > hrp.len() + 1
    &&& forall|i: int| hrp.len() < i < text.len() ==> is_bech32_char(#[trigger] text[i])
}

/// Calls `bech32::Hrp::parse` and then `bech32::encode` with the `Bech32m` checksum. For
/// a lower case human-readable part the text is there unless it would have more than
/// 1023 characters. It then starts with the human-readable part and the separator, goes
/// on in data characters to its full length, and `bech32::decode` gives the two
/// arguments back.
#[verifier::external_body]
fn bech32m_encode(hrp: &str, data: &[u8]) -> (r: Option<String>)
    requires
        is_lower_hrp(hrp@),
        data@.len() <= 0x1000_0000,
    ensures
        match r {
            Some(text) => bech32m_text(hrp@, data@) == Some(text@),
            None => bech32m_text(hrp@, data@) is None,
        },
        r is Some <==> bech32_len(hrp@.len(), data@.len()) <= 1023,
        r matches Some(text) ==> {
            &&& text@.len() == bech32_len(hrp@.len(), data@.len())
            &&& is_hrp_string(text@, hrp@)
            &&& bech32_decoded(text@) == Ok::<(Seq<char>, Seq<u8>), bech32::DecodeError>(
                (hrp@, data@),
            )
        },
{
    let hrp = bech32::Hrp::parse(hrp).ok()?;
    bech32::encode::<bech32::Bech32m>(hrp, data).ok()
}

/// Calls `bech32::decode`, which goes by the text alone. The human-readable part that comes back is what stands in the
/// text before a separator `1`, in the case in which it is written.
#[verifier::external_body]
fn bech32_decode(text: &str) -> (r: Result<(String, Vec<u8>), bech32::DecodeError>)
    ensures
        bech32_outcome(r) == bech32_decoded(text@),
        r matches Ok((hrp, data)) ==> starts_with_hrp(text@, hrp@),
{
    let (hrp, data) = bech32::decode(text)?;
    Ok((hrp.as_str().to_owned(), data))
}

// ---- Bytes to text ---------------------------------------------------------

/// `text` is what is printed for `bytes` under the human-readable part `hrp`.
pub open spec fn prints_as(bytes: Seq<u8>, hrp: Seq<char>, text: Seq<char>) -> bool {
    &&& bech32m_text(hrp, bytes) == Some(text)
    &&& text.len() == bech32_len(hrp.len(), bytes.len())
    &&& is_hrp_string(text, hrp)
    &&& bech32_decoded(text) == Ok::<(Seq<char>, Seq<u8>), bech32::DecodeError>((hrp, bytes))
}

/// Prints bytes as Bech32m under a human-readable part.
pub fn encode_text(bytes: &[u8], hrp: &'static str) -> (text: String)
    requires
        is_lower_hrp(hrp@),
        bech32_len(hrp@.len(), bytes@.len()) <= 1023,
    ensures
        prints_as(bytes@, hrp@, text@),
        bech32m_text(hrp@, bytes@) == Some(text@),
        bech32_decoded(text@) == Ok::<(Seq<char>, Seq<u8>), bech32::DecodeError>((hrp@, bytes@)),
{
    bech32m_encode(hrp, bytes).unwrap()
}

/// The sink of a value that is being printed, handed on unopened.
#[verifier::external_type_specification]
#[verifier::external_body]
pub struct ExFormatter<'a>(core::fmt::Formatter<'a>);

/// The error of a sink, which says nothing more.
#[verifier::external_type_specification]
#[verifier::external_body]
pub struct ExFmtError(core::fmt::Error);

/// `core::fmt::Formatter::write_str`. What becomes of the text is up to the sink, so nothing
/// is claimed of it or of the result.
pub assume_specification<'a>[ core::fmt::Formatter::<'a>::write_str ](
    f: &mut core::fmt::Formatter<'a>,
    data: &str,
) -> (r: core::fmt::Result);

// ---- Text to bytes ---------------------------------------------------------

/// Why a text is not the text of a hash.
#[derive(Debug, PartialEq, Eq)]
pub enum ParseHashError {
    /// The text starts like hex and the rest is not hex.
    Hex(HexError),
    /// The text is not Bech32.
    Bech32(bech32::DecodeError),
    /// The text is Bech32 with the human-readable part of something else.
    WrongHrp { expected: &'static str, actual: String },
    /// The text decodes, to too many or too few bytes for the named type.
    WrongLength { hash_name: &'static str },
}

impl ParseHashError {
    /// What to tell the sender of the text. A decoder's own error prints itself, so there
    /// is nothing here for those.
    pub fn message(&self) -> (r: Option<String>)
        ensures
            match (self@, r) {
                (ParseFailure::WrongHrp { expected, actual }, Some(text)) => text@
                    == "expected HRP '"@ + expected + "', got '"@ + actual + "'"@,
                (ParseFailure::WrongLength { hash_name }, Some(text)) => text@
                    == "decoded bytes have wrong length for "@ + hash_name,
                (ParseFailure::Hex(_), None) => true,
                (ParseFailure::Bech32(_), None) => true,
                _ => false,
            },
    {
        match self {
            ParseHashError::WrongHrp { expected, actual } => {
                let mut text = String::new();
                text.append("expected HRP '");
                text.append(expected);
                text.append("', got '");
                text.append(actual.as_str());
                text.append("'");
                assert(text@ =~= "expected HRP '"@ + expected@ + "', got '"@ + actual@ + "'"@);
                Some(text)
            },
            ParseHashError::WrongLength { hash_name } => {
                let mut text = String::new();
                text.append("decoded bytes have wrong length for ");
                text.append(hash_name);
                assert(text@ =~= "decoded bytes have wrong length for "@ + hash_name@);
                Some(text)
            },
            ParseHashError::Hex(_) => None,
            ParseHashError::Bech32(_) => None,
        }
    }
}

/// A [`ParseHashError`] with the contents of its strings.
pub enum ParseFailure {
    Hex(HexError),
    Bech32(bech32::DecodeError),
    WrongHrp { expected: Seq<char>, actual: Seq<char> },
    WrongLength { hash_name: Seq<char> },
}

impl View for ParseHashError {
    type V = ParseFailure;

    open spec fn view(&self) -> ParseFailure {
        match self {
            ParseHashError::Hex(e) => ParseFailure::Hex(*e),
            ParseHashError::Bech32(e) => ParseFailure::Bech32(*e),
            ParseHashError::WrongHrp { expected, actual } => ParseFailure::WrongHrp {
                expected: expected@,
                actual: actual@,
            },
            ParseHashError::WrongLength { hash_name } => ParseFailure::WrongLength {
                hash_name: hash_name@,
            },
        }
    }
}

/// A result of reading a hash, with the bytes as a sequence.
pub open spec fn outcome<const N: usize>(r: Result<[u8; N], ParseHashError>) -> Result<
    Seq<u8>,
    ParseFailure,
> {
    match r {
        Ok(array) => Ok(array@),
        Err(e) => Err(e@),
    }
}

/// The text starts with `0x` or `0X`.
pub open spec fn has_hex_prefix(text: Seq<char>) -> bool {
    text.len() >= 2 && text[0] == '0' && (text[1] == 'x' || text[1] == 'X')
}

/// `bytes`, if there are `n` of them.
pub open spec fn sized(bytes: Seq<u8>, n: nat, hash_name: Seq<char>) -> Result<
    Seq<u8>,
    ParseFailure,
> {
    if bytes.len() == n {
        Ok(bytes)
    } else {
        Err(ParseFailure::WrongLength { hash_name })
    }
}

/// What decoded hex gives for a type of `n` bytes.
pub open spec fn from_hex(
    decoded: Result<Seq<u8>, HexError>,
    n: nat,
    hash_name: Seq<char>,
) -> Result<Seq<u8>, ParseFailure> {
    match decoded {
        Ok(bytes) => sized(bytes, n, hash_name),
        Err(e) => Err(ParseFailure::Hex(e)),
    }
}

/// What decoded Bech32 gives for a type of `n` bytes with the human-readable part `hrp`.
pub open spec fn from_bech32(
    decoded: Result<(Seq<char>, Seq<u8>), bech32::DecodeError>,
    hrp: Seq<char>,
    n: nat,
    hash_name: Seq<char>,
) -> Result<Seq<u8>, ParseFailure> {
    match decoded {
        Err(e) => Err(ParseFailure::Bech32(e)),
        Ok((actual, data)) => if actual == hrp {
            sized(data, n, hash_name)
        } else {
            Err(ParseFailure::WrongHrp { expected: hrp, actual })
        },
    }
}

/// What a text gives for a type of `n` bytes with the human-readable part `hrp`: hex
/// behind a `0x`, and Bech32 otherwise.
pub open spec fn parsed(text: Seq<char>, hrp: Seq<char>, n: nat, hash_name: Seq<char>) -> Result<
    Seq<u8>,
    ParseFailure,
> {
    if has_hex_prefix(text) {
        from_hex(hex_decoded(encode_utf8(text.skip(2))), n, hash_name)
    } else {
        from_bech32(bech32_decoded(text), hrp, n, hash_name)
    }
}

/// Copies bytes into an array, if they are as many as it holds.
pub fn to_array<const N: usize>(bytes: &[u8]) -> (r: Option<[u8; N]>)
    ensures
        r is Some <==> bytes@.len() == N,
        r matches Some(array) ==> array@ == bytes@,
{
    if bytes.len() != N {
        return None;
    }
    let mut array: [u8; N] = [0u8; N];
    let mut i: usize = 0;
    while i < N
        invariant
            i <= N,
            bytes@.len() == N,
            forall|j: int| 0 <= j < i ==> array@[j] == bytes@[j],
        decreases N - i,
    {
        array[i] = bytes[i];
        i += 1;
    }
    assert(array@ =~= bytes@);
    Some(array)
}

/// The result for a text whose hex digits decoded to `decoded`.
pub fn accept_hex<const N: usize>(
    decoded: Result<Vec<u8>, HexError>,
    hash_name: &'static str,
) -> (r: Result<[u8; N], ParseHashError>)
    ensures
        outcome(r) == from_hex(hex_outcome(decoded), N as nat, hash_name@),
        match (decoded, r) {
            (Ok(bytes), Ok(array)) => bytes@.len() == N && array@ == bytes@,
            (Ok(bytes), Err(ParseHashError::WrongLength { hash_name: name })) => bytes@.len() != N
                && name@ == hash_name@,
            (Err(cause), Err(ParseHashError::Hex(carried))) => carried == cause,
            _ => false,
        },
{
    match decoded {
        Ok(bytes) => match to_array(bytes.as_slice()) {
            Some(array) => Ok(array),
            None => Err(ParseHashError::WrongLength { hash_name }),
        },
        Err(e) => Err(ParseHashError::Hex(e)),
    }
}

/// The result for a text that decoded as Bech32 to `decoded`. The human-readable part
/// has to be the expected one in the same case.
pub fn accept_bech32<const N: usize>(
    decoded: Result<(String, Vec<u8>), bech32::DecodeError>,
    hrp: &'static str,
    hash_name: &'static str,
) -> (r: Result<[u8; N], ParseHashError>)
    ensures
        outcome(r) == from_bech32(bech32_outcome(decoded), hrp@, N as nat, hash_name@),
        match (decoded, r) {
            (Ok((actual, data)), Ok(array)) => {
                &&& actual@ == hrp@
                &&& data@.len() == N
                &&& array@ == data@
            },
            (Ok((actual, data)), Err(ParseHashError::WrongLength { hash_name: name })) => {
                &&& actual@ == hrp@
                &&& data@.len() != N
                &&& name@ == hash_name@
            },
            (Ok((actual, data)), Err(ParseHashError::WrongHrp { expected, actual: carried })) => {
                &&& actual@ != hrp@
                &&& expected@ == hrp@
                &&& carried@ == actual@
            },
            (Err(cause), Err(ParseHashError::Bech32(carried))) => carried == cause,
            _ => false,
        },
{
    match decoded {
        Ok((actual, data)) => {
            if actual != hrp.to_owned() {
                return Err(ParseHashError::WrongHrp { expected: hrp, actual });
            }
            match to_array(data.as_slice()) {
                Some(array) => Ok(array),
                None => Err(ParseHashError::WrongLength { hash_name }),
            }
        },
        Err(e) => Err(ParseHashError::Bech32(e)),
    }
}

/// The digits of base sixteen, in either case, and no other byte.
pub proof fn hex_digits_are_those_of_base_sixteen(b: u8)
    ensures
        '0' as u8 <= b <= '9' as u8 ==> hex_digit(b) == Some((b - '0' as u8) as u8),
        'a' as u8 <= b <= 'f' as u8 ==> hex_digit(b) == Some((10 + b - 'a' as u8) as u8),
        'A' as u8 <= b <= 'F' as u8 ==> hex_digit(b) == Some((10 + b - 'A' as u8) as u8),
        hex_digit(b) is Some ==> {
            ||| '0' as u8 <= b <= '9' as u8
            ||| 'a' as u8 <= b <= 'f' as u8
            ||| 'A' as u8 <= b <= 'F' as u8
        },
{
}

/// The first position without a hex digit is there, if any position is without one.
proof fn lemma_first_non_hex_exists(text: Seq<u8>, n: int)
    requires
        0 <= n <= text.len(),
        !(forall|j: int| 0 <= j < n ==> hex_digit(#[trigger] text[j]) is Some),
    ensures
        exists|i: int| first_non_hex(text, i),
    decreases n,
{
    if n > 0 {
        if forall|j: int| 0 <= j < n - 1 ==> hex_digit(#[trigger] text[j]) is Some {
            assert(first_non_hex(text, n - 1));
        } else {
            lemma_first_non_hex_exists(text, n - 1);
        }
    }
}

/// Behind `0x` or `0X` every byte of the rest counts. The text is read if and only if the rest
/// is hex digits alone, two for each byte, the high one first. Otherwise the refusal says which
/// of three things is wrong: the number of digits is odd, the named byte at the named place is
/// the first that is no digit, or the digits are too many or too few for the type.
pub proof fn hex_is_read_two_digits_to_a_byte(
    text: Seq<char>,
    hrp: Seq<char>,
    n: nat,
    hash_name: Seq<char>,
)
    requires
        text.len() >= 2,
        text[0] == '0',
        text[1] == 'x' || text[1] == 'X',
        encode_utf8(text.skip(2)).len() <= usize::MAX,
    ensures
        ({
            let rest = encode_utf8(text.skip(2));
            match parsed(text, hrp, n, hash_name) {
                Ok(bytes) => {
                    &&& bytes.len() == n
                    &&& rest.len() == 2 * n
                    &&& forall|i: int|
                        0 <= i < n ==> {
                            &&& hex_digit(rest[2 * i]) is Some
                            &&& hex_digit(rest[2 * i + 1]) is Some
                            &&& #[trigger] bytes[i] == 16 * hex_digit(rest[2 * i])->0 + hex_digit(
                                rest[2 * i + 1],
                            )->0
                        }
                },
                Err(ParseFailure::Hex(HexError::OddLength)) => rest.len() % 2 == 1,
                Err(ParseFailure::Hex(HexError::InvalidHexCharacter { c, index })) => {
                    &&& rest.len() % 2 == 0
                    &&& index < rest.len()
                    &&& hex_digit(rest[index as int]) is None
                    &&& c == rest[index as int] as char
                    &&& forall|j: int| 0 <= j < index ==> hex_digit(#[trigger] rest[j]) is Some
                },
                Err(ParseFailure::WrongLength { hash_name: name }) => {
                    &&& rest.len() % 2 == 0
                    &&& rest.len() != 2 * n
                    &&& forall|j: int| 0 <= j < rest.len() ==> hex_digit(#[trigger] rest[j]) is Some
                    &&& name == hash_name
                },
                _ => false,
            }
        }),
{
    let rest = encode_utf8(text.skip(2));
    if rest.len() % 2 == 0 && !is_hex(rest) {
        lemma_first_non_hex_exists(rest, rest.len() as int);
    }
    if is_hex(rest) {
        assert forall|i: int| 0 <= i < rest.len() / 2 implies #[trigger] hex_value(rest)[i] == 16
            * hex_digit(rest[2 * i])->0 + hex_digit(rest[2 * i + 1])->0 by {
            assert(hex_digit(rest[2 * i]) is Some);
            assert(hex_digit(rest[2 * i + 1]) is Some);
        }
    }
}

/// Any other text is read as what it decodes to as Bech32: the very bytes if the human-readable
/// part is the expected one, character for character, and their number is right. Otherwise
/// the refusal carries the decoder's own error, or both human-readable parts, or the name of
/// the type.
pub proof fn other_texts_are_read_as_bech32(
    text: Seq<char>,
    hrp: Seq<char>,
    n: nat,
    hash_name: Seq<char>,
)
    requires
        !(text.len() >= 2 && text[0] == '0' && (text[1] == 'x' || text[1] == 'X')),
    ensures
        match (bech32_decoded(text), parsed(text, hrp, n, hash_name)) {
            (Ok((actual, data)), Ok(bytes)) => actual == hrp && data.len() == n && bytes == data,
            (Ok((actual, data)), Err(ParseFailure::WrongLength { hash_name: name })) => actual
                == hrp && data.len() != n && name == hash_name,
            (Ok((actual, data)), Err(ParseFailure::WrongHrp { expected, actual: carried })) => {
                actual != hrp && expected == hrp && carried == actual
            },
            (Err(cause), Err(ParseFailure::Bech32(carried))) => carried == cause,
            _ => false,
        },
{
}

/// An error shows everything that it was made of, and a result shows its bytes or its error.
pub proof fn parse_errors_show_what_they_hold<const N: usize>(
    error: ParseHashError,
    array: [u8; N],
)
    ensures
        match error {
            ParseHashError::Hex(e) => error@ == ParseFailure::Hex(e),
            ParseHashError::Bech32(e) => error@ == ParseFailure::Bech32(e),
            ParseHashError::WrongHrp { expected, actual } => error@ == (ParseFailure::WrongHrp {
                expected: expected@,
                actual: actual@,
            }),
            ParseHashError::WrongLength { hash_name } => error@ == (ParseFailure::WrongLength {
                hash_name: hash_name@,
            }),
        },
        outcome(Err::<[u8; N], ParseHashError>(error)) == Err::<Seq<u8>, ParseFailure>(error@),
        outcome(Ok::<[u8; N], ParseHashError>(array)) == Ok::<Seq<u8>, ParseFailure>(array@),
{
}

/// Reads the text of a hash: hex digits behind `0x` or `0X`, which older clients still
/// send, or else Bech32 with the given human-readable part.
pub fn decode_text<const N: usize>(
    text: &str,
    hrp: &'static str,
    hash_name: &'static str,
) -> (r: Result<[u8; N], ParseHashError>)
    ensures
        outcome(r) == parsed(text@, hrp@, N as nat, hash_name@),
        !(text@.len() >= 2 && text@[0] == '0' && (text@[1] == 'x' || text@[1] == 'X')) ==> match (
            bech32_decoded(text@),
            r,
        ) {
            (Ok((actual, data)), Ok(array)) => actual == hrp@ && data.len() == N && array@ == data,
            (Ok((actual, data)), Err(ParseHashError::WrongLength { hash_name: name })) => actual
                == hrp@ && data.len() != N && name@ == hash_name@,
            (Ok((actual, data)), Err(ParseHashError::WrongHrp { expected, actual: carried })) => {
                actual != hrp@ && expected@ == hrp@ && carried@ == actual
            },
            (Err(cause), Err(ParseHashError::Bech32(carried))) => carried == cause,
            _ => false,
        },
        r is Ok ==> has_hex_prefix(text@) || starts_with_hrp(text@, hrp@),
{
    let len: usize = text.unicode_len();
    if len >= 2 && text.get_char(0) == '0' && (text.get_char(1) == 'x' || text.get_char(1) == 'X') {
        let digits = text.substring_char(2, len);
        let decoded = hex_decode(digits.as_bytes());
        proof {
            let bytes = encode_utf8(text@.skip(2));
            assert(digits@ =~= text@.skip(2));
            if let Err(HexError::InvalidHexCharacter { c, index }) = decoded {
                assert(!is_hex(bytes));
                lemma_first_non_hex_unique(
                    bytes,
                    index as int,
                    choose|i: int| first_non_hex(bytes, i),
                );
            }
        }
        accept_hex(decoded, hash_name)
    } else {
        accept_bech32(bech32_decode(text), hrp, hash_name)
    }
}

} // verus!
