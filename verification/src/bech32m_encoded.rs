//! Bech32m-encoded byte wrappers for the identifiers of the chain: transaction hash, block
//! hash, state root, batch hash, chain hash and blob hash. The Borsh layout of each is that
//! of the byte array inside; only the text differs from a raw byte array.
//!
//! There is one concrete type per human-readable part, so that a hash of one kind cannot
//! be passed, or read, as a hash of another.

use core::str::FromStr;

use vstd::prelude::*;
use vstd::slice::slice_to_vec;

use crate::borsh_codec::{borsh_read, borsh_write};
use crate::common::HexString;
use crate::text_codec;
use crate::text_codec::{decode_text, encode_text, to_array, ParseFailure, ParseHashError};

verus! {

// ---- Human-readable parts --------------------------------------------------

/// HRP for transaction hashes (`ltx1...`).
pub fn ltx_hrp() -> (hrp: &'static str)
    ensures
        hrp@ == HashKind::Tx.hrp(),
        hrp@ == "ltx"@,
{
    "ltx"
}

/// HRP for block hashes (`lblk1...`).
pub fn lblk_hrp() -> (hrp: &'static str)
    ensures
        hrp@ == HashKind::Block.hrp(),
        hrp@ == "lblk"@,
{
    "lblk"
}

/// HRP for state roots (`lsr1...`).
pub fn lsr_hrp() -> (hrp: &'static str)
    ensures
        hrp@ == HashKind::StateRoot.hrp(),
        hrp@ == "lsr"@,
{
    "lsr"
}

/// HRP for batch hashes (`lba1...`).
pub fn lba_hrp() -> (hrp: &'static str)
    ensures
        hrp@ == HashKind::Batch.hrp(),
        hrp@ == "lba"@,
{
    "lba"
}

/// HRP for chain hashes (`lsch1...`).
pub fn lsch_hrp() -> (hrp: &'static str)
    ensures
        hrp@ == HashKind::Chain.hrp(),
        hrp@ == "lsch"@,
{
    "lsch"
}

/// HRP for blob hashes (`lbz1...`).
pub fn lbz_hrp() -> (hrp: &'static str)
    ensures
        hrp@ == HashKind::Blob.hrp(),
        hrp@ == "lbz"@,
{
    "lbz"
}

// ---- Kinds of hash ---------------------------------------------------------

/// What a hash identifies.
#[derive(Debug, Clone, Copy, PartialEq, Eq)]
pub enum HashKind {
    Tx,
    Block,
    StateRoot,
    Batch,
    Chain,
    Blob,
}

impl HashKind {
    /// The human-readable part that stands in front of every text of this kind.
    pub open spec fn hrp(self) -> Seq<char> {
        match self {
            HashKind::Tx => "ltx"@,
            HashKind::Block => "lblk"@,
            HashKind::StateRoot => "lsr"@,
            HashKind::Batch => "lba"@,
            HashKind::Chain => "lsch"@,
            HashKind::Blob => "lbz"@,
        }
    }

    /// The number of bytes of a hash of this kind.
    pub open spec fn size(self) -> nat {
        match self {
            HashKind::StateRoot => 64,
            _ => 32,
        }
    }

    /// The name of the type that holds a hash of this kind.
    pub open spec fn hash_name(self) -> Seq<char> {
        match self {
            HashKind::Tx => "LtxHash"@,
            HashKind::Block => "LblkHash"@,
            HashKind::StateRoot => "LsrHash"@,
            HashKind::Batch => "LbaHash"@,
            HashKind::Chain => "LschHash"@,
            HashKind::Blob => "LbzHash"@,
        }
    }

    /// `text` is the Bech32m text of `bytes` as a hash of this kind.
    pub open spec fn prints_as(self, bytes: Seq<u8>, text: Seq<char>) -> bool {
        text_codec::prints_as(bytes, self.hrp(), text)
    }

    /// What a text gives when it is read as a hash of this kind.
    pub open spec fn parsed(self, text: Seq<char>) -> Result<Seq<u8>, ParseFailure> {
        text_codec::parsed(text, self.hrp(), self.size(), self.hash_name())
    }

    /// The Borsh form of a hash of this kind at the front of `input`, and what follows it.
    /// There is none if the input is too short.
    pub open spec fn read_borsh(self, input: Seq<u8>) -> Option<(Seq<u8>, Seq<u8>)> {
        let n = self.size() as int;
        if input.len() >= n {
            Some((input.take(n), input.skip(n)))
        } else {
            None
        }
    }

    /// The pattern that texts of this kind follow.
    pub open spec fn schema_pattern(self) -> Seq<char> {
        "^"@ + self.hrp() + "1[023456789acdefghjklmnpqrstuvwxyz]+$"@
    }

    /// What this kind of text is, in words.
    pub open spec fn schema_description(self) -> Seq<char> {
        "Bech32m-encoded "@ + (if self.size() == 64 {
            "64"@
        } else {
            "32"@
        }) + "-byte value with HRP '"@ + self.hrp() + "'."@
    }
}

/// The human-readable parts as character sequences.
proof fn lemma_hrp_chars()
    ensures
        HashKind::Tx.hrp() == seq!['l', 't', 'x'],
        HashKind::Block.hrp() == seq!['l', 'b', 'l', 'k'],
        HashKind::StateRoot.hrp() == seq!['l', 's', 'r'],
        HashKind::Batch.hrp() == seq!['l', 'b', 'a'],
        HashKind::Chain.hrp() == seq!['l', 's', 'c', 'h'],
        HashKind::Blob.hrp() == seq!['l', 'b', 'z'],
{
    reveal_strlit("ltx");
    reveal_strlit("lblk");
    reveal_strlit("lsr");
    reveal_strlit("lba");
    reveal_strlit("lsch");
    reveal_strlit("lbz");
    assert(HashKind::Tx.hrp() =~= seq!['l', 't', 'x']);
    assert(HashKind::Block.hrp() =~= seq!['l', 'b', 'l', 'k']);
    assert(HashKind::StateRoot.hrp() =~= seq!['l', 's', 'r']);
    assert(HashKind::Batch.hrp() =~= seq!['l', 'b', 'a']);
    assert(HashKind::Chain.hrp() =~= seq!['l', 's', 'c', 'h']);
    assert(HashKind::Blob.hrp() =~= seq!['l', 'b', 'z']);
}

/// Every kind can be printed: its human-readable part is one that Bech32 takes as it is,
/// and its texts stay within the length that Bech32m allows. No text of it starts like
/// hex.
proof fn lemma_printable(kind: HashKind)
    ensures
        text_codec::is_lower_hrp(kind.hrp()),
        text_codec::bech32_len(kind.hrp().len(), kind.size()) <= 1023,
        kind.hrp()[0] == 'l',
{
    lemma_hrp_chars();
}

// ---- Serialized form -------------------------------------------------------

/// A hash as a serializer gets it: a text in formats that people read, and the sequence
/// of its bytes in the others.
#[derive(Debug, PartialEq, Eq)]
pub enum SerializedHash {
    Text(String),
    Bytes(Vec<u8>),
}

/// Why a serialized form is not a hash.
#[derive(Debug, PartialEq, Eq)]
pub enum DeserializeHashError {
    /// The text cannot be read.
    Text(ParseHashError),
    /// There are too many or too few bytes.
    InvalidByteLength,
}

impl SerializedHash {
    /// This is a form of `bytes` as a hash of the given kind, of the sort that fits a
    /// human-readable format or the other sort.
    pub open spec fn is_form_of(self, kind: HashKind, bytes: Seq<u8>, human_readable: bool) -> bool {
        match self {
            SerializedHash::Text(text) => human_readable && kind.prints_as(bytes, text@),
            SerializedHash::Bytes(raw) => !human_readable && raw@ == bytes,
        }
    }
}

/// A [`DeserializeHashError`] with the contents of its strings.
pub enum DeserializeFailure {
    Text(ParseFailure),
    InvalidByteLength,
}

impl View for DeserializeHashError {
    type V = DeserializeFailure;

    open spec fn view(&self) -> DeserializeFailure {
        match self {
            DeserializeHashError::Text(e) => DeserializeFailure::Text(e@),
            DeserializeHashError::InvalidByteLength => DeserializeFailure::InvalidByteLength,
        }
    }
}

impl HashKind {
    /// What a serialized form gives when it is taken for a hash of this kind.
    pub open spec fn deserialized(self, form: SerializedHash) -> Result<
        Seq<u8>,
        DeserializeFailure,
    > {
        match form {
            SerializedHash::Text(text) => match self.parsed(text@) {
                Ok(bytes) => Ok(bytes),
                Err(failure) => Err(DeserializeFailure::Text(failure)),
            },
            SerializedHash::Bytes(raw) => if raw@.len() == self.size() {
                Ok(raw@)
            } else {
                Err(DeserializeFailure::InvalidByteLength)
            },
        }
    }
}

/// Takes a serialized form for a hash of `N` bytes.
fn deserialize_hash<const N: usize>(
    form: SerializedHash,
    hrp: &'static str,
    hash_name: &'static str,
    Ghost(kind): Ghost<HashKind>,
) -> (r: Result<[u8; N], DeserializeHashError>)
    requires
        hrp@ == kind.hrp(),
        N == kind.size(),
        hash_name@ == kind.hash_name(),
    ensures
        match r {
            Ok(array) => kind.deserialized(form) == Ok::<Seq<u8>, DeserializeFailure>(array@),
            Err(e) => kind.deserialized(form) == Err::<Seq<u8>, DeserializeFailure>(e@),
        },
{
    match form {
        SerializedHash::Text(text) => match decode_text(text.as_str(), hrp, hash_name) {
            Ok(array) => Ok(array),
            Err(e) => Err(DeserializeHashError::Text(e)),
        },
        SerializedHash::Bytes(raw) => match to_array(raw.as_slice()) {
            Some(array) => Ok(array),
            None => Err(DeserializeHashError::InvalidByteLength),
        },
    }
}

/// The pattern for texts with the given human-readable part.
fn schema_pattern(hrp: &'static str) -> (pattern: String)
    ensures
        pattern@ == "^"@ + hrp@ + "1[023456789acdefghjklmnpqrstuvwxyz]+$"@,
{
    let mut pattern = String::new();
    pattern.append("^");
    pattern.append(hrp);
    pattern.append("1[023456789acdefghjklmnpqrstuvwxyz]+$");
    assert(pattern@ =~= "^"@ + hrp@ + "1[023456789acdefghjklmnpqrstuvwxyz]+$"@);
    pattern
}

/// The description of a text of `size` bytes with the given human-readable part.
fn schema_description(size: &'static str, hrp: &'static str) -> (description: String)
    ensures
        description@ == "Bech32m-encoded "@ + size@ + "-byte value with HRP '"@ + hrp@ + "'."@,
{
    let mut description = String::new();
    description.append("Bech32m-encoded ");
    description.append(size);
    description.append("-byte value with HRP '");
    description.append(hrp);
    description.append("'.");
    assert(description@ =~= "Bech32m-encoded "@ + size@ + "-byte value with HRP '"@ + hrp@
        + "'."@);
    description
}

// ---- Concrete types --------------------------------------------------------

/// Transaction hash. Bech32m-encoded with HRP `ltx` for human-facing display (`ltx1...`);
/// the Borsh layout is the raw 32-byte array.
#[derive(Copy, Clone, PartialEq, Eq, PartialOrd, Ord, Hash)]
pub struct LtxHash(pub [u8; 32]);

impl LtxHash {
    /// Wraps raw bytes.
    pub fn new(bytes: [u8; 32]) -> (hash: Self)
        ensures
            hash.0 == bytes,
    {
        LtxHash(bytes)
    }

    /// The Bech32m text, which reads back as this hash.
    pub fn to_string(&self) -> (text: String)
        ensures
            HashKind::Tx.prints_as(self.0@, text@),
            HashKind::Tx.parsed(text@) == Ok::<Seq<u8>, ParseFailure>(self.0@),
            text_codec::bech32m_text("ltx"@, self.0@) == Some(text@),
    {
        proof {
            lemma_printable(HashKind::Tx);
        }
        let text = encode_text(self.0.as_slice(), ltx_hrp());
        proof {
            printed_text_reads_back(HashKind::Tx, self.0@, text@);
        }
        text
    }

    /// The form that a serializer gets.
    pub fn serialized(&self, human_readable: bool) -> (form: SerializedHash)
        ensures
            form.is_form_of(HashKind::Tx, self.0@, human_readable),
            match form {
                SerializedHash::Text(text) => human_readable && text_codec::bech32m_text(
                    "ltx"@,
                    self.0@,
                ) == Some(text@),
                SerializedHash::Bytes(raw) => !human_readable && raw@ == self.0@,
            },
    {
        if human_readable {
            SerializedHash::Text(self.to_string())
        } else {
            SerializedHash::Bytes(slice_to_vec(self.0.as_slice()))
        }
    }

    /// Takes a form that came from a deserializer.
    pub fn deserialized(form: SerializedHash) -> (r: Result<Self, DeserializeHashError>)
        ensures
            match r {
                Ok(hash) => HashKind::Tx.deserialized(form) == Ok::<Seq<u8>, DeserializeFailure>(
                    hash.0@,
                ),
                Err(e) => HashKind::Tx.deserialized(form) == Err::<Seq<u8>, DeserializeFailure>(
                    e@,
                ),
            },
    {
        match deserialize_hash(form, ltx_hrp(), "LtxHash", Ghost(HashKind::Tx)) {
            Ok(bytes) => Ok(LtxHash(bytes)),
            Err(e) => Err(e),
        }
    }

    /// The Borsh form: the bytes themselves.
    pub fn to_borsh(&self) -> (form: Vec<u8>)
        ensures
            form@ == self.0@,
    {
        borsh_write(&self.0)
    }

    /// Reads the Borsh form from the front of `input` and gives back what follows it. There
    /// is none if the input is too short.
    pub fn from_borsh(input: &[u8]) -> (r: Option<(Self, &[u8])>)
        ensures
            match r {
                Some((hash, rest)) => HashKind::Tx.read_borsh(input@) == Some((hash.0@, rest@)),
                None => HashKind::Tx.read_borsh(input@) is None,
            },
            match r {
                Some((hash, rest)) => input@ == hash.0@ + rest@,
                None => input@.len() < 32,
            },
    {
        match borsh_read(input) {
            Some((bytes, rest)) => Some((LtxHash(bytes), rest)),
            None => None,
        }
    }

    /// The name under which schemas list the type.
    pub fn schema_name() -> (name: &'static str)
        ensures
            name@ == HashKind::Tx.hash_name(),
            name@ == "LtxHash"@,
    {
        "LtxHash"
    }

    /// The pattern that the text follows.
    pub fn schema_pattern() -> (pattern: String)
        ensures
            pattern@ == HashKind::Tx.schema_pattern(),
            pattern@ == "^"@ + "ltx"@ + "1[023456789acdefghjklmnpqrstuvwxyz]+$"@,
    {
        schema_pattern(ltx_hrp())
    }

    /// What the text is, in words.
    pub fn schema_description() -> (description: String)
        ensures
            description@ == HashKind::Tx.schema_description(),
            description@ == "Bech32m-encoded "@ + "32"@ + "-byte value with HRP '"@ + "ltx"@
                + "'."@,
    {
        schema_description("32", ltx_hrp())
    }
}

impl FromStr for LtxHash {
    type Err = ParseHashError;

    fn from_str(s: &str) -> (r: Result<Self, ParseHashError>)
        ensures
            match r {
                Ok(hash) => HashKind::Tx.parsed(s@) == Ok::<Seq<u8>, ParseFailure>(hash.0@),
                Err(e) => HashKind::Tx.parsed(s@) == Err::<Seq<u8>, ParseFailure>(e@),
            },
            r is Ok ==> text_codec::has_hex_prefix(s@) || text_codec::starts_with_hrp(
                s@,
                HashKind::Tx.hrp(),
            ),
    {
        match decode_text(s, ltx_hrp(), "LtxHash") {
            Ok(bytes) => Ok(LtxHash(bytes)),
            Err(e) => Err(e),
        }
    }
}

impl core::fmt::Display for LtxHash {
    /// Hands the Bech32m text to the formatter, in one call of `write_str`.
    fn fmt(&self, f: &mut core::fmt::Formatter<'_>) -> (r: core::fmt::Result)
        ensures
            exists|sink: &mut core::fmt::Formatter<'_>, text: &str|
                *sink == *old(f) && *final(sink) == *final(f) && HashKind::Tx.prints_as(
                    self.0@,
                    text@,
                ) && #[trigger] call_ensures(core::fmt::Formatter::write_str, (sink, text), r),
    {
        let text = self.to_string();
        let write_str = core::fmt::Formatter::write_str;
        write_str(f, text.as_str())
    }
}

impl core::fmt::Debug for LtxHash {
    /// Hands the Bech32m text to the formatter, in one call of `write_str`.
    fn fmt(&self, f: &mut core::fmt::Formatter<'_>) -> (r: core::fmt::Result)
        ensures
            exists|sink: &mut core::fmt::Formatter<'_>, text: &str|
                *sink == *old(f) && *final(sink) == *final(f) && HashKind::Tx.prints_as(
                    self.0@,
                    text@,
                ) && #[trigger] call_ensures(core::fmt::Formatter::write_str, (sink, text), r),
    {
        let text = self.to_string();
        let write_str = core::fmt::Formatter::write_str;
        write_str(f, text.as_str())
    }
}

impl AsRef<[u8]> for LtxHash {
    fn as_ref(&self) -> (bytes: &[u8])
        ensures
            bytes@ == self.0@,
    {
        self.0.as_slice()
    }
}

impl vstd::std_specs::convert::FromSpecImpl<[u8; 32]> for LtxHash {
    open spec fn obeys_from_spec() -> bool {
        true
    }

    open spec fn from_spec(bytes: [u8; 32]) -> Self {
        LtxHash(bytes)
    }
}

impl From<[u8; 32]> for LtxHash {
    fn from(bytes: [u8; 32]) -> (hash: Self) {
        LtxHash(bytes)
    }
}

impl vstd::std_specs::convert::FromSpecImpl<LtxHash> for [u8; 32] {
    open spec fn obeys_from_spec() -> bool {
        true
    }

    open spec fn from_spec(hash: LtxHash) -> Self {
        hash.0
    }
}

impl From<LtxHash> for [u8; 32] {
    fn from(hash: LtxHash) -> (bytes: Self) {
        hash.0
    }
}

/// Block hash. Bech32m-encoded with HRP `lblk` (`lblk1...`).
#[derive(Copy, Clone, PartialEq, Eq, PartialOrd, Ord, Hash)]
pub struct LblkHash(pub [u8; 32]);

impl LblkHash {
    /// Wraps raw bytes.
    pub fn new(bytes: [u8; 32]) -> (hash: Self)
        ensures
            hash.0 == bytes,
    {
        LblkHash(bytes)
    }

    /// The Bech32m text, which reads back as this hash.
    pub fn to_string(&self) -> (text: String)
        ensures
            HashKind::Block.prints_as(self.0@, text@),
            HashKind::Block.parsed(text@) == Ok::<Seq<u8>, ParseFailure>(self.0@),
            text_codec::bech32m_text("lblk"@, self.0@) == Some(text@),
    {
        proof {
            lemma_printable(HashKind::Block);
        }
        let text = encode_text(self.0.as_slice(), lblk_hrp());
        proof {
            printed_text_reads_back(HashKind::Block, self.0@, text@);
        }
        text
    }

    /// The form that a serializer gets.
    pub fn serialized(&self, human_readable: bool) -> (form: SerializedHash)
        ensures
            form.is_form_of(HashKind::Block, self.0@, human_readable),
            match form {
                SerializedHash::Text(text) => human_readable && text_codec::bech32m_text(
                    "lblk"@,
                    self.0@,
                ) == Some(text@),
                SerializedHash::Bytes(raw) => !human_readable && raw@ == self.0@,
            },
    {
        if human_readable {
            SerializedHash::Text(self.to_string())
        } else {
            SerializedHash::Bytes(slice_to_vec(self.0.as_slice()))
        }
    }

    /// Takes a form that came from a deserializer.
    pub fn deserialized(form: SerializedHash) -> (r: Result<Self, DeserializeHashError>)
        ensures
            match r {
                Ok(hash) => HashKind::Block.deserialized(form) == Ok::<Seq<u8>, DeserializeFailure>(
                    hash.0@,
                ),
                Err(e) => HashKind::Block.deserialized(form) == Err::<Seq<u8>, DeserializeFailure>(
                    e@,
                ),
            },
    {
        match deserialize_hash(form, lblk_hrp(), "LblkHash", Ghost(HashKind::Block)) {
            Ok(bytes) => Ok(LblkHash(bytes)),
            Err(e) => Err(e),
        }
    }

    /// The Borsh form: the bytes themselves.
    pub fn to_borsh(&self) -> (form: Vec<u8>)
        ensures
            form@ == self.0@,
    {
        borsh_write(&self.0)
    }

    /// Reads the Borsh form from the front of `input` and gives back what follows it. There
    /// is none if the input is too short.
    pub fn from_borsh(input: &[u8]) -> (r: Option<(Self, &[u8])>)
        ensures
            match r {
                Some((hash, rest)) => HashKind::Block.read_borsh(input@) == Some((hash.0@, rest@)),
                None => HashKind::Block.read_borsh(input@) is None,
            },
            match r {
                Some((hash, rest)) => input@ == hash.0@ + rest@,
                None => input@.len() < 32,
            },
    {
        match borsh_read(input) {
            Some((bytes, rest)) => Some((LblkHash(bytes), rest)),
            None => None,
        }
    }

    /// The name under which schemas list the type.
    pub fn schema_name() -> (name: &'static str)
        ensures
            name@ == HashKind::Block.hash_name(),
            name@ == "LblkHash"@,
    {
        "LblkHash"
    }

    /// The pattern that the text follows.
    pub fn schema_pattern() -> (pattern: String)
        ensures
            pattern@ == HashKind::Block.schema_pattern(),
            pattern@ == "^"@ + "lblk"@ + "1[023456789acdefghjklmnpqrstuvwxyz]+$"@,
    {
        schema_pattern(lblk_hrp())
    }

    /// What the text is, in words.
    pub fn schema_description() -> (description: String)
        ensures
            description@ == HashKind::Block.schema_description(),
            description@ == "Bech32m-encoded "@ + "32"@ + "-byte value with HRP '"@ + "lblk"@
                + "'."@,
    {
        schema_description("32", lblk_hrp())
    }
}

impl FromStr for LblkHash {
    type Err = ParseHashError;

    fn from_str(s: &str) -> (r: Result<Self, ParseHashError>)
        ensures
            match r {
                Ok(hash) => HashKind::Block.parsed(s@) == Ok::<Seq<u8>, ParseFailure>(hash.0@),
                Err(e) => HashKind::Block.parsed(s@) == Err::<Seq<u8>, ParseFailure>(e@),
            },
            r is Ok ==> text_codec::has_hex_prefix(s@) || text_codec::starts_with_hrp(
                s@,
                HashKind::Block.hrp(),
            ),
    {
        match decode_text(s, lblk_hrp(), "LblkHash") {
            Ok(bytes) => Ok(LblkHash(bytes)),
            Err(e) => Err(e),
        }
    }
}

impl core::fmt::Display for LblkHash {
    /// Hands the Bech32m text to the formatter, in one call of `write_str`.
    fn fmt(&self, f: &mut core::fmt::Formatter<'_>) -> (r: core::fmt::Result)
        ensures
            exists|sink: &mut core::fmt::Formatter<'_>, text: &str|
                *sink == *old(f) && *final(sink) == *final(f) && HashKind::Block.prints_as(
                    self.0@,
                    text@,
                ) && #[trigger] call_ensures(core::fmt::Formatter::write_str, (sink, text), r),
    {
        let text = self.to_string();
        let write_str = core::fmt::Formatter::write_str;
        write_str(f, text.as_str())
    }
}

impl core::fmt::Debug for LblkHash {
    /// Hands the Bech32m text to the formatter, in one call of `write_str`.
    fn fmt(&self, f: &mut core::fmt::Formatter<'_>) -> (r: core::fmt::Result)
        ensures
            exists|sink: &mut core::fmt::Formatter<'_>, text: &str|
                *sink == *old(f) && *final(sink) == *final(f) && HashKind::Block.prints_as(
                    self.0@,
                    text@,
                ) && #[trigger] call_ensures(core::fmt::Formatter::write_str, (sink, text), r),
    {
        let text = self.to_string();
        let write_str = core::fmt::Formatter::write_str;
        write_str(f, text.as_str())
    }
}

impl AsRef<[u8]> for LblkHash {
    fn as_ref(&self) -> (bytes: &[u8])
        ensures
            bytes@ == self.0@,
    {
        self.0.as_slice()
    }
}

impl vstd::std_specs::convert::FromSpecImpl<[u8; 32]> for LblkHash {
    open spec fn obeys_from_spec() -> bool {
        true
    }

    open spec fn from_spec(bytes: [u8; 32]) -> Self {
        LblkHash(bytes)
    }
}

impl From<[u8; 32]> for LblkHash {
    fn from(bytes: [u8; 32]) -> (hash: Self) {
        LblkHash(bytes)
    }
}

impl vstd::std_specs::convert::FromSpecImpl<LblkHash> for [u8; 32] {
    open spec fn obeys_from_spec() -> bool {
        true
    }

    open spec fn from_spec(hash: LblkHash) -> Self {
        hash.0
    }
}

impl From<LblkHash> for [u8; 32] {
    fn from(hash: LblkHash) -> (bytes: Self) {
        hash.0
    }
}

/// State root. Bech32m-encoded with HRP `lsr` (`lsr1...`); 64 bytes underneath because
/// chain state roots are 64-byte hashes.
#[derive(Copy, Clone, PartialEq, Eq, PartialOrd, Ord, Hash)]
pub struct LsrHash(pub [u8; 64]);

impl LsrHash {
    /// Wraps raw bytes.
    pub fn new(bytes: [u8; 64]) -> (hash: Self)
        ensures
            hash.0 == bytes,
    {
        LsrHash(bytes)
    }

    /// The Bech32m text, which reads back as this hash.
    pub fn to_string(&self) -> (text: String)
        ensures
            HashKind::StateRoot.prints_as(self.0@, text@),
            HashKind::StateRoot.parsed(text@) == Ok::<Seq<u8>, ParseFailure>(self.0@),
            text_codec::bech32m_text("lsr"@, self.0@) == Some(text@),
    {
        proof {
            lemma_printable(HashKind::StateRoot);
        }
        let text = encode_text(self.0.as_slice(), lsr_hrp());
        proof {
            printed_text_reads_back(HashKind::StateRoot, self.0@, text@);
        }
        text
    }

    /// The form that a serializer gets.
    pub fn serialized(&self, human_readable: bool) -> (form: SerializedHash)
        ensures
            form.is_form_of(HashKind::StateRoot, self.0@, human_readable),
            match form {
                SerializedHash::Text(text) => human_readable && text_codec::bech32m_text(
                    "lsr"@,
                    self.0@,
                ) == Some(text@),
                SerializedHash::Bytes(raw) => !human_readable && raw@ == self.0@,
            },
    {
        if human_readable {
            SerializedHash::Text(self.to_string())
        } else {
            SerializedHash::Bytes(slice_to_vec(self.0.as_slice()))
        }
    }

    /// Takes a form that came from a deserializer.
    pub fn deserialized(form: SerializedHash) -> (r: Result<Self, DeserializeHashError>)
        ensures
            match r {
                Ok(hash) => HashKind::StateRoot.deserialized(form) == Ok::<Seq<u8>, DeserializeFailure>(
                    hash.0@,
                ),
                Err(e) => HashKind::StateRoot.deserialized(form) == Err::<Seq<u8>, DeserializeFailure>(
                    e@,
                ),
            },
    {
        match deserialize_hash(form, lsr_hrp(), "LsrHash", Ghost(HashKind::StateRoot)) {
            Ok(bytes) => Ok(LsrHash(bytes)),
            Err(e) => Err(e),
        }
    }

    /// The Borsh form: the bytes themselves.
    pub fn to_borsh(&self) -> (form: Vec<u8>)
        ensures
            form@ == self.0@,
    {
        borsh_write(&self.0)
    }

    /// Reads the Borsh form from the front of `input` and gives back what follows it. There
    /// is none if the input is too short.
    pub fn from_borsh(input: &[u8]) -> (r: Option<(Self, &[u8])>)
        ensures
            match r {
                Some((hash, rest)) => HashKind::StateRoot.read_borsh(input@) == Some((hash.0@, rest@)),
                None => HashKind::StateRoot.read_borsh(input@) is None,
            },
            match r {
                Some((hash, rest)) => input@ == hash.0@ + rest@,
                None => input@.len() < 64,
            },
    {
        match borsh_read(input) {
            Some((bytes, rest)) => Some((LsrHash(bytes), rest)),
            None => None,
        }
    }

    /// The name under which schemas list the type.
    pub fn schema_name() -> (name: &'static str)
        ensures
            name@ == HashKind::StateRoot.hash_name(),
            name@ == "LsrHash"@,
    {
        "LsrHash"
    }

    /// The pattern that the text follows.
    pub fn schema_pattern() -> (pattern: String)
        ensures
            pattern@ == HashKind::StateRoot.schema_pattern(),
            pattern@ == "^"@ + "lsr"@ + "1[023456789acdefghjklmnpqrstuvwxyz]+$"@,
    {
        schema_pattern(lsr_hrp())
    }

    /// What the text is, in words.
    pub fn schema_description() -> (description: String)
        ensures
            description@ == HashKind::StateRoot.schema_description(),
            description@ == "Bech32m-encoded "@ + "64"@ + "-byte value with HRP '"@ + "lsr"@
                + "'."@,
    {
        schema_description("64", lsr_hrp())
    }
}

impl FromStr for LsrHash {
    type Err = ParseHashError;

    fn from_str(s: &str) -> (r: Result<Self, ParseHashError>)
        ensures
            match r {
                Ok(hash) => HashKind::StateRoot.parsed(s@) == Ok::<Seq<u8>, ParseFailure>(hash.0@),
                Err(e) => HashKind::StateRoot.parsed(s@) == Err::<Seq<u8>, ParseFailure>(e@),
            },
            r is Ok ==> text_codec::has_hex_prefix(s@) || text_codec::starts_with_hrp(
                s@,
                HashKind::StateRoot.hrp(),
            ),
    {
        match decode_text(s, lsr_hrp(), "LsrHash") {
            Ok(bytes) => Ok(LsrHash(bytes)),
            Err(e) => Err(e),
        }
    }
}

impl core::fmt::Display for LsrHash {
    /// Hands the Bech32m text to the formatter, in one call of `write_str`.
    fn fmt(&self, f: &mut core::fmt::Formatter<'_>) -> (r: core::fmt::Result)
        ensures
            exists|sink: &mut core::fmt::Formatter<'_>, text: &str|
                *sink == *old(f) && *final(sink) == *final(f) && HashKind::StateRoot.prints_as(
                    self.0@,
                    text@,
                ) && #[trigger] call_ensures(core::fmt::Formatter::write_str, (sink, text), r),
    {
        let text = self.to_string();
        let write_str = core::fmt::Formatter::write_str;
        write_str(f, text.as_str())
    }
}

impl core::fmt::Debug for LsrHash {
    /// Hands the Bech32m text to the formatter, in one call of `write_str`.
    fn fmt(&self, f: &mut core::fmt::Formatter<'_>) -> (r: core::fmt::Result)
        ensures
            exists|sink: &mut core::fmt::Formatter<'_>, text: &str|
                *sink == *old(f) && *final(sink) == *final(f) && HashKind::StateRoot.prints_as(
                    self.0@,
                    text@,
                ) && #[trigger] call_ensures(core::fmt::Formatter::write_str, (sink, text), r),
    {
        let text = self.to_string();
        let write_str = core::fmt::Formatter::write_str;
        write_str(f, text.as_str())
    }
}

impl AsRef<[u8]> for LsrHash {
    fn as_ref(&self) -> (bytes: &[u8])
        ensures
            bytes@ == self.0@,
    {
        self.0.as_slice()
    }
}

impl vstd::std_specs::convert::FromSpecImpl<[u8; 64]> for LsrHash {
    open spec fn obeys_from_spec() -> bool {
        true
    }

    open spec fn from_spec(bytes: [u8; 64]) -> Self {
        LsrHash(bytes)
    }
}

impl From<[u8; 64]> for LsrHash {
    fn from(bytes: [u8; 64]) -> (hash: Self) {
        LsrHash(bytes)
    }
}

impl vstd::std_specs::convert::FromSpecImpl<LsrHash> for [u8; 64] {
    open spec fn obeys_from_spec() -> bool {
        true
    }

    open spec fn from_spec(hash: LsrHash) -> Self {
        hash.0
    }
}

impl From<LsrHash> for [u8; 64] {
    fn from(hash: LsrHash) -> (bytes: Self) {
        hash.0
    }
}

/// Sequencer batch hash. Bech32m-encoded with HRP `lba` (`lba1...`).
#[derive(Copy, Clone, PartialEq, Eq, PartialOrd, Ord, Hash)]
pub struct LbaHash(pub [u8; 32]);

impl LbaHash {
    /// Wraps raw bytes.
    pub fn new(bytes: [u8; 32]) -> (hash: Self)
        ensures
            hash.0 == bytes,
    {
        LbaHash(bytes)
    }

    /// The Bech32m text, which reads back as this hash.
    pub fn to_string(&self) -> (text: String)
        ensures
            HashKind::Batch.prints_as(self.0@, text@),
            HashKind::Batch.parsed(text@) == Ok::<Seq<u8>, ParseFailure>(self.0@),
            text_codec::bech32m_text("lba"@, self.0@) == Some(text@),
    {
        proof {
            lemma_printable(HashKind::Batch);
        }
        let text = encode_text(self.0.as_slice(), lba_hrp());
        proof {
            printed_text_reads_back(HashKind::Batch, self.0@, text@);
        }
        text
    }

    /// The form that a serializer gets.
    pub fn serialized(&self, human_readable: bool) -> (form: SerializedHash)
        ensures
            form.is_form_of(HashKind::Batch, self.0@, human_readable),
            match form {
                SerializedHash::Text(text) => human_readable && text_codec::bech32m_text(
                    "lba"@,
                    self.0@,
                ) == Some(text@),
                SerializedHash::Bytes(raw) => !human_readable && raw@ == self.0@,
            },
    {
        if human_readable {
            SerializedHash::Text(self.to_string())
        } else {
            SerializedHash::Bytes(slice_to_vec(self.0.as_slice()))
        }
    }

    /// Takes a form that came from a deserializer.
    pub fn deserialized(form: SerializedHash) -> (r: Result<Self, DeserializeHashError>)
        ensures
            match r {
                Ok(hash) => HashKind::Batch.deserialized(form) == Ok::<Seq<u8>, DeserializeFailure>(
                    hash.0@,
                ),
                Err(e) => HashKind::Batch.deserialized(form) == Err::<Seq<u8>, DeserializeFailure>(
                    e@,
                ),
            },
    {
        match deserialize_hash(form, lba_hrp(), "LbaHash", Ghost(HashKind::Batch)) {
            Ok(bytes) => Ok(LbaHash(bytes)),
            Err(e) => Err(e),
        }
    }

    /// The Borsh form: the bytes themselves.
    pub fn to_borsh(&self) -> (form: Vec<u8>)
        ensures
            form@ == self.0@,
    {
        borsh_write(&self.0)
    }

    /// Reads the Borsh form from the front of `input` and gives back what follows it. There
    /// is none if the input is too short.
    pub fn from_borsh(input: &[u8]) -> (r: Option<(Self, &[u8])>)
        ensures
            match r {
                Some((hash, rest)) => HashKind::Batch.read_borsh(input@) == Some((hash.0@, rest@)),
                None => HashKind::Batch.read_borsh(input@) is None,
            },
            match r {
                Some((hash, rest)) => input@ == hash.0@ + rest@,
                None => input@.len() < 32,
            },
    {
        match borsh_read(input) {
            Some((bytes, rest)) => Some((LbaHash(bytes), rest)),
            None => None,
        }
    }

    /// The name under which schemas list the type.
    pub fn schema_name() -> (name: &'static str)
        ensures
            name@ == HashKind::Batch.hash_name(),
            name@ == "LbaHash"@,
    {
        "LbaHash"
    }

    /// The pattern that the text follows.
    pub fn schema_pattern() -> (pattern: String)
        ensures
            pattern@ == HashKind::Batch.schema_pattern(),
            pattern@ == "^"@ + "lba"@ + "1[023456789acdefghjklmnpqrstuvwxyz]+$"@,
    {
        schema_pattern(lba_hrp())
    }

    /// What the text is, in words.
    pub fn schema_description() -> (description: String)
        ensures
            description@ == HashKind::Batch.schema_description(),
            description@ == "Bech32m-encoded "@ + "32"@ + "-byte value with HRP '"@ + "lba"@
                + "'."@,
    {
        schema_description("32", lba_hrp())
    }
}

impl FromStr for LbaHash {
    type Err = ParseHashError;

    fn from_str(s: &str) -> (r: Result<Self, ParseHashError>)
        ensures
            match r {
                Ok(hash) => HashKind::Batch.parsed(s@) == Ok::<Seq<u8>, ParseFailure>(hash.0@),
                Err(e) => HashKind::Batch.parsed(s@) == Err::<Seq<u8>, ParseFailure>(e@),
            },
            r is Ok ==> text_codec::has_hex_prefix(s@) || text_codec::starts_with_hrp(
                s@,
                HashKind::Batch.hrp(),
            ),
    {
        match decode_text(s, lba_hrp(), "LbaHash") {
            Ok(bytes) => Ok(LbaHash(bytes)),
            Err(e) => Err(e),
        }
    }
}

impl core::fmt::Display for LbaHash {
    /// Hands the Bech32m text to the formatter, in one call of `write_str`.
    fn fmt(&self, f: &mut core::fmt::Formatter<'_>) -> (r: core::fmt::Result)
        ensures
            exists|sink: &mut core::fmt::Formatter<'_>, text: &str|
                *sink == *old(f) && *final(sink) == *final(f) && HashKind::Batch.prints_as(
                    self.0@,
                    text@,
                ) && #[trigger] call_ensures(core::fmt::Formatter::write_str, (sink, text), r),
    {
        let text = self.to_string();
        let write_str = core::fmt::Formatter::write_str;
        write_str(f, text.as_str())
    }
}

impl core::fmt::Debug for LbaHash {
    /// Hands the Bech32m text to the formatter, in one call of `write_str`.
    fn fmt(&self, f: &mut core::fmt::Formatter<'_>) -> (r: core::fmt::Result)
        ensures
            exists|sink: &mut core::fmt::Formatter<'_>, text: &str|
                *sink == *old(f) && *final(sink) == *final(f) && HashKind::Batch.prints_as(
                    self.0@,
                    text@,
                ) && #[trigger] call_ensures(core::fmt::Formatter::write_str, (sink, text), r),
    {
        let text = self.to_string();
        let write_str = core::fmt::Formatter::write_str;
        write_str(f, text.as_str())
    }
}

impl AsRef<[u8]> for LbaHash {
    fn as_ref(&self) -> (bytes: &[u8])
        ensures
            bytes@ == self.0@,
    {
        self.0.as_slice()
    }
}

impl vstd::std_specs::convert::FromSpecImpl<[u8; 32]> for LbaHash {
    open spec fn obeys_from_spec() -> bool {
        true
    }

    open spec fn from_spec(bytes: [u8; 32]) -> Self {
        LbaHash(bytes)
    }
}

impl From<[u8; 32]> for LbaHash {
    fn from(bytes: [u8; 32]) -> (hash: Self) {
        LbaHash(bytes)
    }
}

impl vstd::std_specs::convert::FromSpecImpl<LbaHash> for [u8; 32] {
    open spec fn obeys_from_spec() -> bool {
        true
    }

    open spec fn from_spec(hash: LbaHash) -> Self {
        hash.0
    }
}

impl From<LbaHash> for [u8; 32] {
    fn from(hash: LbaHash) -> (bytes: Self) {
        hash.0
    }
}

/// Commitment to the runtime and wallet schema. Bech32m-encoded with HRP `lsch`
/// (`lsch1...`).
#[derive(Copy, Clone, PartialEq, Eq, PartialOrd, Ord, Hash)]
pub struct LschHash(pub [u8; 32]);

impl LschHash {
    /// Wraps raw bytes.
    pub fn new(bytes: [u8; 32]) -> (hash: Self)
        ensures
            hash.0 == bytes,
    {
        LschHash(bytes)
    }

    /// The Bech32m text, which reads back as this hash.
    pub fn to_string(&self) -> (text: String)
        ensures
            HashKind::Chain.prints_as(self.0@, text@),
            HashKind::Chain.parsed(text@) == Ok::<Seq<u8>, ParseFailure>(self.0@),
            text_codec::bech32m_text("lsch"@, self.0@) == Some(text@),
    {
        proof {
            lemma_printable(HashKind::Chain);
        }
        let text = encode_text(self.0.as_slice(), lsch_hrp());
        proof {
            printed_text_reads_back(HashKind::Chain, self.0@, text@);
        }
        text
    }

    /// The form that a serializer gets.
    pub fn serialized(&self, human_readable: bool) -> (form: SerializedHash)
        ensures
            form.is_form_of(HashKind::Chain, self.0@, human_readable),
            match form {
                SerializedHash::Text(text) => human_readable && text_codec::bech32m_text(
                    "lsch"@,
                    self.0@,
                ) == Some(text@),
                SerializedHash::Bytes(raw) => !human_readable && raw@ == self.0@,
            },
    {
        if human_readable {
            SerializedHash::Text(self.to_string())
        } else {
            SerializedHash::Bytes(slice_to_vec(self.0.as_slice()))
        }
    }

    /// Takes a form that came from a deserializer.
    pub fn deserialized(form: SerializedHash) -> (r: Result<Self, DeserializeHashError>)
        ensures
            match r {
                Ok(hash) => HashKind::Chain.deserialized(form) == Ok::<Seq<u8>, DeserializeFailure>(
                    hash.0@,
                ),
                Err(e) => HashKind::Chain.deserialized(form) == Err::<Seq<u8>, DeserializeFailure>(
                    e@,
                ),
            },
    {
        match deserialize_hash(form, lsch_hrp(), "LschHash", Ghost(HashKind::Chain)) {
            Ok(bytes) => Ok(LschHash(bytes)),
            Err(e) => Err(e),
        }
    }

    /// The Borsh form: the bytes themselves.
    pub fn to_borsh(&self) -> (form: Vec<u8>)
        ensures
            form@ == self.0@,
    {
        borsh_write(&self.0)
    }

    /// Reads the Borsh form from the front of `input` and gives back what follows it. There
    /// is none if the input is too short.
    pub fn from_borsh(input: &[u8]) -> (r: Option<(Self, &[u8])>)
        ensures
            match r {
                Some((hash, rest)) => HashKind::Chain.read_borsh(input@) == Some((hash.0@, rest@)),
                None => HashKind::Chain.read_borsh(input@) is None,
            },
            match r {
                Some((hash, rest)) => input@ == hash.0@ + rest@,
                None => input@.len() < 32,
            },
    {
        match borsh_read(input) {
            Some((bytes, rest)) => Some((LschHash(bytes), rest)),
            None => None,
        }
    }

    /// The name under which schemas list the type.
    pub fn schema_name() -> (name: &'static str)
        ensures
            name@ == HashKind::Chain.hash_name(),
            name@ == "LschHash"@,
    {
        "LschHash"
    }

    /// The pattern that the text follows.
    pub fn schema_pattern() -> (pattern: String)
        ensures
            pattern@ == HashKind::Chain.schema_pattern(),
            pattern@ == "^"@ + "lsch"@ + "1[023456789acdefghjklmnpqrstuvwxyz]+$"@,
    {
        schema_pattern(lsch_hrp())
    }

    /// What the text is, in words.
    pub fn schema_description() -> (description: String)
        ensures
            description@ == HashKind::Chain.schema_description(),
            description@ == "Bech32m-encoded "@ + "32"@ + "-byte value with HRP '"@ + "lsch"@
                + "'."@,
    {
        schema_description("32", lsch_hrp())
    }
}

impl FromStr for LschHash {
    type Err = ParseHashError;

    fn from_str(s: &str) -> (r: Result<Self, ParseHashError>)
        ensures
            match r {
                Ok(hash) => HashKind::Chain.parsed(s@) == Ok::<Seq<u8>, ParseFailure>(hash.0@),
                Err(e) => HashKind::Chain.parsed(s@) == Err::<Seq<u8>, ParseFailure>(e@),
            },
            r is Ok ==> text_codec::has_hex_prefix(s@) || text_codec::starts_with_hrp(
                s@,
                HashKind::Chain.hrp(),
            ),
    {
        match decode_text(s, lsch_hrp(), "LschHash") {
            Ok(bytes) => Ok(LschHash(bytes)),
            Err(e) => Err(e),
        }
    }
}

impl core::fmt::Display for LschHash {
    /// Hands the Bech32m text to the formatter, in one call of `write_str`.
    fn fmt(&self, f: &mut core::fmt::Formatter<'_>) -> (r: core::fmt::Result)
        ensures
            exists|sink: &mut core::fmt::Formatter<'_>, text: &str|
                *sink == *old(f) && *final(sink) == *final(f) && HashKind::Chain.prints_as(
                    self.0@,
                    text@,
                ) && #[trigger] call_ensures(core::fmt::Formatter::write_str, (sink, text), r),
    {
        let text = self.to_string();
        let write_str = core::fmt::Formatter::write_str;
        write_str(f, text.as_str())
    }
}

impl core::fmt::Debug for LschHash {
    /// Hands the Bech32m text to the formatter, in one call of `write_str`.
    fn fmt(&self, f: &mut core::fmt::Formatter<'_>) -> (r: core::fmt::Result)
        ensures
            exists|sink: &mut core::fmt::Formatter<'_>, text: &str|
                *sink == *old(f) && *final(sink) == *final(f) && HashKind::Chain.prints_as(
                    self.0@,
                    text@,
                ) && #[trigger] call_ensures(core::fmt::Formatter::write_str, (sink, text), r),
    {
        let text = self.to_string();
        let write_str = core::fmt::Formatter::write_str;
        write_str(f, text.as_str())
    }
}

impl AsRef<[u8]> for LschHash {
    fn as_ref(&self) -> (bytes: &[u8])
        ensures
            bytes@ == self.0@,
    {
        self.0.as_slice()
    }
}

impl vstd::std_specs::convert::FromSpecImpl<[u8; 32]> for LschHash {
    open spec fn obeys_from_spec() -> bool {
        true
    }

    open spec fn from_spec(bytes: [u8; 32]) -> Self {
        LschHash(bytes)
    }
}

impl From<[u8; 32]> for LschHash {
    fn from(bytes: [u8; 32]) -> (hash: Self) {
        LschHash(bytes)
    }
}

impl vstd::std_specs::convert::FromSpecImpl<LschHash> for [u8; 32] {
    open spec fn obeys_from_spec() -> bool {
        true
    }

    open spec fn from_spec(hash: LschHash) -> Self {
        hash.0
    }
}

impl From<LschHash> for [u8; 32] {
    fn from(hash: LschHash) -> (bytes: Self) {
        hash.0
    }
}

/// DA-layer blob hash. Bech32m-encoded with HRP `lbz` (`lbz1...`).
#[derive(Copy, Clone, PartialEq, Eq, PartialOrd, Ord, Hash)]
pub struct LbzHash(pub [u8; 32]);

impl LbzHash {
    /// Wraps raw bytes.
    pub fn new(bytes: [u8; 32]) -> (hash: Self)
        ensures
            hash.0 == bytes,
    {
        LbzHash(bytes)
    }

    /// The Bech32m text, which reads back as this hash.
    pub fn to_string(&self) -> (text: String)
        ensures
            HashKind::Blob.prints_as(self.0@, text@),
            HashKind::Blob.parsed(text@) == Ok::<Seq<u8>, ParseFailure>(self.0@),
            text_codec::bech32m_text("lbz"@, self.0@) == Some(text@),
    {
        proof {
            lemma_printable(HashKind::Blob);
        }
        let text = encode_text(self.0.as_slice(), lbz_hrp());
        proof {
            printed_text_reads_back(HashKind::Blob, self.0@, text@);
        }
        text
    }

    /// The form that a serializer gets.
    pub fn serialized(&self, human_readable: bool) -> (form: SerializedHash)
        ensures
            form.is_form_of(HashKind::Blob, self.0@, human_readable),
            match form {
                SerializedHash::Text(text) => human_readable && text_codec::bech32m_text(
                    "lbz"@,
                    self.0@,
                ) == Some(text@),
                SerializedHash::Bytes(raw) => !human_readable && raw@ == self.0@,
            },
    {
        if human_readable {
            SerializedHash::Text(self.to_string())
        } else {
            SerializedHash::Bytes(slice_to_vec(self.0.as_slice()))
        }
    }

    /// Takes a form that came from a deserializer.
    pub fn deserialized(form: SerializedHash) -> (r: Result<Self, DeserializeHashError>)
        ensures
            match r {
                Ok(hash) => HashKind::Blob.deserialized(form) == Ok::<Seq<u8>, DeserializeFailure>(
                    hash.0@,
                ),
                Err(e) => HashKind::Blob.deserialized(form) == Err::<Seq<u8>, DeserializeFailure>(
                    e@,
                ),
            },
    {
        match deserialize_hash(form, lbz_hrp(), "LbzHash", Ghost(HashKind::Blob)) {
            Ok(bytes) => Ok(LbzHash(bytes)),
            Err(e) => Err(e),
        }
    }

    /// The Borsh form: the bytes themselves.
    pub fn to_borsh(&self) -> (form: Vec<u8>)
        ensures
            form@ == self.0@,
    {
        borsh_write(&self.0)
    }

    /// Reads the Borsh form from the front of `input` and gives back what follows it. There
    /// is none if the input is too short.
    pub fn from_borsh(input: &[u8]) -> (r: Option<(Self, &[u8])>)
        ensures
            match r {
                Some((hash, rest)) => HashKind::Blob.read_borsh(input@) == Some((hash.0@, rest@)),
                None => HashKind::Blob.read_borsh(input@) is None,
            },
            match r {
                Some((hash, rest)) => input@ == hash.0@ + rest@,
                None => input@.len() < 32,
            },
    {
        match borsh_read(input) {
            Some((bytes, rest)) => Some((LbzHash(bytes), rest)),
            None => None,
        }
    }

    /// The name under which schemas list the type.
    pub fn schema_name() -> (name: &'static str)
        ensures
            name@ == HashKind::Blob.hash_name(),
            name@ == "LbzHash"@,
    {
        "LbzHash"
    }

    /// The pattern that the text follows.
    pub fn schema_pattern() -> (pattern: String)
        ensures
            pattern@ == HashKind::Blob.schema_pattern(),
            pattern@ == "^"@ + "lbz"@ + "1[023456789acdefghjklmnpqrstuvwxyz]+$"@,
    {
        schema_pattern(lbz_hrp())
    }

    /// What the text is, in words.
    pub fn schema_description() -> (description: String)
        ensures
            description@ == HashKind::Blob.schema_description(),
            description@ == "Bech32m-encoded "@ + "32"@ + "-byte value with HRP '"@ + "lbz"@
                + "'."@,
    {
        schema_description("32", lbz_hrp())
    }
}

impl FromStr for LbzHash {
    type Err = ParseHashError;

    fn from_str(s: &str) -> (r: Result<Self, ParseHashError>)
        ensures
            match r {
                Ok(hash) => HashKind::Blob.parsed(s@) == Ok::<Seq<u8>, ParseFailure>(hash.0@),
                Err(e) => HashKind::Blob.parsed(s@) == Err::<Seq<u8>, ParseFailure>(e@),
            },
            r is Ok ==> text_codec::has_hex_prefix(s@) || text_codec::starts_with_hrp(
                s@,
                HashKind::Blob.hrp(),
            ),
    {
        match decode_text(s, lbz_hrp(), "LbzHash") {
            Ok(bytes) => Ok(LbzHash(bytes)),
            Err(e) => Err(e),
        }
    }
}

impl core::fmt::Display for LbzHash {
    /// Hands the Bech32m text to the formatter, in one call of `write_str`.
    fn fmt(&self, f: &mut core::fmt::Formatter<'_>) -> (r: core::fmt::Result)
        ensures
            exists|sink: &mut core::fmt::Formatter<'_>, text: &str|
                *sink == *old(f) && *final(sink) == *final(f) && HashKind::Blob.prints_as(
                    self.0@,
                    text@,
                ) && #[trigger] call_ensures(core::fmt::Formatter::write_str, (sink, text), r),
    {
        let text = self.to_string();
        let write_str = core::fmt::Formatter::write_str;
        write_str(f, text.as_str())
    }
}

impl core::fmt::Debug for LbzHash {
    /// Hands the Bech32m text to the formatter, in one call of `write_str`.
    fn fmt(&self, f: &mut core::fmt::Formatter<'_>) -> (r: core::fmt::Result)
        ensures
            exists|sink: &mut core::fmt::Formatter<'_>, text: &str|
                *sink == *old(f) && *final(sink) == *final(f) && HashKind::Blob.prints_as(
                    self.0@,
                    text@,
                ) && #[trigger] call_ensures(core::fmt::Formatter::write_str, (sink, text), r),
    {
        let text = self.to_string();
        let write_str = core::fmt::Formatter::write_str;
        write_str(f, text.as_str())
    }
}

impl AsRef<[u8]> for LbzHash {
    fn as_ref(&self) -> (bytes: &[u8])
        ensures
            bytes@ == self.0@,
    {
        self.0.as_slice()
    }
}

impl vstd::std_specs::convert::FromSpecImpl<[u8; 32]> for LbzHash {
    open spec fn obeys_from_spec() -> bool {
        true
    }

    open spec fn from_spec(bytes: [u8; 32]) -> Self {
        LbzHash(bytes)
    }
}

impl From<[u8; 32]> for LbzHash {
    fn from(bytes: [u8; 32]) -> (hash: Self) {
        LbzHash(bytes)
    }
}

impl vstd::std_specs::convert::FromSpecImpl<LbzHash> for [u8; 32] {
    open spec fn obeys_from_spec() -> bool {
        true
    }

    open spec fn from_spec(hash: LbzHash) -> Self {
        hash.0
    }
}

impl From<LbzHash> for [u8; 32] {
    fn from(hash: LbzHash) -> (bytes: Self) {
        hash.0
    }
}

// ---- Conversions with `HexString` ------------------------------------------

impl vstd::std_specs::convert::FromSpecImpl<HexString<[u8; 32]>> for LtxHash {
    open spec fn obeys_from_spec() -> bool {
        true
    }

    open spec fn from_spec(value: HexString<[u8; 32]>) -> Self {
        LtxHash(value.0)
    }
}

impl From<HexString<[u8; 32]>> for LtxHash {
    fn from(value: HexString<[u8; 32]>) -> (hash: Self) {
        LtxHash(value.0)
    }
}

impl vstd::std_specs::convert::FromSpecImpl<LtxHash> for HexString<[u8; 32]> {
    open spec fn obeys_from_spec() -> bool {
        true
    }

    open spec fn from_spec(value: LtxHash) -> Self {
        HexString(value.0)
    }
}

impl From<LtxHash> for HexString<[u8; 32]> {
    fn from(value: LtxHash) -> (hex: Self) {
        HexString::new(value.0)
    }
}

// ---- Laws ------------------------------------------------------------------

/// Every kind goes by the human-readable part, the number of bytes and the type of its own.
pub proof fn kinds_are_what_they_are_called(kind: HashKind)
    ensures
        match kind {
            HashKind::Tx => kind.hrp() == seq!['l', 't', 'x'] && kind.hash_name() == "LtxHash"@
                && kind.size() == 32,
            HashKind::Block => kind.hrp() == seq!['l', 'b', 'l', 'k'] && kind.hash_name()
                == "LblkHash"@ && kind.size() == 32,
            HashKind::StateRoot => kind.hrp() == seq!['l', 's', 'r'] && kind.hash_name()
                == "LsrHash"@ && kind.size() == 64,
            HashKind::Batch => kind.hrp() == seq!['l', 'b', 'a'] && kind.hash_name() == "LbaHash"@
                && kind.size() == 32,
            HashKind::Chain => kind.hrp() == seq!['l', 's', 'c', 'h'] && kind.hash_name()
                == "LschHash"@ && kind.size() == 32,
            HashKind::Blob => kind.hrp() == seq!['l', 'b', 'z'] && kind.hash_name() == "LbzHash"@
                && kind.size() == 32,
        },
{
    lemma_hrp_chars();
}

/// What is printed for a hash is the Bech32m text of its own bytes, all of them in their
/// order, under the human-readable part of its kind. It starts with that part and `1`, goes on
/// in the characters that the schema lists, and has as many of them as the bytes take at five
/// bits each, and six more.
pub proof fn printed_text_is_the_bech32m_of_the_bytes(
    kind: HashKind,
    bytes: Seq<u8>,
    text: Seq<char>,
)
    ensures
        kind.prints_as(bytes, text) ==> {
            let h = kind.hrp().len() as int;
            &&& text_codec::bech32m_text(kind.hrp(), bytes) == Some(text)
            &&& text.len() == h + 1 + (8 * bytes.len() + 4) / 5 + 6
            &&& text.take(h) == kind.hrp()
            &&& text[h] == '1'
            &&& forall|i: int|
                h < i < text.len() ==> {
                    ||| '0' <= #[trigger] text[i] <= '9' && text[i] != '1'
                    ||| 'a' <= text[i] <= 'z' && text[i] != 'b' && text[i] != 'i' && text[i] != 'o'
                }
        },
{
}

/// A text is read as a hash if it is the Bech32 of exactly so many bytes under the
/// human-readable part of that kind, or behind `0x` their hex digits, and in no other case.
/// The bytes are those, in their order.
pub proof fn read_bytes_are_the_decoded_ones(kind: HashKind, text: Seq<char>, bytes: Seq<u8>)
    requires
        kind.parsed(text) == Ok::<Seq<u8>, ParseFailure>(bytes),
    ensures
        bytes.len() == kind.size(),
        text_codec::bech32_decoded(text) == Ok::<(Seq<char>, Seq<u8>), bech32::DecodeError>(
            (kind.hrp(), bytes),
        ) || text.len() >= 2 && text[0] == '0' && (text[1] == 'x' || text[1] == 'X'),
{
}

/// A text is read the same way by every kind, up to what the kind expects: whatever bytes two
/// kinds read from it are the same bytes.
pub proof fn kinds_read_the_same_bytes(
    a: HashKind,
    b: HashKind,
    text: Seq<char>,
    first: Seq<u8>,
    second: Seq<u8>,
)
    requires
        a.parsed(text) == Ok::<Seq<u8>, ParseFailure>(first),
        b.parsed(text) == Ok::<Seq<u8>, ParseFailure>(second),
    ensures
        first == second,
        a == b || text.len() >= 2 && text[0] == '0' && (text[1] == 'x' || text[1] == 'X'),
{
    if a != b {
        kinds_have_distinct_hrps(a, b);
    }
}

/// Every kind reads texts by its own human-readable part, size and name, as the codec says.
pub proof fn kinds_read_by_the_codec(kind: HashKind, text: Seq<char>)
    ensures
        kind.parsed(text) == text_codec::parsed(text, kind.hrp(), kind.size(), kind.hash_name()),
{
}

/// A serialized form is taken by what it is: a text as it is read, and bytes if and only if
/// they are as many as the kind has, as they are.
pub proof fn forms_are_taken_for_what_they_are(kind: HashKind, form: SerializedHash)
    ensures
        match (form, kind.deserialized(form)) {
            (SerializedHash::Text(text), Ok(bytes)) => kind.parsed(text@) == Ok::<
                Seq<u8>,
                ParseFailure,
            >(bytes),
            (SerializedHash::Text(text), Err(DeserializeFailure::Text(failure))) => kind.parsed(
                text@,
            ) == Err::<Seq<u8>, ParseFailure>(failure),
            (SerializedHash::Bytes(raw), Ok(bytes)) => raw@.len() == kind.size() && bytes == raw@,
            (SerializedHash::Bytes(raw), Err(DeserializeFailure::InvalidByteLength)) => raw@.len()
                != kind.size(),
            _ => false,
        },
{
}

/// The form for a human-readable format is a text, and the form for any other is the bytes.
pub proof fn format_decides_the_form(
    kind: HashKind,
    bytes: Seq<u8>,
    human_readable: bool,
    form: SerializedHash,
)
    ensures
        form.is_form_of(kind, bytes, human_readable) <==> match form {
            SerializedHash::Text(text) => human_readable && kind.prints_as(bytes, text@),
            SerializedHash::Bytes(raw) => !human_readable && raw@ == bytes,
        },
{
}

/// An error shows everything that it was made of.
pub proof fn deserialize_errors_show_what_they_hold(error: DeserializeHashError)
    ensures
        match error {
            DeserializeHashError::Text(e) => error@ == DeserializeFailure::Text(e@),
            DeserializeHashError::InvalidByteLength => error@
                == DeserializeFailure::InvalidByteLength,
        },
{
}

/// What is read in Borsh form and what follows it are the input, cut behind as many bytes as
/// the kind has. Only an input that has fewer holds none.
pub proof fn borsh_cuts_the_input(kind: HashKind, input: Seq<u8>)
    ensures
        match kind.read_borsh(input) {
            Some((bytes, rest)) => bytes.len() == kind.size() && bytes + rest == input,
            None => input.len() < kind.size(),
        },
{
    if let Some((bytes, rest)) = kind.read_borsh(input) {
        assert(bytes + rest =~= input);
    }
}

/// Wrapping bytes and taking them out again changes nothing, for every type.
pub proof fn conversions_keep_the_bytes_as_they_are(short: [u8; 32], long: [u8; 64])
    ensures
        <LtxHash as vstd::std_specs::convert::FromSpec<[u8; 32]>>::from_spec(short).0 == short,
        <[u8; 32] as vstd::std_specs::convert::FromSpec<LtxHash>>::from_spec(LtxHash(short))
            == short,
        <LblkHash as vstd::std_specs::convert::FromSpec<[u8; 32]>>::from_spec(short).0 == short,
        <[u8; 32] as vstd::std_specs::convert::FromSpec<LblkHash>>::from_spec(LblkHash(short))
            == short,
        <LsrHash as vstd::std_specs::convert::FromSpec<[u8; 64]>>::from_spec(long).0 == long,
        <[u8; 64] as vstd::std_specs::convert::FromSpec<LsrHash>>::from_spec(LsrHash(long))
            == long,
        <LbaHash as vstd::std_specs::convert::FromSpec<[u8; 32]>>::from_spec(short).0 == short,
        <[u8; 32] as vstd::std_specs::convert::FromSpec<LbaHash>>::from_spec(LbaHash(short))
            == short,
        <LschHash as vstd::std_specs::convert::FromSpec<[u8; 32]>>::from_spec(short).0 == short,
        <[u8; 32] as vstd::std_specs::convert::FromSpec<LschHash>>::from_spec(LschHash(short))
            == short,
        <LbzHash as vstd::std_specs::convert::FromSpec<[u8; 32]>>::from_spec(short).0 == short,
        <[u8; 32] as vstd::std_specs::convert::FromSpec<LbzHash>>::from_spec(LbzHash(short))
            == short,
        <LtxHash as vstd::std_specs::convert::FromSpec<HexString<[u8; 32]>>>::from_spec(
            HexString(short),
        ).0 == short,
        <HexString<[u8; 32]> as vstd::std_specs::convert::FromSpec<LtxHash>>::from_spec(
            LtxHash(short),
        ).0 == short,
{
}

/// The text printed for a hash reads back as that hash.
pub proof fn printed_text_reads_back(kind: HashKind, bytes: Seq<u8>, text: Seq<char>)
    requires
        bytes.len() == kind.size(),
    ensures
        kind.prints_as(bytes, text) ==> kind.parsed(text) == Ok::<Seq<u8>, ParseFailure>(bytes),
{
    lemma_printable(kind);
    if kind.prints_as(bytes, text) {
        assert(text[0] == text.take(kind.hrp().len() as int)[0]);
    }
}

/// No two kinds share a human-readable part.
pub proof fn kinds_have_distinct_hrps(a: HashKind, b: HashKind)
    requires
        a != b,
    ensures
        a.hrp() != b.hrp(),
{
    lemma_hrp_chars();
    if a.hrp() == b.hrp() {
        assert(a.hrp()[1] == b.hrp()[1]);
        assert(a.hrp()[2] == b.hrp()[2]);
    }
}

/// The text printed for a hash of one kind is refused as a hash of any other kind, and the
/// refusal names both human-readable parts.
pub proof fn other_kind_is_refused(a: HashKind, b: HashKind, bytes: Seq<u8>, text: Seq<char>)
    requires
        a != b,
    ensures
        a.prints_as(bytes, text) ==> b.parsed(text) == Err::<Seq<u8>, ParseFailure>(
            ParseFailure::WrongHrp { expected: b.hrp(), actual: a.hrp() },
        ),
{
    kinds_have_distinct_hrps(a, b);
    lemma_printable(a);
    if a.prints_as(bytes, text) {
        assert(text[0] == text.take(a.hrp().len() as int)[0]);
    }
}

/// A text is printed for one hash of one kind at most.
pub proof fn printed_texts_are_distinct(
    a: HashKind,
    first: Seq<u8>,
    b: HashKind,
    second: Seq<u8>,
    text: Seq<char>,
)
    ensures
        a.prints_as(first, text) && b.prints_as(second, text) ==> a == b && first == second,
{
    if a != b {
        kinds_have_distinct_hrps(a, b);
    }
}

/// Every printed text follows the pattern of its schema: the human-readable part, the
/// separator, and data characters up to the end.
pub proof fn printed_text_follows_pattern(kind: HashKind, bytes: Seq<u8>, text: Seq<char>)
    ensures
        kind.prints_as(bytes, text) ==> text_codec::is_hrp_string(text, kind.hrp()),
{
}

/// The hex form of a hash is read as that hash, whatever the case of the `x` and of the
/// digits.
pub proof fn hex_form_reads_back(
    kind: HashKind,
    bytes: Seq<u8>,
    upper_prefix: bool,
    upper_digits: bool,
)
    requires
        bytes.len() == kind.size(),
    ensures
        kind.parsed(text_codec::hex_text(bytes, upper_prefix, upper_digits)) == Ok::<
            Seq<u8>,
            ParseFailure,
        >(bytes),
{
    text_codec::lemma_hex_text_decodes(bytes, upper_prefix, upper_digits);
}

/// What a serializer was given for a hash is taken back as that hash, in human-readable
/// formats and in the others.
pub proof fn serialized_form_reads_back(
    kind: HashKind,
    bytes: Seq<u8>,
    human_readable: bool,
    form: SerializedHash,
)
    requires
        bytes.len() == kind.size(),
    ensures
        form.is_form_of(kind, bytes, human_readable) ==> kind.deserialized(form) == Ok::<
            Seq<u8>,
            DeserializeFailure,
        >(bytes),
{
    if let SerializedHash::Text(text) = form {
        printed_text_reads_back(kind, bytes, text@);
    }
}

/// The Borsh form of a hash, with anything behind it, is read as that hash and leaves what
/// was behind it.
pub proof fn borsh_form_reads_back(kind: HashKind, bytes: Seq<u8>, rest: Seq<u8>)
    requires
        bytes.len() == kind.size(),
    ensures
        kind.read_borsh(bytes + rest) == Some((bytes, rest)),
{
    assert((bytes + rest).take(kind.size() as int) =~= bytes);
    assert((bytes + rest).skip(kind.size() as int) =~= rest);
}

} // verus!
