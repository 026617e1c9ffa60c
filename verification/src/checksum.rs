//! Checksums of serialized game states: FNV-1a (64 bits, widened to `u128`)
//! and Fletcher-16, computed over the bytes of an encoding.
use vstd::prelude::*;
use vstd::string::StringExecFns;

use crate::hash::{fnv1a_bytes, DeterministicHasher, FNV_OFFSET_BASIS};
use std::hash::Hasher;

verus! {

/// The FNV-1a hash of `bytes`, from the offset basis.
pub open spec fn fnv1a_of(bytes: Seq<u8>) -> u64 {
    fnv1a_bytes(FNV_OFFSET_BASIS, bytes)
}

/// The FNV-1a hash of `bytes`, widened to `u128`.
pub fn hash_bytes_fnv1a(bytes: &[u8]) -> (r: u128)
    ensures
        r == fnv1a_of(bytes@),
        r <= u64::MAX,
{
    let mut hasher = DeterministicHasher::new();
    hasher.write(bytes);
    hasher.finish() as u128
}

/// The two running sums of Fletcher-16 over `data`, each kept modulo 255:
/// the first sums the bytes, the second sums the successive first sums.
pub open spec fn fletcher_sums(data: Seq<u8>) -> (int, int)
    decreases data.len(),
{
    if data.len() == 0 {
        (0, 0)
    } else {
        let (s1, s2) = fletcher_sums(data.drop_last());
        let n1 = (s1 + data.last()) % 255;
        (n1, (s2 + n1) % 255)
    }
}

/// The Fletcher-16 checksum of `data`: the second sum in the high byte, the
/// first in the low byte.
pub open spec fn fletcher16_of(data: Seq<u8>) -> int {
    fletcher_sums(data).1 * 256 + fletcher_sums(data).0
}

/// Both sums of Fletcher-16 stay below 255.
proof fn lemma_fletcher_sums_bounded(data: Seq<u8>)
    ensures
        0 <= fletcher_sums(data).0 < 255,
        0 <= fletcher_sums(data).1 < 255,
    decreases data.len(),
{
    if data.len() > 0 {
        lemma_fletcher_sums_bounded(data.drop_last());
    }
}

/// The Fletcher-16 checksum of `data`.
pub fn fletcher16(data: &[u8]) -> (r: u16)
    ensures
        r == fletcher16_of(data@),
{
    let mut sum1: u16 = 0;
    let mut sum2: u16 = 0;
    let mut i: usize = 0;
    while i < data.len()
        invariant
            0 <= i <= data@.len(),
            (sum1 as int, sum2 as int) == fletcher_sums(data@.subrange(0, i as int)),
            sum1 < 255,
            sum2 < 255,
        decreases data@.len() - i,
    {
        let byte = data[i];
        proof {
            let next = data@.subrange(0, i + 1);
            assert(next.drop_last() =~= data@.subrange(0, i as int));
            assert(next.last() == byte);
        }
        sum1 = (sum1 + byte as u16) % 255;
        sum2 = (sum2 + sum1) % 255;
        i = i + 1;
    }
    proof {
        assert(data@.subrange(0, data@.len() as int) =~= data@);
        assert((sum2 << 8u16) | sum1 == sum2 * 256 + sum1) by (bit_vector)
            requires
                sum1 < 255,
                sum2 < 255,
        ;
    }
    (sum2 << 8u16) | sum1
}

/// The high and the low byte of a Fletcher-16 checksum are each at most 254,
/// since both sums are kept modulo 255.
pub proof fn law_fletcher16_components_bounded(data: Seq<u8>)
    ensures
        fletcher16_of(data) / 256 <= 254,
        fletcher16_of(data) % 256 <= 254,
{
    lemma_fletcher_sums_bounded(data);
    let (s1, s2) = fletcher_sums(data);
    vstd::arithmetic::div_mod::lemma_fundamental_div_mod_converse(fletcher16_of(data), 256, s2, s1);
}

/// Which checksum algorithm was in use.
#[derive(Debug, Clone, Copy, PartialEq, Eq, Structural, Hash)]
pub enum ChecksumAlgorithm {
    /// FNV-1a, 64 bits.
    Fnv1a,
    /// Fletcher-16.
    Fletcher16,
}

impl ChecksumAlgorithm {
    /// The displayed name: `FNV-1a` or `Fletcher-16`.
    pub open spec fn text(&self) -> Seq<char> {
        match *self {
            ChecksumAlgorithm::Fnv1a => "FNV-1a"@,
            ChecksumAlgorithm::Fletcher16 => "Fletcher-16"@,
        }
    }

    /// The displayed name as a string.
    pub fn to_string(&self) -> (r: String)
        ensures
            r@ == self.text(),
    {
        match *self {
            ChecksumAlgorithm::Fnv1a => String::from_str("FNV-1a"),
            ChecksumAlgorithm::Fletcher16 => String::from_str("Fletcher-16"),
        }
    }
}

/// Why a checksum could not be computed.
#[derive(Debug, Clone, Eq)]
pub enum ChecksumError {
    /// The state could not be encoded.
    SerializationFailed {
        /// The algorithm that was to be used.
        algorithm: ChecksumAlgorithm,
        /// What the encoder reported.
        message: String,
    },
}

/// Two errors are equal when they name the same algorithm and carry the
/// same message text.
impl PartialEq for ChecksumError {
    fn eq(&self, other: &Self) -> (r: bool) {
        match (self, other) {
            (
                ChecksumError::SerializationFailed { algorithm: a1, message: m1 },
                ChecksumError::SerializationFailed { algorithm: a2, message: m2 },
            ) => *a1 == *a2 && *m1 == *m2,
        }
    }
}

impl vstd::std_specs::cmp::PartialEqSpecImpl for ChecksumError {
    open spec fn obeys_eq_spec() -> bool {
        true
    }

    open spec fn eq_spec(&self, other: &Self) -> bool {
        self->algorithm == other->algorithm && self->message@ == other->message@
    }
}

/// A message text that an error can take: a string slice or a `String`.
pub trait IntoMessage {
    /// The characters of the message.
    spec fn message_view(&self) -> Seq<char>;

    /// The message as an owned `String`, with the same characters.
    fn into_message(self) -> (r: String)
        ensures
            r@ == self.message_view(),
    ;
}

impl<'a> IntoMessage for &'a str {
    open spec fn message_view(&self) -> Seq<char> {
        (**self)@
    }

    fn into_message(self) -> (r: String) {
        String::from_str(self)
    }
}

impl IntoMessage for String {
    open spec fn message_view(&self) -> Seq<char> {
        self@
    }

    fn into_message(self) -> (r: String) {
        self
    }
}

impl ChecksumError {
    /// A `SerializationFailed` error for `algorithm` carrying the text of
    /// `message`.
    pub fn serialization_failed<M: IntoMessage>(algorithm: ChecksumAlgorithm, message: M) -> (r:
        Self)
        ensures
            r is SerializationFailed,
            r->algorithm == algorithm,
            r->message@ == message.message_view(),
    {
        ChecksumError::SerializationFailed { algorithm, message: message.into_message() }
    }

    /// The displayed text: `<algorithm> checksum failed: serialization
    /// error: <message>`.
    pub open spec fn text(&self) -> Seq<char> {
        match self {
            ChecksumError::SerializationFailed { algorithm, message } => algorithm.text()
                + " checksum failed: serialization error: "@ + message@,
        }
    }

    /// The displayed text as a string.
    pub fn to_string(&self) -> (r: String)
        ensures
            r@ == self.text(),
    {
        match self {
            ChecksumError::SerializationFailed { algorithm, message } => {
                let mut s = algorithm.to_string();
                s.append(" checksum failed: serialization error: ");
                s.append(message.as_str());
                s
            },
        }
    }
}

/// The checksum of a state with `algorithm`, given the outcome of encoding
/// it: the FNV-1a hash or the Fletcher-16 checksum of the encoded bytes, or
/// a `SerializationFailed` error carrying the encoder's message.
pub fn checksum_of_encoding(algorithm: ChecksumAlgorithm, encoded: Result<Vec<u8>, String>) -> (r:
    Result<u128, ChecksumError>)
    ensures
        r == match encoded {
            Ok(bytes) => Ok::<u128, ChecksumError>(
                match algorithm {
                    ChecksumAlgorithm::Fnv1a => fnv1a_of(bytes@) as u128,
                    ChecksumAlgorithm::Fletcher16 => fletcher16_of(bytes@) as u128,
                },
            ),
            Err(message) => Err(ChecksumError::SerializationFailed { algorithm, message }),
        },
{
    match encoded {
        Ok(bytes) => match algorithm {
            ChecksumAlgorithm::Fnv1a => Ok(hash_bytes_fnv1a(bytes.as_slice())),
            ChecksumAlgorithm::Fletcher16 => Ok(fletcher16(bytes.as_slice()) as u128),
        },
        Err(message) => Err(ChecksumError::SerializationFailed { algorithm, message }),
    }
}

} // verus!
