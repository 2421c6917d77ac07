//! The record that tells the kernel which algorithm an endpoint is for.
//!
//! Its layout is the kernel's `sockaddr_alg`: a family number, the transform
//! type in 14 bytes, two feature words, and the transform name in 64 bytes.
//! Both texts are stored from the first byte on, and whatever they leave of
//! their field is zero.

use vstd::prelude::*;
use vstd::string::*;
use crate::error::JitterError;

verus! {

/// The number of bytes that hold the transform type.
pub const TYPE_CAPACITY: usize = 14;

/// The number of bytes that hold the transform name.
pub const NAME_CAPACITY: usize = 64;

/// The size in bytes of the record as the kernel lays it out.
pub const SELECTOR_LEN: u32 = 88;

/// The socket family of the kernel's crypto interface.
pub const ALG_FAMILY: i32 = 38;

/// The socket type of a family endpoint.
pub const ENDPOINT_TYPE: i32 = 5;

/// `text` from index 0 on, followed by zeros up to `capacity` bytes.
pub open spec fn zero_padded(text: Seq<u8>, capacity: nat) -> Seq<u8> {
    Seq::new(capacity, |i: int| if i < text.len() { text[i] } else { 0u8 })
}

/// An algorithm selector, field by field as the kernel reads it.
#[derive(Debug, Clone, Copy)]
pub struct AlgSelector {
    pub family: u16,
    pub kind: [u8; 14],
    pub feat: u32,
    pub mask: u32,
    pub name: [u8; 64],
}

/// Reads libc's `AF_ALG`, which libc defines as 38 on every Linux target.
#[verifier::external_body]
pub(crate) fn alg_family() -> (family: i32)
    ensures
        family == ALG_FAMILY,
{
    libc::AF_ALG
}

/// Reads libc's `SOCK_SEQPACKET`, which libc defines as 5 on every Linux
/// target.
#[verifier::external_body]
pub(crate) fn endpoint_type() -> (kind: i32)
    ensures
        kind == ENDPOINT_TYPE,
{
    libc::SOCK_SEQPACKET
}

/// Copies `text` into a zeroed field of `N` bytes, if it fits.
pub fn padded_field<const N: usize>(text: &[u8]) -> (field: Result<[u8; N], JitterError>)
    ensures
        text@.len() > N ==> field == Err::<[u8; N], JitterError>(JitterError::FieldOverflow),
        text@.len() <= N ==> field is Ok && field->Ok_0@ == zero_padded(text@, N as nat),
{
    if text.len() > N {
        return Err(JitterError::FieldOverflow);
    }
    let mut field: [u8; N] = [0u8; N];
    let mut i: usize = 0;
    while i < text.len()
        invariant
            i <= text@.len() <= N,
            forall|j: int| 0 <= j < i ==> field@[j] == text@[j],
            forall|j: int| i <= j < N ==> field@[j] == 0u8,
        decreases text@.len() - i,
    {
        field[i] = text[i];
        i += 1;
    }
    assert(field@ =~= zero_padded(text@, N as nat));
    Ok(field)
}

impl AlgSelector {
    /// Whether the three values fit the record's fields.
    pub open spec fn fits(family: int, kind: Seq<u8>, name: Seq<u8>) -> bool {
        &&& 0 <= family <= u16::MAX
        &&& kind.len() <= TYPE_CAPACITY
        &&& name.len() <= NAME_CAPACITY
    }

    /// Whether the record holds exactly these three values, zero-padded, and
    /// no feature bits.
    pub open spec fn holds(&self, family: int, kind: Seq<u8>, name: Seq<u8>) -> bool {
        &&& self.family == family
        &&& self.kind@ == zero_padded(kind, TYPE_CAPACITY as nat)
        &&& self.feat == 0
        &&& self.mask == 0
        &&& self.name@ == zero_padded(name, NAME_CAPACITY as nat)
    }

    /// Builds the selector for a transform of type `kind` and name `name` in
    /// socket family `family`.
    ///
    /// A value that does not fit its field is an error; nothing is cut off.
    pub fn new(family: i32, kind: &str, name: &str) -> (selector: Result<AlgSelector, JitterError>)
        ensures
            !Self::fits(family as int, kind.spec_bytes(), name.spec_bytes()) ==> selector == Err::<
                AlgSelector,
                JitterError,
            >(JitterError::FieldOverflow),
            Self::fits(family as int, kind.spec_bytes(), name.spec_bytes()) ==> selector is Ok
                && selector->Ok_0.holds(family as int, kind.spec_bytes(), name.spec_bytes()),
    {
        let family_field: u16 = match u16::try_from(family) {
            Ok(number) => number,
            Err(_) => { return Err(JitterError::FieldOverflow); },
        };
        let kind_field: [u8; 14] = match padded_field::<14>(kind.as_bytes()) {
            Ok(field) => field,
            Err(e) => { return Err(e); },
        };
        let name_field: [u8; 64] = match padded_field::<64>(name.as_bytes()) {
            Ok(field) => field,
            Err(e) => { return Err(e); },
        };
        Ok(AlgSelector { family: family_field, kind: kind_field, feat: 0, mask: 0, name: name_field })
    }

    /// The bytes of `"rng"`, the transform type of a random number generator.
    pub open spec fn rng_type() -> Seq<u8> {
        seq![0x72u8, 0x6eu8, 0x67u8]
    }

    /// The bytes of `"jitterentropy_rng"`, the kernel's name for its jitter
    /// entropy source.
    pub open spec fn rng_name() -> Seq<u8> {
        seq![
            0x6au8, 0x69u8, 0x74u8, 0x74u8, 0x65u8, 0x72u8, 0x65u8, 0x6eu8, 0x74u8, 0x72u8,
            0x6fu8, 0x70u8, 0x79u8, 0x5fu8, 0x72u8, 0x6eu8, 0x67u8,
        ]
    }

    /// The selector of the kernel's jitter entropy generator.
    ///
    /// Both names fit their fields, so this never fails.
    pub fn jitterentropy() -> (selector: Result<AlgSelector, JitterError>)
        ensures
            selector is Ok,
            selector->Ok_0.holds(ALG_FAMILY as int, Self::rng_type(), Self::rng_name()),
    {
        proof {
            reveal_strlit("rng");
            reveal_strlit("jitterentropy_rng");
            is_ascii_spec_bytes("rng");
            is_ascii_spec_bytes("jitterentropy_rng");
            assert("rng".spec_bytes() =~= Self::rng_type());
            assert("jitterentropy_rng".spec_bytes() =~= Self::rng_name());
        }
        AlgSelector::new(alg_family(), "rng", "jitterentropy_rng")
    }
}

} // verus!
