//! Attribute type UUIDs in their 16-bit and 128-bit forms.

use vstd::prelude::*;

verus! {

/// UUID of the "Primary Service" declaration.
pub const UUID_PRIMARY_SERVICE: u16 = 0x2800;

/// UUID of the "Characteristic" declaration.
pub const UUID_CHARACTERISTIC: u16 = 0x2803;

/// UUID of the "Temperature Measurement" characteristic.
pub const UUID_TEMPERATURE_MEASUREMENT: u16 = 0x2A1C;

/// UUID of the "Environmental Sensing" service.
pub const UUID_ENVIRONMENTAL_SENSING: u16 = 0x181A;

/// The Bluetooth Base UUID `00000000-0000-1000-8000-00805F9B34FB`, most
/// significant byte first.
pub open spec fn base_uuid() -> Seq<u8> {
    seq![
        0x00u8, 0x00u8, 0x00u8, 0x00u8, 0x00u8, 0x00u8, 0x10u8, 0x00u8,
        0x80u8, 0x00u8, 0x00u8, 0x80u8, 0x5Fu8, 0x9Bu8, 0x34u8, 0xFBu8,
    ]
}

/// The full 128-bit UUID that the 16-bit alias `alias` stands for: the Base
/// UUID with the alias in its third and fourth byte.
pub open spec fn expand_uuid16(alias: u16) -> Seq<u8> {
    base_uuid().update(2, (alias / 256) as u8).update(3, (alias % 256) as u8)
}

/// The type of an attribute: a 16-bit alias or a full 128-bit UUID, the
/// latter as 16 bytes with the most significant first.
#[derive(Clone, Copy, Debug, PartialEq, Eq)]
pub enum AttUuid {
    Uuid16(u16),
    Uuid128([u8; 16]),
}

impl AttUuid {
    /// The 128-bit UUID that this value denotes.
    pub open spec fn full(self) -> Seq<u8> {
        match self {
            AttUuid::Uuid16(alias) => expand_uuid16(alias),
            AttUuid::Uuid128(bytes) => bytes@,
        }
    }

    /// Whether this value is `alias`, written short or in full.
    pub open spec fn denotes(self, alias: u16) -> bool {
        match self {
            AttUuid::Uuid16(own) => own == alias,
            AttUuid::Uuid128(bytes) => bytes@ == expand_uuid16(alias),
        }
    }

    /// Tells whether this UUID and the 16-bit alias `alias` are the same
    /// UUID. A 128-bit UUID equals an alias when it is that alias's expansion
    /// over the Bluetooth Base UUID.
    pub fn eq_uuid16(&self, alias: u16) -> (same: bool)
        ensures
            same == self.denotes(alias),
    {
        match self {
            AttUuid::Uuid16(own) => *own == alias,
            AttUuid::Uuid128(bytes) => uuid128_eq_uuid16(bytes, alias),
        }
    }
}

/// `rubble`'s comparison `AttUuid == Uuid16` for a 128-bit UUID, built with
/// `Uuid128::from_bytes`. The crate widens the alias to 32 bits, writes it
/// big-endian over the first four bytes of the Base UUID and compares the
/// sixteen bytes; the contract says the same over `expand_uuid16`. Not
/// proved: Verus does not read the crate.
#[verifier::external_body]
fn uuid128_eq_uuid16(bytes: &[u8; 16], alias: u16) -> (same: bool)
    ensures
        same == (bytes@ == expand_uuid16(alias)),
{
    let full = rubble::uuid::Uuid128::from_bytes(*bytes);
    rubble::att::AttUuid::Uuid128(full) == rubble::uuid::Uuid16(alias)
}

/// Two aliases are the same UUID exactly when they are the same number: the
/// expansion over the Base UUID loses nothing.
pub proof fn lemma_expand_uuid16_injective(a: u16, b: u16)
    ensures
        expand_uuid16(a) == expand_uuid16(b) <==> a == b,
{
    if expand_uuid16(a) == expand_uuid16(b) {
        assert(expand_uuid16(a)[2] == (a / 256) as u8);
        assert(expand_uuid16(b)[2] == (b / 256) as u8);
        assert(expand_uuid16(a)[3] == (a % 256) as u8);
        assert(expand_uuid16(b)[3] == (b % 256) as u8);
    }
}

/// An attribute type denotes an alias exactly when their 128-bit forms agree,
/// whichever way the type is written.
pub proof fn lemma_denotes_is_full_equality(uuid: AttUuid, alias: u16)
    ensures
        uuid.denotes(alias) <==> uuid.full() == expand_uuid16(alias),
{
    match uuid {
        AttUuid::Uuid16(own) => {
            lemma_expand_uuid16_injective(own, alias);
        },
        AttUuid::Uuid128(_) => {},
    }
}

} // verus!
