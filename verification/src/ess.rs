//! The attribute table of an Environmental Sensing Service with one
//! temperature characteristic.

use vstd::prelude::*;
use vstd::slice::{slice_subrange, slice_to_vec};
use crate::attribute::{views, Attribute, AttributeView};
use crate::handle::{Handle, HandleRange};
use crate::table::{
    contiguous, in_range, lemma_resolved_is_in_range, lemma_resolved_len,
    lemma_views_of_resolved, resolved, selected,
};
use crate::uuid::{
    AttUuid, UUID_CHARACTERISTIC, UUID_ENVIRONMENTAL_SENSING, UUID_PRIMARY_SERVICE,
    UUID_TEMPERATURE_MEASUREMENT,
};

verus! {

/// `rubble::Error`, the error that a callback of the BLE stack may return.
/// Nothing is claimed of its values: the table never looks inside one, it
/// only hands it on to its caller.
#[verifier::external_type_specification]
#[verifier::external_body]
pub struct ExError(rubble::Error);

/// Characteristic property bit: the value may be read.
pub const PROPERTY_READ: u8 = 0x02;

/// Characteristic property bit: the value may be notified.
pub const PROPERTY_NOTIFY: u8 = 0x10;

/// The properties of the temperature characteristic: read and notify.
pub const PROPERTIES: u8 = PROPERTY_READ | PROPERTY_NOTIFY;

/// Handle of the service declaration.
pub const HANDLE_SERVICE: u16 = 0x0001;

/// Handle of the characteristic declaration.
pub const HANDLE_CHARACTERISTIC: u16 = 0x0002;

/// Handle of the characteristic value, the live sensor reading.
pub const HANDLE_VALUE: u16 = 0x0003;

/// A source of sensor readings.
pub trait Sensor {
    /// The latest reading.
    fn value(&self) -> u32;
}

/// The service declaration: a Primary Service whose value is the UUID of
/// the Environmental Sensing service, least significant byte first.
pub open spec fn service_declaration() -> AttributeView {
    AttributeView {
        att_type: AttUuid::Uuid16(0x2800),
        handle: Handle(0x0001),
        value: seq![0x1Au8, 0x18u8],
    }
}

/// The characteristic declaration: the properties byte with the read and
/// the notify bit, then the handle of the value attribute and the UUID of
/// Temperature Measurement, both least significant byte first.
pub open spec fn characteristic_declaration() -> AttributeView {
    AttributeView {
        att_type: AttUuid::Uuid16(0x2803),
        handle: Handle(0x0002),
        value: seq![0x12u8, 0x03u8, 0x00u8, 0x1Cu8, 0x2Au8],
    }
}

/// The characteristic value while the sensor cell holds `value`.
pub open spec fn temperature_measurement(value: Seq<u8>) -> AttributeView {
    AttributeView { att_type: AttUuid::Uuid16(0x2A1C), handle: Handle(0x0003), value }
}

/// The table of the service while its sensor cell holds `value`.
pub open spec fn ess_table(value: Seq<u8>) -> Seq<AttributeView> {
    seq![service_declaration(), characteristic_declaration(), temperature_measurement(value)]
}

/// The two bytes of `x`, least significant first.
pub open spec fn le_bytes(x: u16) -> Seq<u8> {
    seq![(x % 256) as u8, (x / 256) as u8]
}

/// The declarations say what they are meant to say. The service declares
/// Environmental Sensing by its UUID. The characteristic declares its
/// properties, then the handle of its value, which is the handle that the
/// value attribute of the table carries, then Temperature Measurement, the
/// type of that attribute.
pub proof fn lemma_declarations(value: Seq<u8>)
    ensures
        service_declaration().att_type == AttUuid::Uuid16(UUID_PRIMARY_SERVICE),
        service_declaration().value == le_bytes(UUID_ENVIRONMENTAL_SENSING),
        characteristic_declaration().att_type == AttUuid::Uuid16(UUID_CHARACTERISTIC),
        characteristic_declaration().value == seq![PROPERTIES] + le_bytes(HANDLE_VALUE) + le_bytes(
            UUID_TEMPERATURE_MEASUREMENT,
        ),
        temperature_measurement(value).handle == Handle(HANDLE_VALUE),
        temperature_measurement(value).att_type == AttUuid::Uuid16(UUID_TEMPERATURE_MEASUREMENT),
{
    assert(PROPERTIES == 0x12) by (bit_vector);
    assert(service_declaration().value =~= le_bytes(UUID_ENVIRONMENTAL_SENSING));
    assert(characteristic_declaration().value =~= seq![PROPERTIES] + le_bytes(HANDLE_VALUE)
        + le_bytes(UUID_TEMPERATURE_MEASUREMENT));
}

/// The table that an update of the sensor cell with `bytes` leaves behind.
/// Bytes of the cell's own length replace its content; any other length
/// changes nothing.
pub open spec fn after_set_value(table: Seq<AttributeView>, bytes: Seq<u8>) -> Seq<AttributeView> {
    if bytes.len() == table[2].value.len() {
        table.update(2, temperature_measurement(bytes))
    } else {
        table
    }
}

/// What a walk over `attrs` with the callback `f` may return. `Ok` means
/// that `f` returned `Ok` for every attribute. `Err(e)` means that `f`
/// returned `e` for one attribute, after it had returned `Ok` for every
/// attribute before that one.
pub open spec fn walked<F: FnMut(&EnvironmentSensingService, &Attribute) -> Result<(), rubble::Error>>(
    f: F,
    svc: EnvironmentSensingService,
    attrs: Seq<Attribute>,
    r: Result<(), rubble::Error>,
) -> bool {
    match r {
        Ok(_) => forall|i: int|
            0 <= i < attrs.len() ==> call_ensures(
                f,
                (&svc, &#[trigger] attrs[i]),
                Ok::<(), rubble::Error>(()),
            ),
        Err(e) => exists|k: int|
            {
                &&& 0 <= k < attrs.len()
                &&& call_ensures(f, (&svc, &#[trigger] attrs[k]), Err::<(), rubble::Error>(e))
                &&& forall|i: int|
                    0 <= i < k ==> call_ensures(
                        f,
                        (&svc, &#[trigger] attrs[i]),
                        Ok::<(), rubble::Error>(()),
                    )
            },
    }
}

/// A sensor reading whose length is not that of the cell it was meant for.
#[derive(Clone, Copy, Debug, PartialEq, Eq, Structural)]
pub struct LengthMismatch {
    /// The length of the cell.
    pub expected: usize,
    /// The length of the rejected reading.
    pub actual: usize,
}

/// An attribute provider that enumerates as an Environmental Sensing Service.
///
/// The table is built once and keeps its three attributes, their types and
/// their handles for good. Only the bytes of the sensor cell, the value of
/// the attribute at handle `0x0003`, change, and never in number.
pub struct EnvironmentSensingService {
    attributes: Vec<Attribute>,
}

impl View for EnvironmentSensingService {
    type V = Seq<AttributeView>;

    /// The table, attribute by attribute.
    open spec fn view(&self) -> Seq<AttributeView> {
        views(self.attributes())
    }
}

impl EnvironmentSensingService {
    /// The attributes of the table, in table order.
    pub closed spec fn attributes(&self) -> Seq<Attribute> {
        self.attributes@
    }

    /// The bytes that the sensor cell holds.
    pub open spec fn cell(&self) -> Seq<u8> {
        self@[2].value
    }

    /// The table has the three attributes of the service and nothing else;
    /// only the bytes of the sensor cell are free.
    #[verifier::type_invariant]
    pub closed spec fn inv(&self) -> bool {
        &&& self.attributes@.len() == 3
        &&& self.attributes@[0]@ == service_declaration()
        &&& self.attributes@[1]@ == characteristic_declaration()
        &&& self.attributes@[2].att_type == AttUuid::Uuid16(0x2A1C)
        &&& self.attributes@[2].handle == Handle(0x0003)
    }

    /// Every service that upholds its invariant shows the table of the
    /// service around the bytes of its cell, with handles `1`, `2`, `3`.
    pub proof fn lemma_table_shape(self)
        requires
            self.inv(),
        ensures
            self@ == ess_table(self.cell()),
            self.attributes().len() == 3,
            contiguous(self@),
    {
        assert(self@ =~= ess_table(self.cell()));
    }

    /// Builds the table around the first sensor reading `data`. The length
    /// of `data` is the length of the sensor cell from then on.
    pub fn new(data: &[u8]) -> (svc: EnvironmentSensingService)
        ensures
            svc@ == ess_table(data@),
    {
        let service_uuid: Vec<u8> = vec![0x1A, 0x18];
        assert(PROPERTIES == 0x12) by (bit_vector);
        let declaration: Vec<u8> = vec![PROPERTIES, 0x03, 0x00, 0x1C, 0x2A];
        let reading: Vec<u8> = slice_to_vec(data);
        let mut attributes: Vec<Attribute> = Vec::new();
        attributes.push(
            Attribute::new(
                AttUuid::Uuid16(UUID_PRIMARY_SERVICE),
                Handle::from_raw(HANDLE_SERVICE),
                service_uuid,
            ),
        );
        attributes.push(
            Attribute::new(
                AttUuid::Uuid16(UUID_CHARACTERISTIC),
                Handle::from_raw(HANDLE_CHARACTERISTIC),
                declaration,
            ),
        );
        attributes.push(
            Attribute::new(
                AttUuid::Uuid16(UUID_TEMPERATURE_MEASUREMENT),
                Handle::from_raw(HANDLE_VALUE),
                reading,
            ),
        );
        assert(views(attributes@) =~= ess_table(data@));
        EnvironmentSensingService { attributes }
    }

    /// The attributes whose handles lie in `range`, in ascending handle
    /// order: none when the range starts beyond the last handle, and those
    /// up to the last handle when it ends beyond it.
    pub fn resolve(&self, range: HandleRange) -> (attrs: &[Attribute])
        ensures
            views(attrs@) == in_range(self@, range),
            views(attrs@) == resolved(self@, range),
            attrs@ == resolved(self.attributes(), range),
            attrs@.len() == selected(3, range),
    {
        proof {
            use_type_invariant(self);
            self.lemma_table_shape();
            lemma_resolved_is_in_range(self@, range);
            lemma_views_of_resolved(self.attributes(), range);
            lemma_resolved_len(self.attributes(), range);
        }
        let count = self.attributes.len();
        let start = range.start().as_u16();
        let end = range.end().as_u16();
        let lo: usize = if start == 0 {
            0
        } else {
            (start - 1) as usize
        };
        let hi: usize = if (end as usize) < count {
            end as usize
        } else {
            count
        };
        let all = self.attributes.as_slice();
        if lo < hi {
            slice_subrange(all, lo, hi)
        } else {
            slice_subrange(all, 0, 0)
        }
    }

    /// Calls `f` with every attribute whose handle lies in `range`, in
    /// ascending handle order. The first error that `f` returns ends the walk
    /// and is returned as it is; without one the result is `Ok`.
    pub fn for_attrs_in_range<F>(&self, range: HandleRange, f: F) -> (r: Result<
        (),
        rubble::Error,
    >) where F: FnMut(&Self, &Attribute) -> Result<(), rubble::Error>
        requires
            forall|i: int|
                0 <= i < resolved(self.attributes(), range).len() ==> call_requires(
                    f,
                    (self, &#[trigger] resolved(self.attributes(), range)[i]),
                ),
        ensures
            walked(f, *self, resolved(self.attributes(), range), r),
    {
        broadcast use vstd::function::group_function_axioms;

        let mut callback = f;
        let attrs = self.resolve(range);
        let count = attrs.len();
        let mut i: usize = 0;
        while i < count
            invariant
                i <= count,
                count == attrs@.len(),
                callback == f,
                attrs@ == resolved(self.attributes(), range),
                forall|k: int|
                    0 <= k < attrs@.len() ==> call_requires(f, (self, &#[trigger] attrs@[k])),
                forall|k: int|
                    0 <= k < i ==> call_ensures(
                        f,
                        (self, &#[trigger] attrs@[k]),
                        Ok::<(), rubble::Error>(()),
                    ),
            decreases count - i,
        {
            match callback(self, &attrs[i]) {
                Ok(unit) => {
                    assert(unit == ());
                },
                Err(e) => {
                    return Err(e);
                },
            }
            i += 1;
        }
        Ok(())
    }

    /// Whether `uuid` is a type that a "read by group type" request may ask
    /// for. Only the Primary Service declaration groups attributes here.
    pub fn is_grouping_attr(&self, uuid: AttUuid) -> (grouping: bool)
        ensures
            grouping == uuid.denotes(0x2800),
    {
        uuid.eq_uuid16(UUID_PRIMARY_SERVICE)
    }

    /// The last attribute of the group that starts at `handle`, if one
    /// starts there. The service spans the whole table, so its declaration
    /// and the characteristic declaration nested in it both end at the
    /// characteristic value. No other handle starts a group.
    pub fn group_end(&self, handle: Handle) -> (last: Option<&Attribute>)
        ensures
            last is Some <==> handle.0 == 1 || handle.0 == 2,
            last matches Some(attr) ==> *attr == self.attributes()[2] && attr@
                == temperature_measurement(self.cell()),
    {
        proof {
            use_type_invariant(self);
        }
        match handle.as_u16() {
            0x0001 => Some(&self.attributes[2]),
            0x0002 => Some(&self.attributes[2]),
            _ => None,
        }
    }

    /// The bytes that the sensor cell holds now.
    pub fn value(&self) -> (bytes: &[u8])
        ensures
            bytes@ == self.cell(),
    {
        proof {
            use_type_invariant(self);
        }
        self.attributes[2].value.as_slice()
    }

    /// Overwrites the sensor cell with `bytes`, in place. The cell keeps the
    /// length it was built with: a reading of another length is rejected
    /// with both lengths, and the table stays as it was.
    pub fn set_value(&mut self, bytes: &[u8]) -> (r: Result<(), LengthMismatch>)
        ensures
            r is Ok <==> bytes@.len() == old(self).cell().len(),
            r matches Err(e) ==> e.expected == old(self).cell().len() && e.actual == bytes@.len()
                && *final(self) == *old(self),
            final(self)@ == after_set_value(old(self)@, bytes@),
    {
        proof {
            use_type_invariant(&*self);
        }
        let expected = self.attributes[2].value.len();
        if bytes.len() != expected {
            return Err(LengthMismatch { expected, actual: bytes.len() });
        }
        let mut i: usize = 0;
        while i < expected
            invariant
                i <= expected,
                expected == bytes@.len(),
                self.inv(),
                self.attributes@[2].value@.len() == expected,
                forall|j: int| 0 <= j < i ==> self.attributes@[2].value@[j] == bytes@[j],
            decreases expected - i,
        {
            store_byte(&mut self.attributes, 2, i, bytes[i]);
            i += 1;
        }
        assert(self.attributes@[2].value@ =~= bytes@);
        assert(self@ =~= after_set_value(old(self)@, bytes@));
        Ok(())
    }
}

/// Stores `byte` at `offset` in the value of the attribute at `index`.
/// Every other byte and every other part of the table stays.
fn store_byte(attributes: &mut Vec<Attribute>, index: usize, offset: usize, byte: u8)
    requires
        index < old(attributes)@.len(),
        offset < old(attributes)@[index as int].value@.len(),
    ensures
        final(attributes)@.len() == old(attributes)@.len(),
        forall|k: int|
            0 <= k < old(attributes)@.len() && k != index ==> final(attributes)@[k] == old(
                attributes,
            )@[k],
        final(attributes)@[index as int].att_type == old(attributes)@[index as int].att_type,
        final(attributes)@[index as int].handle == old(attributes)@[index as int].handle,
        final(attributes)@[index as int].value@ == old(attributes)@[index as int].value@.update(
            offset as int,
            byte,
        ),
    no_unwind
{
    attributes[index].value[offset] = byte;
}

/// A reading that replaces the sensor cell is what the next read of handle
/// `0x0003` returns, byte for byte. A reading of another length is rejected:
/// the next read returns what the cell held before.
pub proof fn lemma_set_value_round_trip(value: Seq<u8>, bytes: Seq<u8>)
    ensures
        bytes.len() == value.len() ==> resolved(
            after_set_value(ess_table(value), bytes),
            HandleRange { start: Handle(3), end: Handle(3) },
        ) == seq![temperature_measurement(bytes)],
        bytes.len() != value.len() ==> resolved(
            after_set_value(ess_table(value), bytes),
            HandleRange { start: Handle(3), end: Handle(3) },
        ) == seq![temperature_measurement(value)],
        bytes.len() == value.len() ==> after_set_value(ess_table(value), bytes) == ess_table(bytes),
{
    let range = HandleRange { start: Handle(3), end: Handle(3) };
    let after = after_set_value(ess_table(value), bytes);
    if bytes.len() == value.len() {
        assert(after =~= ess_table(bytes));
        assert(resolved(after, range) =~= seq![temperature_measurement(bytes)]);
    } else {
        assert(resolved(after, range) =~= seq![temperature_measurement(value)]);
    }
}

} // verus!
