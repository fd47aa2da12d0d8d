//! Attributes: typed, handle-addressed, byte-valued records.

use vstd::prelude::*;
use crate::handle::Handle;
use crate::uuid::AttUuid;

verus! {

/// What an attribute is, as a mathematical value.
pub struct AttributeView {
    pub att_type: AttUuid,
    pub handle: Handle,
    pub value: Seq<u8>,
}

/// One attribute of an ATT server.
#[derive(Debug, PartialEq, Eq)]
pub struct Attribute {
    /// The type of the attribute, such as "Primary Service".
    pub att_type: AttUuid,
    /// The handle under which clients address the attribute.
    pub handle: Handle,
    /// The bytes that a read of the attribute returns.
    pub value: Vec<u8>,
}

impl View for Attribute {
    type V = AttributeView;

    open spec fn view(&self) -> AttributeView {
        AttributeView { att_type: self.att_type, handle: self.handle, value: self.value@ }
    }
}

impl Attribute {
    /// Makes an attribute. The reserved handle `0x0000` names no attribute.
    pub fn new(att_type: AttUuid, handle: Handle, value: Vec<u8>) -> (attr: Attribute)
        requires
            handle.0 != 0,
        ensures
            attr.att_type == att_type,
            attr.handle == handle,
            attr.value == value,
    {
        Attribute { att_type, handle, value }
    }

    /// The attribute's value as a slice.
    pub fn value(&self) -> (bytes: &[u8])
        ensures
            bytes@ == self.value@,
    {
        self.value.as_slice()
    }
}

/// The mathematical values of a run of attributes, in the same order.
pub open spec fn views(attrs: Seq<Attribute>) -> Seq<AttributeView> {
    attrs.map_values(|a: Attribute| a@)
}

} // verus!
