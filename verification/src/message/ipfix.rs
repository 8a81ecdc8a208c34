//! IPFIX template messages and the decoded form of IPFIX data records.
use std::sync::Arc;
use vstd::prelude::*;

verus! {

/// Raw IPFIX template bytes, shared between actors.
pub type IPFixTemplates = Arc<Vec<u8>>;

/// A set of IPFIX templates published for one telemetry session (or its
/// withdrawal).
#[derive(Debug, Clone)]
pub struct IPFixTemplatesMessage {
    pub key: String,
    pub templates: Option<IPFixTemplates>,
    pub object_names: Option<Vec<String>>,
    pub is_delete: bool,
}

impl IPFixTemplatesMessage {
    /// Templates for `key`, with the object names their labels refer to.
    pub fn new(key: String, templates: IPFixTemplates, object_names: Option<Vec<String>>) -> (r: Self)
        ensures
            r.key == key,
            r.templates == Some(templates),
            r.object_names == object_names,
            !r.is_delete,
    {
        Self { key, templates: Some(templates), object_names, is_delete: false }
    }

    /// Withdrawal of the templates of `key`.
    pub fn delete(key: String) -> (r: Self)
        ensures
            r.key == key,
            r.templates is None,
            r.object_names is None,
            r.is_delete,
    {
        Self { key, templates: None, object_names: None, is_delete: true }
    }
}

/// IPFIX field specifier: the information element a record field carries.
#[derive(Debug, Clone, Copy, PartialEq, Eq, Hash, Structural)]
pub struct IpfixFieldSpec {
    pub enterprise_number: Option<u32>,
    pub information_element_identifier: u16,
    pub field_length: u16,
}

impl IpfixFieldSpec {
    /// A field specifier (the argument order of the IPFIX parser's own).
    pub fn new(enterprise_number: Option<u32>, information_element_identifier: u16, field_length: u16) -> (r: Self)
        ensures
            r == (IpfixFieldSpec { enterprise_number, information_element_identifier, field_length }),
    {
        IpfixFieldSpec { enterprise_number, information_element_identifier, field_length }
    }
}

/// Value of a decoded IPFIX record field, as far as the daemon reads it.
#[derive(Debug, Clone, PartialEq)]
pub enum IpfixValue {
    /// Raw bytes (the decoding of every element the parser does not know).
    Bytes(Vec<u8>),
    U32(u32),
    U64(u64),
    String(String),
    /// Any other decoded value.
    Other,
}

/// Key of a decoded IPFIX record field: the daemon reads only elements the
/// parser does not recognise by name, by their specifier.
#[derive(Debug, Clone, PartialEq)]
pub enum IpfixFieldKey {
    Unrecognized(IpfixFieldSpec),
    /// An element the parser named, or a key it failed to decode.
    Other,
}

/// One field of a decoded data record.
#[derive(Debug, Clone, PartialEq)]
pub struct IpfixField {
    pub key: IpfixFieldKey,
    pub value: IpfixValue,
}

/// A decoded IPFIX data record: its fields, in the order the parser gives.
#[derive(Debug, Clone, PartialEq)]
pub struct IpfixDataRecord {
    pub values: Vec<IpfixField>,
}

/// One decoded IPFIX message, as far as the daemon reads it.
#[derive(Debug, Clone, PartialEq)]
pub struct IpfixParsedMessage {
    /// Template ids of the template records, in order.
    pub template_ids: Vec<u16>,
    /// For each set, in order: its set id if it is a data set.
    pub set_data_ids: Vec<Option<u16>>,
    /// Every data record of the message, in order.
    pub records: Vec<IpfixDataRecord>,
    /// For each set, in order: which kind of records it holds, numbered as
    /// the parser numbers them (0 templates, 1 options templates, 2 data).
    pub set_kinds: Vec<u8>,
    /// For each set, in order: how many data records it holds.
    pub set_record_counts: Vec<usize>,
    /// The field specifiers of each template record, in order.
    pub template_fields: Vec<Vec<IpfixFieldSpec>>,
}

} // verus!
