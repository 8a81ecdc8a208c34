//! The IPFIX decoder of the `ipfixrw` crate, and the daemon's view of what it
//! decodes.
//!
//! The decoder keeps the templates it has read; a data set can be decoded
//! only with the template of its set id. Decoded messages are handed to the
//! verified logic as `IpfixParsedMessage` values.
use std::cell::RefCell;
use std::rc::Rc;
use ahash::{HashMap, HashMapExt};
use ipfixrw::information_elements::Formatter;
use ipfixrw::parse_ipfix_message;
use ipfixrw::parser::{DataRecord, DataRecordKey, DataRecordValue, FieldSpecifier, Message, Records};
use ipfixrw::template_store::TemplateStore;
use vstd::prelude::*;
use crate::actor::ipfix_templates::{spec_message_templates_read_data, spec_store_reads_data, FieldSpecView};
use crate::message::ipfix::{IpfixDataRecord, IpfixField, IpfixFieldKey, IpfixFieldSpec, IpfixParsedMessage, IpfixValue};

verus! {

#[verifier::external_type_specification]
#[verifier::external_body]
pub struct ExIpfixMessage(Message);

#[verifier::external_type_specification]
#[verifier::external_body]
pub struct ExIpfixRecords(Records);

#[verifier::external_type_specification]
#[verifier::external_body]
pub struct ExIpfixDataRecord(DataRecord);

#[verifier::external_type_specification]
#[verifier::external_body]
pub struct ExIpfixDataRecordKey(DataRecordKey);

#[verifier::external_type_specification]
#[verifier::external_body]
pub struct ExIpfixDataRecordValue(DataRecordValue);

#[verifier::external_type_specification]
#[verifier::external_body]
pub struct ExIpfixFieldSpecifier(FieldSpecifier);

/// An `ipfixrw` decoder: its template store (the templates read so far, by
/// template id) and its formatter (no named information elements, so every
/// field is decoded as raw bytes under its field specifier).
#[verifier::external_body]
pub struct IpfixDecoder {
    templates: TemplateStore,
    formatter: Rc<Formatter>,
}

/// The templates held by the store of a decoder: for each template id, the
/// field specifiers of its template (or options template), in order.
pub uninterp spec fn decoder_templates(d: IpfixDecoder) -> Map<u16, Seq<FieldSpecView>>;

/// What `ipfixrw::parse_ipfix_message` makes of `bytes` with a store that
/// holds `store`, and what the store holds afterwards. A decoded message is
/// given as the template ids of its template records, the set id of each
/// of its sets that is a data set (`None` for the others), the fields of
/// each of its data records as a map from field specifier to bytes, the
/// kind of each set (0 templates, 1 options templates, 2 data), the number
/// of data records of each set, and the field specifiers of each template
/// record; `None` where the crate reports an error.
pub uninterp spec fn ipfix_parse(store: Map<u16, Seq<FieldSpecView>>, bytes: Seq<u8>) -> (
    Option<(Seq<u16>, Seq<Option<u16>>, Seq<Map<FieldSpecView, Seq<u8>>>, Seq<u8>, Seq<usize>, Seq<Seq<FieldSpecView>>)>,
    Map<u16, Seq<FieldSpecView>>,
);

/// The field specifier of a record field, when its key is one.
pub open spec fn spec_field_spec_view(f: IpfixField) -> Option<FieldSpecView> {
    match f.key {
        IpfixFieldKey::Unrecognized(s) => Some((s.enterprise_number, s.information_element_identifier, s.field_length)),
        IpfixFieldKey::Other => None,
    }
}

/// Whether the fields of a data record are, in some order, the entries of
/// `m`: every key is a field specifier, no two fields share one, and every
/// value is the bytes `m` gives its specifier.
pub open spec fn spec_fields_are(fields: Seq<IpfixField>, m: Map<FieldSpecView, Seq<u8>>) -> bool {
    &&& m.dom().finite()
    &&& fields.len() == m.dom().len()
    &&& forall|i: int| 0 <= i < fields.len() ==> {
        &&& (#[trigger] spec_field_spec_view(fields[i])) matches Some(k)
        &&& m.dom().contains(k)
        &&& fields[i].value matches IpfixValue::Bytes(b)
        &&& b@ == m[k]
    }
    &&& forall|i: int, j: int| 0 <= i < j < fields.len() ==> spec_field_spec_view(#[trigger] fields[i]) != spec_field_spec_view(
        #[trigger] fields[j],
    )
}

/// Whether a decoded message is, up to the order of the fields of each
/// record, the message `d` that `ipfix_parse` names.
pub open spec fn spec_message_is(
    m: IpfixParsedMessage,
    d: (Seq<u16>, Seq<Option<u16>>, Seq<Map<FieldSpecView, Seq<u8>>>, Seq<u8>, Seq<usize>, Seq<Seq<FieldSpecView>>),
) -> bool {
    &&& m.template_ids@ == d.0
    &&& m.set_data_ids@ == d.1
    &&& m.records@.len() == d.2.len()
    &&& forall|i: int| 0 <= i < d.2.len() ==> spec_fields_are(#[trigger] m.records@[i].values@, d.2[i])
    &&& m.set_kinds@ == d.3
    &&& m.set_record_counts@ == d.4
    &&& m.template_fields@.len() == d.5.len()
    &&& m.set_kinds@.len() == m.set_data_ids@.len()
    &&& m.set_record_counts@.len() == m.set_data_ids@.len()
    &&& m.template_fields@.len() == m.template_ids@.len()
    &&& forall|i: int| 0 <= i < d.5.len() ==> (#[trigger] m.template_fields@[i])@.map_values(
        |f: IpfixFieldSpec| (f.enterprise_number, f.information_element_identifier, f.field_length),
    ) == d.5[i]
}

impl IpfixDecoder {
    /// A decoder with an empty template store
    /// (`Rc::new(RefCell::new(HashMap::new()))`) and an empty `Formatter`.
    #[verifier::external_body]
    pub(crate) fn new() -> (r: Self)
        ensures
            decoder_templates(r).dom() == Set::<u16>::empty(),
    {
        IpfixDecoder {
            templates: Rc::new(RefCell::new(HashMap::new())),
            formatter: Rc::new(Formatter::new()),
        }
    }

    /// `ipfixrw::parse_ipfix_message` on `bytes` with this decoder's store:
    /// `None` where the crate reports an error. The decoded message and the
    /// store afterwards are named by `ipfix_parse`; the fields of a data
    /// record come in the order of the crate's hash map, which each process
    /// seeds anew, so only the fields themselves are fixed. With an empty
    /// formatter every field is keyed by its specifier and holds raw bytes.
    /// The store gains only the template records of the message's template
    /// sets; a data set read with a template whose fields all have length 0
    /// would never end, hence the preconditions that no such template is
    /// stored or in the message.
    #[verifier::external_body]
    pub(crate) fn decode(&mut self, bytes: &[u8]) -> (r: Option<IpfixParsedMessage>)
        requires
            spec_store_reads_data(decoder_templates(*old(self))),
            spec_message_templates_read_data(bytes@),
        ensures
            decoder_templates(*final(self)) == ipfix_parse(decoder_templates(*old(self)), bytes@).1,
            r is Some <==> ipfix_parse(decoder_templates(*old(self)), bytes@).0 is Some,
            r matches Some(m) ==> spec_message_is(m, ipfix_parse(decoder_templates(*old(self)), bytes@).0->0),
            spec_store_reads_data(decoder_templates(*final(self))),
    {
        match parse_ipfix_message(&bytes, self.templates.clone(), self.formatter.clone()) {
            Ok(message) => Some(parsed_message_model(&message)),
            Err(_) => None,
        }
    }
}

/// The daemon's view of a decoded message: the ids of its template records
/// (`iter_template_records`), the set id of each of its sets that is a data
/// set, and its data records (`iter_data_records`), in order.
#[verifier::external_body]
fn parsed_message_model(m: &Message) -> (r: IpfixParsedMessage) {
    IpfixParsedMessage {
        template_ids: m.iter_template_records().map(|t| t.template_id).collect(),
        set_data_ids: m.sets.iter().map(|s| data_set_id(&s.records)).collect(),
        records: m.iter_data_records().map(|d| data_record_model(d)).collect(),
        set_kinds: m.sets.iter().map(|s| set_kind(&s.records)).collect(),
        set_record_counts: m.sets.iter().map(|s| set_record_count(&s.records)).collect(),
        template_fields: m.iter_template_records().map(|t| t.field_specifiers.iter().map(|f| field_spec_model(f)).collect()).collect(),
    }
}

/// The set id of a data set; `None` for a template or options template set.
#[verifier::external_body]
fn data_set_id(records: &Records) -> (r: Option<u16>) {
    match records {
        Records::Data { set_id, data: _ } => Some(*set_id),
        Records::Template(_) => None,
        Records::OptionsTemplate(_) => None,
    }
}

/// The kind of records of a set, numbered as the parser's `Records`
/// variants are.
#[verifier::external_body]
fn set_kind(records: &Records) -> (r: u8) {
    match records {
        Records::Template(_) => 0,
        Records::OptionsTemplate(_) => 1,
        Records::Data { set_id: _, data: _ } => 2,
    }
}

/// The number of data records of a set; 0 for a template set.
#[verifier::external_body]
fn set_record_count(records: &Records) -> (r: usize) {
    match records {
        Records::Data { set_id: _, data } => data.len(),
        Records::Template(_) => 0,
        Records::OptionsTemplate(_) => 0,
    }
}

/// A field specifier of a template record.
#[verifier::external_body]
fn field_spec_model(f: &FieldSpecifier) -> (r: IpfixFieldSpec) {
    IpfixFieldSpec {
        enterprise_number: f.enterprise_number,
        information_element_identifier: f.information_element_identifier,
        field_length: f.field_length,
    }
}

/// The fields of a data record, in the order of its map.
#[verifier::external_body]
fn data_record_model(d: &DataRecord) -> (r: IpfixDataRecord) {
    IpfixDataRecord {
        values: d.values.iter().map(|(k, v)| IpfixField { key: field_key_model(k), value: field_value_model(v) }).collect(),
    }
}

/// The key of a field: its specifier when the element is not named.
#[verifier::external_body]
fn field_key_model(k: &DataRecordKey) -> (r: IpfixFieldKey) {
    match k {
        DataRecordKey::Unrecognized(spec) => IpfixFieldKey::Unrecognized(
            IpfixFieldSpec {
                enterprise_number: spec.enterprise_number,
                information_element_identifier: spec.information_element_identifier,
                field_length: spec.field_length,
            },
        ),
        DataRecordKey::Str(_) => IpfixFieldKey::Other,
        DataRecordKey::Err(_) => IpfixFieldKey::Other,
    }
}

/// The value of a field, for the kinds the daemon reads.
#[verifier::external_body]
fn field_value_model(v: &DataRecordValue) -> (r: IpfixValue) {
    match v {
        DataRecordValue::Bytes(bytes) => IpfixValue::Bytes(bytes.clone()),
        DataRecordValue::U32(x) => IpfixValue::U32(*x),
        DataRecordValue::U64(x) => IpfixValue::U64(*x),
        DataRecordValue::String(s) => IpfixValue::String(s.clone()),
        _ => IpfixValue::Other,
    }
}

} // verus!
