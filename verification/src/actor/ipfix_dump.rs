//! A readable dump of a decoded IPFIX message, for debug logging: its sets,
//! the fields of its data records, and its template records.
use vstd::prelude::*;
use crate::actor::ipfix_decoder::{ipfix_parse, spec_message_is, IpfixDecoder};
use crate::actor::ipfix_templates::{spec_message_templates_read_data, FieldSpecView};
use crate::message::ipfix::{IpfixDataRecord, IpfixField, IpfixFieldKey, IpfixFieldSpec, IpfixParsedMessage, IpfixValue};
use crate::text::{chars_of, decimal_chars, spec_decimal, string_from_chars};
use crate::wire::{be_u16_at, be_u32_at, be_u64_at, read_be_u16, read_be_u32, read_be_u64};

verus! {

/// Lower-case hexadecimal digit of `n` (below 16).
pub open spec fn spec_hex_digit(n: nat) -> char {
    if n < 10 { (48 + n) as char } else { (87 + n) as char }
}

/// A byte as two lower-case hexadecimal digits.
pub open spec fn spec_hex_byte(b: u8) -> Seq<char> {
    seq![spec_hex_digit((b / 16) as nat), spec_hex_digit((b % 16) as nat)]
}

/// Bytes in hexadecimal, separated by single spaces.
pub open spec fn spec_hex_join(bytes: Seq<u8>) -> Seq<char>
    decreases bytes.len(),
{
    if bytes.len() == 0 {
        Seq::empty()
    } else if bytes.len() == 1 {
        spec_hex_byte(bytes[0])
    } else {
        spec_hex_join(bytes.drop_last()) + seq![' '] + spec_hex_byte(bytes.last())
    }
}

/// How the dump shows a field value: raw bytes of the widths of the
/// unsigned integers as that integer and in hexadecimal, other short byte
/// strings in hexadecimal, and long ones by their length and first eight
/// bytes.
pub open spec fn spec_value_text(v: IpfixValue) -> Seq<char> {
    match v {
        IpfixValue::Bytes(b) => {
            let b = b@;
            let n = b.len();
            if n <= 8 {
                let hx = spec_hex_join(b);
                if n == 1 {
                    "u8="@ + spec_decimal(b[0] as nat) + ", hex=["@ + hx + "]"@
                } else if n == 2 {
                    "u16="@ + spec_decimal(be_u16_at(b, 0) as nat) + ", hex=["@ + hx + "]"@
                } else if n == 4 {
                    "u32="@ + spec_decimal(be_u32_at(b, 0) as nat) + ", hex=["@ + hx + "]"@
                } else if n == 8 {
                    "u64="@ + spec_decimal(be_u64_at(b, 0) as nat) + ", hex=["@ + hx + "]"@
                } else {
                    "bytes("@ + spec_decimal(n) + ")=["@ + hx + "]"@
                }
            } else {
                "bytes("@ + spec_decimal(n) + ")=["@ + spec_hex_join(b.take(8)) + " ...]"@
            }
        },
        IpfixValue::U32(x) => "u32="@ + spec_decimal(x as nat),
        IpfixValue::U64(x) => "u64="@ + spec_decimal(x as nat),
        IpfixValue::String(s) => "string=\""@ + s@ + "\""@,
        IpfixValue::Other => "unknown_value"@,
    }
}

/// An enterprise number, or `None`.
pub open spec fn spec_enterprise_text(e: Option<u32>) -> Seq<char> {
    match e {
        Some(x) => spec_decimal(x as nat),
        None => "None"@,
    }
}

/// How the dump names a field.
pub open spec fn spec_key_text(k: IpfixFieldKey) -> Seq<char> {
    match k {
        IpfixFieldKey::Unrecognized(s) => "Field(id="@ + spec_decimal(s.information_element_identifier as nat) + ", enterprise="@
            + spec_enterprise_text(s.enterprise_number) + ")"@,
        IpfixFieldKey::Other => "Other Field"@,
    }
}

/// The lines of the fields of a record.
pub open spec fn spec_fields_text(fields: Seq<IpfixField>) -> Seq<char>
    decreases fields.len(),
{
    if fields.len() == 0 {
        Seq::empty()
    } else {
        spec_fields_text(fields.drop_last()) + "          "@ + spec_key_text(fields.last().key) + ": "@ + spec_value_text(
            fields.last().value,
        ) + "\n"@
    }
}

/// The lines of the data record numbered `k` (from 0) in its set.
pub open spec fn spec_record_text(k: nat, rec: IpfixDataRecord) -> Seq<char> {
    "        Record "@ + spec_decimal(k + 1) + " ("@ + spec_decimal(rec.values@.len()) + " fields):\n"@ + spec_fields_text(
        rec.values@,
    )
}

/// The lines of the first `count` records of a set whose records start at
/// `start` among the records of the message.
pub open spec fn spec_set_records_text(records: Seq<IpfixDataRecord>, start: int, count: nat) -> Seq<char>
    decreases count,
{
    if count == 0 {
        Seq::empty()
    } else {
        let k = (count - 1) as nat;
        spec_set_records_text(records, start, k) + if 0 <= start + k < records.len() {
            spec_record_text(k, records[start + k])
        } else {
            Seq::empty()
        }
    }
}

/// The line of field `j` (from 0) of a template record.
pub open spec fn spec_template_field_text(j: nat, f: IpfixFieldSpec) -> Seq<char> {
    "          Field "@ + spec_decimal(j + 1) + ": ID="@ + spec_decimal(f.information_element_identifier as nat) + ", length="@
        + spec_decimal(f.field_length as nat) + ", enterprise="@ + spec_enterprise_text(f.enterprise_number) + "\n"@
}

/// The lines of the first `n` fields of a template record.
pub open spec fn spec_template_fields_text(fields: Seq<IpfixFieldSpec>, n: nat) -> Seq<char>
    decreases n,
{
    if n == 0 {
        Seq::empty()
    } else {
        let j = (n - 1) as nat;
        spec_template_fields_text(fields, j) + spec_template_field_text(j, fields[j as int])
    }
}

/// The lines of the first `n` template records of a message.
pub open spec fn spec_templates_text(m: IpfixParsedMessage, n: nat) -> Seq<char>
    decreases n,
{
    if n == 0 {
        Seq::empty()
    } else {
        let i = (n - 1) as nat;
        let fields = m.template_fields@[i as int]@;
        spec_templates_text(m, i) + "        Template "@ + spec_decimal(i + 1) + " (ID: "@ + spec_decimal(
            m.template_ids@[i as int] as nat,
        ) + ", field_count: "@ + spec_decimal(fields.len()) + "):\n"@ + spec_template_fields_text(fields, fields.len())
    }
}

/// The heading line of set `s` (from 0).
pub open spec fn spec_set_head(m: IpfixParsedMessage, s: int) -> Seq<char> {
    "      Set "@ + spec_decimal((s + 1) as nat) + " (records type: Discriminant("@ + spec_decimal(m.set_kinds@[s] as nat)
        + ")):\n"@
}

/// The lines of data set `s` after its heading, its records starting at
/// `start` among the records of the message.
pub open spec fn spec_data_set_body(m: IpfixParsedMessage, s: int, id: u16, start: int) -> Seq<char> {
    "        Type: Data Set (template_id: "@ + spec_decimal(id as nat) + ")\n"@ + "        Data records count: "@
        + spec_decimal(m.set_record_counts@[s] as nat) + "\n"@ + spec_set_records_text(
        m.records@,
        start,
        m.set_record_counts@[s] as nat,
    )
}

/// The lines of a set that holds no data, after its heading: every template
/// record of the message.
pub open spec fn spec_template_set_body(m: IpfixParsedMessage) -> Seq<char> {
    "        Type: Template or other set type\n"@ + if m.template_ids@.len() > 0 {
        "        Templates found: "@ + spec_decimal(m.template_ids@.len()) + "\n"@ + spec_templates_text(
            m,
            m.template_ids@.len(),
        )
    } else {
        Seq::empty()
    }
}

/// The lines of set `s` (from 0), whose data records start at `start`
/// among the records of the message. A set that holds no data lists every
/// template record of the message.
pub open spec fn spec_set_text(m: IpfixParsedMessage, s: int, start: int) -> Seq<char> {
    spec_set_head(m, s) + match m.set_data_ids@[s] {
        Some(id) => spec_data_set_body(m, s, id, start),
        None => spec_template_set_body(m),
    }
}

/// Where the data records of set `s` start: the data records of the sets
/// before it come first.
pub open spec fn spec_records_before(counts: Seq<usize>, s: int) -> int
    decreases s,
{
    if s <= 0 {
        0
    } else {
        spec_records_before(counts, s - 1) + counts[s - 1]
    }
}

/// The lines of the first `n` sets of a message.
pub open spec fn spec_sets_text(m: IpfixParsedMessage, n: nat) -> Seq<char>
    decreases n,
{
    if n == 0 {
        Seq::empty()
    } else {
        let s = (n - 1) as int;
        spec_sets_text(m, s as nat) + spec_set_text(m, s, spec_records_before(m.set_record_counts@, s))
    }
}

/// Whether the per-set lists of a decoded message agree in length, as the
/// decoder gives them.
pub open spec fn spec_sets_aligned(m: IpfixParsedMessage) -> bool {
    &&& m.set_kinds@.len() == m.set_data_ids@.len()
    &&& m.set_record_counts@.len() == m.set_data_ids@.len()
    &&& m.template_fields@.len() == m.template_ids@.len()
}

/// The dump of a decoded message: the lines of each of its sets.
pub open spec fn spec_debug_dump(m: IpfixParsedMessage) -> Seq<char> {
    spec_sets_text(m, m.set_data_ids@.len())
}

/// Appends the characters of `s`.
fn push_text(out: &mut Vec<char>, s: &str)
    ensures
        final(out)@ == old(out)@ + s@,
{
    let mut c = chars_of(s);
    out.append(&mut c);
}

/// Appends `n` in decimal.
fn push_decimal(out: &mut Vec<char>, n: u64)
    ensures
        final(out)@ == old(out)@ + spec_decimal(n as nat),
{
    let mut c = decimal_chars(n);
    out.append(&mut c);
}

/// A hexadecimal digit.
fn hex_digit(n: u8) -> (r: char)
    requires
        n < 16,
    ensures
        r == spec_hex_digit(n as nat),
{
    if n < 10 { (48 + n) as char } else { (87 + n) as char }
}

/// Appends `bytes` in hexadecimal, separated by spaces.
fn push_hex_join(out: &mut Vec<char>, bytes: &[u8])
    ensures
        final(out)@ == old(out)@ + spec_hex_join(bytes@),
{
    let ghost start = out@;
    let mut i: usize = 0;
    while i < bytes.len()
        invariant
            i <= bytes@.len(),
            out@ == start + spec_hex_join(bytes@.take(i as int)),
        decreases bytes@.len() - i,
    {
        assert(bytes@.take(i + 1).drop_last() =~= bytes@.take(i as int));
        if i > 0 {
            out.push(' ');
        }
        let b = bytes[i];
        out.push(hex_digit(b / 16));
        out.push(hex_digit(b % 16));
        proof {
            if i == 0 {
                assert(bytes@.take(1) =~= seq![b]);
            }
            assert(out@ =~= start + spec_hex_join(bytes@.take(i + 1)));
        }
        i = i + 1;
    }
    assert(bytes@.take(bytes@.len() as int) =~= bytes@);
}

/// Appends how the dump shows a field value.
fn push_value(out: &mut Vec<char>, v: &IpfixValue)
    ensures
        final(out)@ == old(out)@ + spec_value_text(*v),
{
    let ghost start = out@;
    match v {
        IpfixValue::Bytes(b) => {
            let n = b.len();
            if n <= 8 {
                if n == 1 {
                    push_text(out, "u8=");
                    push_decimal(out, b[0] as u64);
                } else if n == 2 {
                    push_text(out, "u16=");
                    push_decimal(out, read_be_u16(b.as_slice()) as u64);
                } else if n == 4 {
                    push_text(out, "u32=");
                    push_decimal(out, read_be_u32(b.as_slice()) as u64);
                } else if n == 8 {
                    push_text(out, "u64=");
                    push_decimal(out, read_be_u64(b.as_slice()));
                } else {
                    push_text(out, "bytes(");
                    push_decimal(out, n as u64);
                    push_text(out, ")=[");
                    push_hex_join(out, b.as_slice());
                    push_text(out, "]");
                    return;
                }
                push_text(out, ", hex=[");
                push_hex_join(out, b.as_slice());
                push_text(out, "]");
            } else {
                push_text(out, "bytes(");
                push_decimal(out, n as u64);
                push_text(out, ")=[");
                let head = vstd::slice::slice_subrange(b.as_slice(), 0, 8);
                assert(head@ =~= b@.take(8));
                push_hex_join(out, head);
                push_text(out, " ...]");
            }
        },
        IpfixValue::U32(x) => {
            push_text(out, "u32=");
            push_decimal(out, *x as u64);
        },
        IpfixValue::U64(x) => {
            push_text(out, "u64=");
            push_decimal(out, *x);
        },
        IpfixValue::String(s) => {
            push_text(out, "string=\"");
            push_text(out, s.as_str());
            push_text(out, "\"");
        },
        IpfixValue::Other => {
            push_text(out, "unknown_value");
        },
    }
}

/// Appends an enterprise number, or `None`.
fn push_enterprise(out: &mut Vec<char>, e: Option<u32>)
    ensures
        final(out)@ == old(out)@ + spec_enterprise_text(e),
{
    match e {
        Some(x) => push_decimal(out, x as u64),
        None => push_text(out, "None"),
    }
}

/// Appends the lines of a data record numbered `k` in its set.
fn push_record(out: &mut Vec<char>, k: u64, rec: &IpfixDataRecord)
    requires
        k < u64::MAX,
    ensures
        final(out)@ == old(out)@ + spec_record_text(k as nat, *rec),
{
    let ghost start = out@;
    push_text(out, "        Record ");
    push_decimal(out, k + 1);
    push_text(out, " (");
    push_decimal(out, rec.values.len() as u64);
    push_text(out, " fields):\n");
    let ghost head = out@;
    let mut i: usize = 0;
    while i < rec.values.len()
        invariant
            i <= rec.values@.len(),
            out@ == head + spec_fields_text(rec.values@.take(i as int)),
        decreases rec.values@.len() - i,
    {
        assert(rec.values@.take(i + 1).drop_last() =~= rec.values@.take(i as int));
        let f = &rec.values[i];
        push_text(out, "          ");
        match &f.key {
            IpfixFieldKey::Unrecognized(s) => {
                push_text(out, "Field(id=");
                push_decimal(out, s.information_element_identifier as u64);
                push_text(out, ", enterprise=");
                push_enterprise(out, s.enterprise_number);
                push_text(out, ")");
            },
            IpfixFieldKey::Other => push_text(out, "Other Field"),
        }
        push_text(out, ": ");
        push_value(out, &f.value);
        push_text(out, "\n");
        proof {
            assert(out@ =~= head + spec_fields_text(rec.values@.take(i + 1)));
        }
        i = i + 1;
    }
    assert(rec.values@.take(rec.values@.len() as int) =~= rec.values@);
    assert(out@ =~= start + spec_record_text(k as nat, *rec));
}

/// Appends the lines of the template records of a message.
fn push_templates(out: &mut Vec<char>, m: &IpfixParsedMessage)
    requires
        spec_sets_aligned(*m),
    ensures
        final(out)@ == old(out)@ + spec_templates_text(*m, m.template_ids@.len()),
{
    let ghost start = out@;
    let mut i: usize = 0;
    while i < m.template_ids.len()
        invariant
            spec_sets_aligned(*m),
            i <= m.template_ids@.len(),
            out@ == start + spec_templates_text(*m, i as nat),
        decreases m.template_ids@.len() - i,
    {
        let fields = &m.template_fields[i];
        let ghost before = out@;
        push_text(out, "        Template ");
        push_decimal(out, i as u64 + 1);
        push_text(out, " (ID: ");
        push_decimal(out, m.template_ids[i] as u64);
        push_text(out, ", field_count: ");
        push_decimal(out, fields.len() as u64);
        push_text(out, "):\n");
        let ghost head = out@;
        let mut j: usize = 0;
        while j < fields.len()
            invariant
                j <= fields@.len(),
                out@ == head + spec_template_fields_text(fields@, j as nat),
            decreases fields@.len() - j,
        {
            let f = &fields[j];
            let ghost pre = out@;
            push_text(out, "          Field ");
            push_decimal(out, j as u64 + 1);
            push_text(out, ": ID=");
            push_decimal(out, f.information_element_identifier as u64);
            push_text(out, ", length=");
            push_decimal(out, f.field_length as u64);
            push_text(out, ", enterprise=");
            push_enterprise(out, f.enterprise_number);
            push_text(out, "\n");
            proof {
                assert(out@ =~= pre + spec_template_field_text(j as nat, *f));
                assert(out@ =~= head + spec_template_fields_text(fields@, (j + 1) as nat));
            }
            j = j + 1;
        }
        proof {
            assert(out@ =~= start + spec_templates_text(*m, (i + 1) as nat));
        }
        i = i + 1;
    }
}

/// Appends the heading line of set `s`.
fn push_set_head(out: &mut Vec<char>, m: &IpfixParsedMessage, s: usize)
    requires
        spec_sets_aligned(*m),
        s < m.set_data_ids@.len(),
    ensures
        final(out)@ == old(out)@ + spec_set_head(*m, s as int),
{
    let ghost before = out@;
    push_text(out, "      Set ");
    assert(s < m.set_data_ids.len());
    push_decimal(out, s as u64 + 1);
    push_text(out, " (records type: Discriminant(");
    push_decimal(out, m.set_kinds[s] as u64);
    push_text(out, ")):\n");
    assert(out@ =~= before + spec_set_head(*m, s as int));
}

/// Appends the lines of data set `s` after its heading, its records
/// starting at `start` when `known` (and past the last record otherwise).
fn push_data_set_body(out: &mut Vec<char>, m: &IpfixParsedMessage, s: usize, id: u16, start: usize, known: bool)
    requires
        spec_sets_aligned(*m),
        s < m.set_data_ids@.len(),
        known ==> start == spec_records_before(m.set_record_counts@, s as int),
        !known ==> spec_records_before(m.set_record_counts@, s as int) >= m.records@.len(),
    ensures
        final(out)@ == old(out)@ + spec_data_set_body(*m, s as int, id, spec_records_before(m.set_record_counts@, s as int)),
{
    let ghost before = out@;
    let ghost st = spec_records_before(m.set_record_counts@, s as int);
    let count = m.set_record_counts[s];
    push_text(out, "        Type: Data Set (template_id: ");
    push_decimal(out, id as u64);
    push_text(out, ")\n");
    push_text(out, "        Data records count: ");
    push_decimal(out, count as u64);
    push_text(out, "\n");
    let ghost head = out@;
    let mut k: usize = 0;
    while k < count
        invariant
            k <= count,
            known ==> start == st,
            !known ==> st >= m.records@.len(),
            out@ == head + spec_set_records_text(m.records@, st, k as nat),
        decreases count - k,
    {
        if known && start < m.records.len() && k < m.records.len() - start {
            push_record(out, k as u64, &m.records[start + k]);
        }
        proof {
            assert(out@ =~= head + spec_set_records_text(m.records@, st, (k + 1) as nat));
        }
        k = k + 1;
    }
    assert(out@ =~= before + spec_data_set_body(*m, s as int, id, st));
}

/// Appends the lines of a set that holds no data, after its heading.
fn push_template_set_body(out: &mut Vec<char>, m: &IpfixParsedMessage)
    requires
        spec_sets_aligned(*m),
    ensures
        final(out)@ == old(out)@ + spec_template_set_body(*m),
{
    let ghost before = out@;
    push_text(out, "        Type: Template or other set type\n");
    if m.template_ids.len() > 0 {
        push_text(out, "        Templates found: ");
        push_decimal(out, m.template_ids.len() as u64);
        push_text(out, "\n");
        push_templates(out, m);
    }
    assert(out@ =~= before + spec_template_set_body(*m));
}

/// The dump of a decoded message, as `spec_debug_dump` says.
pub fn debug_dump_text(m: &IpfixParsedMessage) -> (r: String)
    requires
        spec_sets_aligned(*m),
    ensures
        r@ == spec_debug_dump(*m),
{
    let mut out: Vec<char> = Vec::new();
    let mut s: usize = 0;
    let mut start: usize = 0;
    let mut known = true;
    while s < m.set_data_ids.len()
        invariant
            spec_sets_aligned(*m),
            s <= m.set_data_ids@.len(),
            known ==> start == spec_records_before(m.set_record_counts@, s as int),
            !known ==> spec_records_before(m.set_record_counts@, s as int) >= m.records@.len(),
            out@ == spec_sets_text(*m, s as nat),
        decreases m.set_data_ids@.len() - s,
    {
        let ghost before = out@;
        push_set_head(&mut out, m, s);
        match m.set_data_ids[s] {
            Some(id) => push_data_set_body(&mut out, m, s, id, start, known),
            None => push_template_set_body(&mut out, m),
        }
        assert(out@ =~= before + spec_set_text(*m, s as int, spec_records_before(m.set_record_counts@, s as int)));
        let count = m.set_record_counts[s];
        if known {
            if count <= m.records.len() && start <= m.records.len() - count {
                start = start + count;
            } else {
                known = false;
            }
        }
        s = s + 1;
    }
    string_from_chars(out.as_slice())
}

/// Decodes one IPFIX message with a decoder of its own, holding no
/// templates, and dumps it; an error when the decoder refuses it.
pub fn ipfix_debug_dump(message_data: &[u8]) -> (r: Result<String, &'static str>)
    requires
        spec_message_templates_read_data(message_data@),
    ensures
        ipfix_parse(Map::empty(), message_data@).0 is None ==> (r matches Err(e) && e@ == "Failed to parse IPFIX message"@),
        ipfix_parse(Map::empty(), message_data@).0 matches Some(d) ==> (r matches Ok(t) && exists|m: IpfixParsedMessage|
            spec_message_is(m, d) && t@ == #[trigger] spec_debug_dump(m)),
{
    let mut decoder = IpfixDecoder::new();
    assert(crate::actor::ipfix_decoder::decoder_templates(decoder) =~= Map::<u16, Seq<FieldSpecView>>::empty());
    match decoder.decode(message_data) {
        None => Err("Failed to parse IPFIX message"),
        Some(m) => {
            let t = debug_dump_text(&m);
            Ok(t)
        },
    }
}

} // verus!
