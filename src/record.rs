//! Trip records: decoding positional fields, and encoding as one JSON object.
use crate::integer::{in_i32, in_i64, int_field_value, read_int, read_int32};
use crate::json::{int_number, int_text, json_quoted, null_text, quote_string};
use crate::schema::{field_kind, field_name, spec_kind, spec_name, FieldKind, FIELD_COUNT};
use crate::timestamp::{deserialize, parsed_utc, serialize, utc_text, Timestamp};
use vstd::prelude::*;

verus! {

/// Why a line could not be decoded.
#[derive(Clone, Copy, Debug, PartialEq, Eq, Structural)]
pub enum DecodeError {
    /// The line has `found` fields rather than `FIELD_COUNT`.
    Arity { found: usize },
    /// The text of the field at position `field` does not read as its kind.
    Format { field: usize },
}

/// The mathematical value of a field.
pub enum FieldModel {
    Text(Seq<char>),
    Time(Timestamp),
    /// A number as its JSON text, or absent.
    Number(Option<Seq<char>>),
    /// An integer, or absent.
    Integer(Option<int>),
}

/// The value of one field of a decoded record.
#[derive(Clone, Debug, PartialEq)]
pub enum FieldValue {
    /// Text kept verbatim.
    Text(String),
    /// A UTC instant.
    Time(Timestamp),
    /// A 64-bit float, held as its JSON number text; `None` when absent.
    Number(Option<String>),
    /// An integer; `None` when absent.
    Integer(Option<i64>),
}

pub open spec fn opt_text(o: Option<String>) -> Option<Seq<char>> {
    match o {
        Some(s) => Some(s@),
        None => None,
    }
}

impl View for FieldValue {
    type V = FieldModel;

    open spec fn view(&self) -> FieldModel {
        match self {
            FieldValue::Text(s) => FieldModel::Text(s@),
            FieldValue::Time(t) => FieldModel::Time(*t),
            FieldValue::Number(o) => FieldModel::Number(opt_text(*o)),
            FieldValue::Integer(o) => FieldModel::Integer(
                match o {
                    Some(v) => Some(*v as int),
                    None => None,
                },
            ),
        }
    }
}

/// The value has the shape that a field of `kind` holds.
pub open spec fn fits_kind(kind: FieldKind, m: FieldModel) -> bool {
    match kind {
        FieldKind::Text => m is Text,
        FieldKind::Timestamp => m matches FieldModel::Time(t) && t.wf(),
        FieldKind::Float => m matches FieldModel::Number(Some(_)),
        FieldKind::OptionalFloat => m is Number,
        FieldKind::Int64 => m matches FieldModel::Integer(Some(v)) && in_i64(v),
        FieldKind::Int32 => m matches FieldModel::Integer(Some(v)) && in_i32(v),
        FieldKind::OptionalInt32 => m matches FieldModel::Integer(o) && (o matches Some(v) ==> in_i32(v)),
    }
}

/// The 32-bit integer that a text names.
pub open spec fn int32_value(text: Seq<char>) -> Option<FieldModel> {
    match int_field_value(text) {
        Some(v) => if in_i32(v) {
            Some(FieldModel::Integer(Some(v)))
        } else {
            None
        },
        None => None,
    }
}

/// What a field of `kind` with text `text` decodes to, if anything. `number`
/// is the JSON text of `text` read as a 64-bit float, `None` when it does not
/// read as one.
pub open spec fn field_value(kind: FieldKind, text: Seq<char>, number: Option<Seq<char>>) -> Option<
    FieldModel,
> {
    match kind {
        FieldKind::Text => Some(FieldModel::Text(text)),
        FieldKind::Timestamp => match parsed_utc(text) {
            Some(t) => Some(FieldModel::Time(t)),
            None => None,
        },
        FieldKind::Float => if text.len() > 0 && number is Some {
            Some(FieldModel::Number(number))
        } else {
            None
        },
        FieldKind::OptionalFloat => if text.len() == 0 {
            Some(FieldModel::Number(None))
        } else if number is Some {
            Some(FieldModel::Number(number))
        } else {
            None
        },
        FieldKind::Int64 => match int_field_value(text) {
            Some(v) => Some(FieldModel::Integer(Some(v))),
            None => None,
        },
        FieldKind::Int32 => int32_value(text),
        FieldKind::OptionalInt32 => if text.len() == 0 {
            Some(FieldModel::Integer(None))
        } else {
            int32_value(text)
        },
    }
}

/// The float reading of position `i`; positions past the end read as none.
pub open spec fn float_at(floats: Seq<Option<String>>, i: int) -> Option<Seq<char>> {
    if 0 <= i < floats.len() {
        opt_text(floats[i])
    } else {
        None
    }
}

/// What the field at position `i` of a line decodes to.
pub open spec fn line_field(fields: Seq<String>, floats: Seq<Option<String>>, i: int) -> Option<
    FieldModel,
> {
    field_value(spec_kind(i), fields[i]@, float_at(floats, i))
}

/// The line has the declared number of fields and each of them decodes.
pub open spec fn line_ok(fields: Seq<String>, floats: Seq<Option<String>>) -> bool {
    &&& fields.len() == FIELD_COUNT
    &&& forall|i: int| 0 <= i < FIELD_COUNT ==> (#[trigger] line_field(fields, floats, i)) is Some
}

/// The decoded values of a line for which `line_ok` holds.
pub open spec fn line_values(fields: Seq<String>, floats: Seq<Option<String>>) -> Seq<FieldModel> {
    Seq::new(FIELD_COUNT as nat, |i: int| line_field(fields, floats, i)->Some_0)
}

/// `e` is the error of a line that does not decode: a wrong field count, or
/// else the first field that does not decode.
pub open spec fn line_error(fields: Seq<String>, floats: Seq<Option<String>>, e: DecodeError) -> bool {
    if fields.len() != FIELD_COUNT {
        e == DecodeError::Arity { found: fields.len() as usize }
    } else {
        &&& e matches DecodeError::Format { field }
        &&& field < FIELD_COUNT
        &&& line_field(fields, floats, field as int) is None
        &&& forall|j: int| 0 <= j < field ==> (#[trigger] line_field(fields, floats, j)) is Some
    }
}

/// The JSON text of a field value.
pub open spec fn value_text(m: FieldModel) -> Seq<char> {
    match m {
        FieldModel::Text(s) => json_quoted(s),
        FieldModel::Time(t) => json_quoted(utc_text(t)),
        FieldModel::Number(Some(t)) => t,
        FieldModel::Number(None) => null_text(),
        FieldModel::Integer(Some(v)) => int_text(v),
        FieldModel::Integer(None) => null_text(),
    }
}

/// The member `"name":value` for the field at position `i`.
pub open spec fn member_text(i: int, m: FieldModel) -> Seq<char> {
    seq!['"'] + spec_name(i) + seq!['"', ':'] + value_text(m)
}

/// The texts joined with commas between them.
pub open spec fn join_commas(ms: Seq<Seq<char>>) -> Seq<char>
    decreases ms.len(),
{
    if ms.len() == 0 {
        Seq::empty()
    } else if ms.len() == 1 {
        ms[0]
    } else {
        join_commas(ms.drop_last()) + seq![','] + ms.last()
    }
}

/// The members of an object holding `vals`, one per field, in declaration order.
pub open spec fn member_texts(vals: Seq<FieldModel>) -> Seq<Seq<char>> {
    Seq::new(vals.len(), |i: int| member_text(i, vals[i]))
}

/// The JSON object of a record's values.
pub open spec fn object_text(vals: Seq<FieldModel>) -> Seq<char> {
    seq!['{'] + join_commas(member_texts(vals)) + seq!['}']
}

/// A decoded trip record: one value per declared field.
#[derive(Clone, Debug, PartialEq)]
pub struct TripRecord {
    pub values: Vec<FieldValue>,
}

impl View for TripRecord {
    type V = Seq<FieldModel>;

    open spec fn view(&self) -> Seq<FieldModel> {
        self.values@.map_values(|v: FieldValue| v@)
    }
}

/// Decodes one field of `kind` from its text. `number` is the JSON text of the
/// field read as a 64-bit float, `None` when it does not read as one.
pub fn decode_field(kind: FieldKind, text: &str, number: &Option<String>) -> (r: Option<FieldValue>)
    ensures
        r matches Some(v) ==> field_value(kind, text@, opt_text(*number)) == Some(v@) && fits_kind(kind, v@),
        r is None ==> field_value(kind, text@, opt_text(*number)) is None,
{
    let empty = text.unicode_len() == 0;
    match kind {
        FieldKind::Text => Some(FieldValue::Text(String::from_str(text))),
        FieldKind::Timestamp => match deserialize(text) {
            Some(t) => Some(FieldValue::Time(t)),
            None => None,
        },
        FieldKind::Float | FieldKind::OptionalFloat => {
            if empty && kind == FieldKind::OptionalFloat {
                Some(FieldValue::Number(None))
            } else if empty {
                None
            } else {
                match number {
                    Some(t) => Some(FieldValue::Number(Some(t.clone()))),
                    None => None,
                }
            }
        },
        FieldKind::Int64 => match read_int(text) {
            Some(v) => Some(FieldValue::Integer(Some(v))),
            None => None,
        },
        FieldKind::Int32 | FieldKind::OptionalInt32 => {
            if empty && kind == FieldKind::OptionalInt32 {
                Some(FieldValue::Integer(None))
            } else {
                match read_int32(text) {
                    Some(v) => Some(FieldValue::Integer(Some(v as i64))),
                    None => None,
                }
            }
        },
    }
}


impl TripRecord {
    /// One value per declared field, each of the shape its kind holds.
    pub open spec fn wf(&self) -> bool {
        &&& self.values.len() == FIELD_COUNT
        &&& forall|i: int| 0 <= i < FIELD_COUNT ==> fits_kind(spec_kind(i), #[trigger] self@[i])
    }

    /// Decodes a line given as its positional fields. `floats[i]` is the JSON
    /// text of `fields[i]` read as a 64-bit float, `None` when it does not read
    /// as one; positions past the end of `floats` read as none.
    pub fn decode(fields: &Vec<String>, floats: &Vec<Option<String>>) -> (r: Result<TripRecord, DecodeError>)
        ensures
            r is Ok <==> line_ok(fields@, floats@),
            r matches Ok(rec) ==> rec.wf() && rec@ == line_values(fields@, floats@),
            r matches Err(e) ==> line_error(fields@, floats@, e),
    {
        if fields.len() != FIELD_COUNT {
            return Err(DecodeError::Arity { found: fields.len() });
        }
        let none: Option<String> = None;
        let mut values: Vec<FieldValue> = Vec::new();
        let mut i: usize = 0;
        while i < FIELD_COUNT
            invariant
                fields.len() == FIELD_COUNT,
                i <= FIELD_COUNT,
                values.len() == i,
                none is None,
                forall|j: int|
                    0 <= j < i ==> (#[trigger] line_field(fields@, floats@, j)) == Some(values@[j]@)
                        && fits_kind(spec_kind(j), values@[j]@),
            decreases FIELD_COUNT - i,
        {
            let kind = field_kind(i);
            let number: &Option<String> = if i < floats.len() {
                &floats[i]
            } else {
                &none
            };
            assert(opt_text(*number) == float_at(floats@, i as int));
            match decode_field(kind, fields[i].as_str(), number) {
                Some(v) => {
                    values.push(v);
                },
                None => {
                    assert(line_field(fields@, floats@, i as int) is None);
                    return Err(DecodeError::Format { field: i });
                },
            }
            i = i + 1;
        }
        let rec = TripRecord { values };
        assert(rec@ =~= line_values(fields@, floats@));
        Ok(rec)
    }

    /// The JSON object of the record: one member per field, named as declared,
    /// in declaration order.
    pub fn to_json(&self) -> (r: String)
        requires
            self.wf(),
        ensures
            r@ == object_text(self@),
    {
        let ghost ms = member_texts(self@);
        proof {
            reveal_strlit("{");
            reveal_strlit("}");
            reveal_strlit(",");
            reveal_strlit("\"");
            reveal_strlit("\":");
        }
        let mut out = String::from_str("{");
        let mut i: usize = 0;
        while i < FIELD_COUNT
            invariant
                self.wf(),
                i <= FIELD_COUNT,
                ms == member_texts(self@),
                out@ == seq!['{'] + join_commas(ms.take(i as int)),
            decreases FIELD_COUNT - i,
        {
            let ghost before = out@;
            proof {
                reveal_strlit(",");
                reveal_strlit("\"");
                reveal_strlit("\":");
                assert(","@ =~= seq![',']);
                assert("\""@ =~= seq!['"']);
                assert("\":"@ =~= seq!['"', ':']);
            }
            if i > 0 {
                out.append(",");
            }
            let ghost with_sep = out@;
            out.append("\"");
            out.append(field_name(i));
            out.append("\":");
            proof {
                assert(self@[i as int] == self.values@[i as int]@);
                lemma_fits_time(spec_kind(i as int), self@[i as int]);
            }
            let v = value_json(&self.values[i]);
            out.append(v.as_str());
            proof {
                let m = ms[i as int];
                assert(m == member_text(i as int, self@[i as int]));
                assert(out@ =~= with_sep + m);
                let t = ms.take(i + 1);
                assert(t.drop_last() =~= ms.take(i as int));
                assert(t.last() == m);
                if i == 0 {
                    assert(with_sep == before);
                    assert(join_commas(t) == m);
                    assert(out@ =~= seq!['{'] + join_commas(t));
                } else {
                    assert(with_sep == before + seq![',']);
                    assert(join_commas(t) == join_commas(ms.take(i as int)) + seq![','] + m);
                    assert(out@ =~= seq!['{'] + join_commas(t));
                }
            }
            i = i + 1;
        }
        out.append("}");
        assert(ms.take(FIELD_COUNT as int) =~= ms);
        assert(out@ =~= object_text(self@));
        out
    }
}

proof fn lemma_fits_time(kind: FieldKind, m: FieldModel)
    requires
        fits_kind(kind, m),
    ensures
        m matches FieldModel::Time(t) ==> t.wf(),
{
}

/// The JSON text of one field value.
pub fn value_json(v: &FieldValue) -> (r: String)
    requires
        v matches FieldValue::Time(t) ==> t.wf(),
    ensures
        r@ == value_text(v@),
{
    proof {
        reveal_strlit("null");
    }
    match v {
        FieldValue::Text(s) => quote_string(s.as_str()),
        FieldValue::Time(t) => {
            let s = serialize(*t);
            quote_string(s.as_str())
        },
        FieldValue::Number(Some(t)) => t.clone(),
        FieldValue::Integer(Some(n)) => int_number(*n),
        _ => String::from_str("null"),
    }
}

/// Decodes a line and writes it as one JSON object.
pub fn transcode(fields: &Vec<String>, floats: &Vec<Option<String>>) -> (r: Result<String, DecodeError>)
    ensures
        r is Ok <==> line_ok(fields@, floats@),
        r matches Ok(s) ==> s@ == object_text(line_values(fields@, floats@)),
        r matches Err(e) ==> line_error(fields@, floats@, e),
{
    match TripRecord::decode(fields, floats) {
        Ok(rec) => Ok(rec.to_json()),
        Err(e) => Err(e),
    }
}

/// The float readings of line `k`; lines past the end have none.
pub open spec fn floats_of_line(floats: Seq<Vec<Option<String>>>, k: int) -> Seq<Option<String>> {
    if 0 <= k < floats.len() {
        floats[k]@
    } else {
        Seq::empty()
    }
}

/// Decodes lines in order and writes one JSON object for each, stopping at
/// the first line that does not decode. Returns the objects written before it
/// and, if there is one, that line's position and error.
pub fn transcode_lines(lines: &Vec<Vec<String>>, floats: &Vec<Vec<Option<String>>>) -> (r: (
    Vec<String>,
    Option<(usize, DecodeError)>,
))
    ensures
        r.0.len() <= lines.len(),
        forall|k: int| 0 <= k < r.0.len() ==> #[trigger] line_ok(lines@[k]@, floats_of_line(floats@, k)),
        forall|k: int|
            0 <= k < r.0.len() ==> (#[trigger] r.0@[k])@ == object_text(
                line_values(lines@[k]@, floats_of_line(floats@, k)),
            ),
        r.1 is None ==> r.0.len() == lines.len(),
        r.1 matches Some((k, e)) ==> k == r.0.len() && k < lines.len() && !line_ok(
            lines@[k as int]@,
            floats_of_line(floats@, k as int),
        ) && line_error(lines@[k as int]@, floats_of_line(floats@, k as int), e),
{
    let mut out: Vec<String> = Vec::new();
    let no_floats: Vec<Option<String>> = Vec::new();
    let mut k: usize = 0;
    while k < lines.len()
        invariant
            k <= lines.len(),
            out.len() == k,
            no_floats@ == Seq::<Option<String>>::empty(),
            forall|j: int| 0 <= j < k ==> #[trigger] line_ok(lines@[j]@, floats_of_line(floats@, j)),
            forall|j: int|
                0 <= j < k ==> (#[trigger] out@[j])@ == object_text(
                    line_values(lines@[j]@, floats_of_line(floats@, j)),
                ),
        decreases lines.len() - k,
    {
        let line_floats: &Vec<Option<String>> = if k < floats.len() {
            &floats[k]
        } else {
            &no_floats
        };
        assert(line_floats@ == floats_of_line(floats@, k as int));
        match transcode(&lines[k], line_floats) {
            Ok(s) => {
                out.push(s);
            },
            Err(e) => {
                return (out, Some((k, e)));
            },
        }
        k = k + 1;
    }
    (out, None)
}

/// Decoding then encoding a line writes an object of one member per declared
/// field, in declaration order: member `i` begins with the name of field `i`.
pub proof fn lemma_keys_in_declaration_order(fields: Seq<String>, floats: Seq<Option<String>>)
    requires
        line_ok(fields, floats),
    ensures
        object_text(line_values(fields, floats)) == seq!['{'] + join_commas(
            member_texts(line_values(fields, floats)),
        ) + seq!['}'],
        member_texts(line_values(fields, floats)).len() == FIELD_COUNT,
        forall|i: int|
            0 <= i < FIELD_COUNT ==> (#[trigger] member_texts(line_values(fields, floats))[i]).subrange(
                0,
                spec_name(i).len() as int + 3,
            ) == seq!['"'] + spec_name(i) + seq!['"', ':'],
{
    let vals = line_values(fields, floats);
    assert forall|i: int| 0 <= i < FIELD_COUNT implies (#[trigger] member_texts(vals)[i]).subrange(
        0,
        spec_name(i).len() as int + 3,
    ) == seq!['"'] + spec_name(i) + seq!['"', ':'] by {
        assert(member_texts(vals)[i].subrange(0, spec_name(i).len() as int + 3) =~= seq!['"'] + spec_name(i)
            + seq!['"', ':']);
    }
}

/// An empty text in an optional numeric field decodes to absence, written as
/// `null`; in a required numeric field it does not decode.
pub proof fn lemma_empty_numeric_field(kind: FieldKind, number: Option<Seq<char>>)
    ensures
        kind == FieldKind::OptionalFloat ==> field_value(kind, Seq::empty(), number) == Some(
            FieldModel::Number(None),
        ) && value_text(FieldModel::Number(None)) == null_text(),
        kind == FieldKind::OptionalInt32 ==> field_value(kind, Seq::empty(), number) == Some(
            FieldModel::Integer(None),
        ) && value_text(FieldModel::Integer(None)) == null_text(),
        kind == FieldKind::Float || kind == FieldKind::Int64 || kind == FieldKind::Int32
            ==> field_value(kind, Seq::empty(), number) is None,
{
}

} // verus!
