use vstd::prelude::*;

use crate::error::{outcome, ChronosError, ErrorModel};
use crate::inference::{json_string, json_string_literal};
use crate::models::Timestamp;
use crate::time_text::{in_four_digit_years, parse_rfc3339, render_rfc3339, rfc3339_instant, rfc3339_parse, rfc3339_rendering};
use crate::ulid_text::{lemma_ulid_text_roundtrip, ulid_decoded, ulid_from_text, ulid_text, ulid_to_text};

verus! {

/// The characters of each string.
pub open spec fn strings_view(v: Seq<String>) -> Seq<Seq<char>> {
    v.map_values(|s: String| s@)
}

/// The comma-separated JSON string literals of `xs`.
pub open spec fn json_list_items(xs: Seq<Seq<char>>) -> Seq<char>
    decreases xs.len(),
{
    if xs.len() == 0 {
        Seq::empty()
    } else if xs.len() == 1 {
        json_string_literal(xs[0])
    } else {
        json_list_items(xs.drop_last()) + ","@ + json_string_literal(xs.last())
    }
}

/// The compact JSON array of the strings `xs`, as `serde_json::to_string` writes it.
pub open spec fn json_string_array(xs: Seq<Seq<char>>) -> Seq<char> {
    "["@ + json_list_items(xs) + "]"@
}

/// What `serde_json` makes of a text read as a JSON array of strings: the strings, or
/// the text of its error.
pub uninterp spec fn json_strings_parse(text: Seq<char>) -> Result<Seq<Seq<char>>, Seq<char>>;

/// The strings of a JSON array of strings, as `serde_json` reads it, or `None` when
/// the text is not such an array.
pub open spec fn json_string_list(text: Seq<char>) -> Option<Seq<Seq<char>>> {
    match json_strings_parse(text) {
        Ok(xs) => Some(xs),
        Err(_) => None,
    }
}

/// Writes `items` as a compact JSON array of strings.
pub fn json_array_of_strings(items: &Vec<String>) -> (r: String)
    ensures
        r@ == json_string_array(strings_view(items@)),
{
    let ghost xs = strings_view(items@);
    let mut body = String::new();
    let mut i: usize = 0;
    while i < items.len()
        invariant
            i <= items@.len(),
            xs == strings_view(items@),
            body@ == json_list_items(xs.take(i as int)),
        decreases items@.len() - i,
    {
        let lit = json_string(items[i].as_str());
        let ghost before = body@;
        if i == 0 {
            body = lit;
            assert(xs.take(1) =~= seq![xs[0]]);
        } else {
            body = body.concat(",").concat(lit.as_str());
            assert(xs.take(i + 1).drop_last() =~= xs.take(i as int));
        }
        i = i + 1;
    }
    assert(xs.take(items@.len() as int) =~= xs);
    String::from_str("[").concat(body.as_str()).concat("]")
}

/// Reads a JSON array of strings with `serde_json::from_str::<Vec<String>>`.
///
/// Claims that the outcome, the error message included, is a function of the text
/// (named `json_strings_parse`) and that the crate reads back any array it writes.
#[verifier::external_body]
pub(crate) fn parse_json_string_array(text: &str) -> (r: Result<Vec<String>, String>)
    ensures
        match r {
            Ok(v) => json_strings_parse(text@) == Ok::<Seq<Seq<char>>, Seq<char>>(strings_view(v@)),
            Err(m) => json_strings_parse(text@) == Err::<Seq<Seq<char>>, Seq<char>>(m@),
        },
        r is Ok || forall|xs: Seq<Seq<char>>| #[trigger] json_string_array(xs) != text@,
        r matches Ok(v) ==> forall|xs: Seq<Seq<char>>|
            #[trigger] json_string_array(xs) == text@ ==> strings_view(v@) == xs,
{
    match serde_json::from_str::<Vec<String>>(text) {
        Ok(v) => Ok(v),
        Err(e) => Err(e.to_string()),
    }
}

/// The columns of a stored semantic log that hold identifiers, time and entities, as text.
#[derive(Debug, Clone, PartialEq, Eq)]
pub struct LogColumns {
    /// The log's ULID.
    pub id: String,
    /// The log's timestamp, in RFC 3339.
    pub timestamp: String,
    /// The ULID of the frame the log was made from.
    pub source_frame_id: String,
    /// The key entities, as a JSON array of strings.
    pub key_entities: String,
}

/// The identifiers, time and entities of a semantic log.
#[derive(Debug, Clone, PartialEq, Eq)]
pub struct LogFields {
    /// The log's ULID, as 128 bits.
    pub id: u128,
    /// When the log was recorded.
    pub timestamp: Timestamp,
    /// The ULID of the frame the log was made from.
    pub source_frame_id: u128,
    /// The key entities identified on screen.
    pub key_entities: Vec<String>,
}

/// Writes the text columns of a log: ULIDs in Crockford base32, the time in RFC 3339,
/// the entities as a JSON array. An instant that `chrono` cannot represent is refused.
pub fn encode_log_fields(fields: &LogFields) -> (r: Result<LogColumns, ChronosError>)
    ensures
        r matches Ok(c) ==> {
            &&& c.id@ == ulid_text(fields.id)
            &&& rfc3339_rendering(fields.timestamp) == Some(c.timestamp@)
            &&& c.source_frame_id@ == ulid_text(fields.source_frame_id)
            &&& c.key_entities@ == json_string_array(strings_view(fields.key_entities@))
        },
        r is Err ==> rfc3339_rendering(fields.timestamp) is None && outcome(r) == Err::<
            LogColumns,
            ErrorModel,
        >(ErrorModel::Database("Invalid timestamp: out of range"@)),
        in_four_digit_years(fields.timestamp) ==> (r matches Ok(c) && rfc3339_instant(
            c.timestamp@,
        ) == Some(fields.timestamp)),
{
    let timestamp = match render_rfc3339(fields.timestamp) {
        Some(t) => t,
        None => {
            return Err(ChronosError::Database(String::from_str("Invalid timestamp: out of range")));
        },
    };
    Ok(
        LogColumns {
            id: ulid_to_text(fields.id),
            timestamp,
            source_frame_id: ulid_to_text(fields.source_frame_id),
            key_entities: json_array_of_strings(&fields.key_entities),
        },
    )
}

/// Reads the text columns of a stored log back, checking each in turn: the id, the
/// timestamp, the source frame id, then the entities. A column that cannot be read
/// is a storage error naming the column.
pub fn decode_log_fields(columns: &LogColumns) -> (r: Result<LogFields, ChronosError>)
    ensures
        ulid_decoded(columns.id@) matches Err(m) ==> outcome(r) == Err::<LogFields, ErrorModel>(
            ErrorModel::Database("Invalid ID: "@ + m),
        ),
        ulid_decoded(columns.id@) is Ok ==> (rfc3339_parse(columns.timestamp@) matches Err(m)
            ==> outcome(r) == Err::<LogFields, ErrorModel>(
            ErrorModel::Database("Invalid timestamp: "@ + m),
        )),
        ulid_decoded(columns.id@) is Ok && rfc3339_instant(columns.timestamp@) is Some ==> (
        ulid_decoded(columns.source_frame_id@) matches Err(m) ==> outcome(r) == Err::<
            LogFields,
            ErrorModel,
        >(ErrorModel::Database("Invalid source_frame_id: "@ + m))),
        ulid_decoded(columns.id@) is Ok && rfc3339_instant(columns.timestamp@) is Some
            && ulid_decoded(columns.source_frame_id@) is Ok ==> (json_strings_parse(
            columns.key_entities@,
        ) matches Err(m) ==> outcome(r) == Err::<LogFields, ErrorModel>(
            ErrorModel::Database("Invalid key_entities: "@ + m),
        )),
        // Columns that all read are read back.
        ulid_decoded(columns.id@) is Ok && rfc3339_instant(columns.timestamp@) is Some
            && ulid_decoded(columns.source_frame_id@) is Ok && json_string_list(
            columns.key_entities@,
        ) is Some ==> r is Ok,
        r matches Ok(f) ==> {
            &&& ulid_decoded(columns.id@) == Ok::<u128, Seq<char>>(f.id)
            &&& rfc3339_instant(columns.timestamp@) == Some(f.timestamp)
            &&& ulid_decoded(columns.source_frame_id@) == Ok::<u128, Seq<char>>(f.source_frame_id)
            &&& json_string_list(columns.key_entities@) == Some(strings_view(f.key_entities@))
        },
        // Columns written from a log are read back as that log.
        forall|a: u128, b: u128, xs: Seq<Seq<char>>|
            #![trigger ulid_text(a), ulid_text(b), json_string_array(xs)]
            columns.id@ == ulid_text(a) && columns.source_frame_id@ == ulid_text(b) && (
            json_string_array(xs)) == columns.key_entities@ && rfc3339_instant(
                columns.timestamp@,
            ) is Some ==> (r matches Ok(f) && f.id == a && f.source_frame_id == b
                && strings_view(f.key_entities@) == xs && rfc3339_instant(columns.timestamp@)
                == Some(f.timestamp)),
{
    let id = match ulid_from_text(columns.id.as_str()) {
        Ok(v) => v,
        Err(m) => {
            proof {
                assert forall|a: u128| columns.id@ != #[trigger] ulid_text(a) by {
                    lemma_ulid_text_roundtrip(a);
                }
            }
            return Err(ChronosError::Database(String::from_str("Invalid ID: ").concat(m.as_str())));
        },
    };
    let timestamp = match parse_rfc3339(columns.timestamp.as_str()) {
        Ok(t) => t,
        Err(m) => {
            let msg = String::from_str("Invalid timestamp: ").concat(m.as_str());
            return Err(ChronosError::Database(msg));
        },
    };
    let source_frame_id = match ulid_from_text(columns.source_frame_id.as_str()) {
        Ok(v) => v,
        Err(m) => {
            proof {
                assert forall|b: u128| columns.source_frame_id@ != #[trigger] ulid_text(b) by {
                    lemma_ulid_text_roundtrip(b);
                }
            }
            return Err(
                ChronosError::Database(
                    String::from_str("Invalid source_frame_id: ").concat(m.as_str()),
                ),
            );
        },
    };
    let key_entities = match parse_json_string_array(columns.key_entities.as_str()) {
        Ok(v) => v,
        Err(m) => {
            let msg = String::from_str("Invalid key_entities: ").concat(m.as_str());
            return Err(ChronosError::Database(msg));
        },
    };
    proof {
        assert forall|a: u128, b: u128, xs: Seq<Seq<char>>|
            #![trigger ulid_text(a), ulid_text(b), json_string_array(xs)]
            columns.id@ == ulid_text(a) && columns.source_frame_id@ == ulid_text(b) && (
            json_string_array(xs)) == columns.key_entities@ && rfc3339_instant(
                columns.timestamp@,
            ) is Some implies id == a && source_frame_id == b && strings_view(key_entities@)
            == xs by {
            lemma_ulid_text_roundtrip(a);
            lemma_ulid_text_roundtrip(b);
        }
    }
    Ok(LogFields { id, timestamp, source_frame_id, key_entities })
}

} // verus!
