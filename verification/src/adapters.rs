//! Calls into outside crates. Each function here is trusted: Verus takes its
//! contract as given, and the doc comment says what the contract claims.
use vstd::prelude::*;
use vstd::arithmetic::power::pow;
use bpm_engine_core::NodeType;
use crate::definition::{node_ids_distinct, NodeEntry, NodeKind};
use crate::model::{opt_text, Timestamp};

verus! {

// ---------------------------------------------------------------- uuid

/// The 128-bit value that `uuid::Uuid::parse_str` reads from `text`, or
/// `None` where it refuses the text.
pub uninterp spec fn spec_parse_uuid(text: Seq<char>) -> Option<u128>;

/// The lower-case hexadecimal digit for `n` (0 to 15).
pub open spec fn hex_digit_char(n: int) -> char {
    if n == 0 { '0' } else if n == 1 { '1' } else if n == 2 { '2' } else if n == 3 { '3' }
    else if n == 4 { '4' } else if n == 5 { '5' } else if n == 6 { '6' } else if n == 7 { '7' }
    else if n == 8 { '8' } else if n == 9 { '9' } else if n == 10 { 'a' } else if n == 11 { 'b' }
    else if n == 12 { 'c' } else if n == 13 { 'd' } else if n == 14 { 'e' } else { 'f' }
}

/// Hexadecimal digit `k` of `id`, counted from the most significant (0 to 31).
pub open spec fn uuid_nibble(id: u128, k: int) -> int {
    (id as int / pow(16, (31 - k) as nat)) % 16
}

/// Character `i` (0 to 35) of the hyphenated text of `id`: hyphens at 8,
/// 13, 18 and 23, the 32 digits of `id` in order elsewhere.
pub open spec fn uuid_text_char(id: u128, i: int) -> char {
    if i == 8 || i == 13 || i == 18 || i == 23 {
        '-'
    } else {
        let hyphens_before: int = if i < 8 { 0 } else if i < 13 { 1 } else if i < 18 { 2 } else if i < 23 { 3 } else { 4 };
        hex_digit_char(uuid_nibble(id, i - hyphens_before))
    }
}

/// The text that `uuid::Uuid`'s `Display` writes for the UUID whose 128-bit
/// value is `id`: hyphenated, lower case, 8-4-4-4-12 digits.
pub open spec fn spec_uuid_text(id: u128) -> Seq<char> {
    Seq::new(36, |i: int| uuid_text_char(id, i))
}

/// Calls `uuid::Uuid::parse_str`. Claims that the result depends on the
/// text alone (named `spec_parse_uuid`), taking the UUID by its 128-bit value.
#[verifier::external_body]
pub(crate) fn parse_uuid(text: &str) -> (r: Option<u128>)
    ensures
        r == spec_parse_uuid(text@),
{
    match uuid::Uuid::parse_str(text) {
        Ok(u) => Some(u.as_u128()),
        Err(_) => None,
    }
}

/// Calls `to_string` on `uuid::Uuid::from_u128(id)`. Claims that the text
/// is the hyphenated lower-case form `spec_uuid_text` (its `Display` writes
/// the big-endian bytes of `id` in that form) and, as the crate documents for
/// every format it writes, that `uuid::Uuid::parse_str` reads it back as the
/// same UUID.
#[verifier::external_body]
pub(crate) fn uuid_text(id: u128) -> (r: String)
    ensures
        r@ == spec_uuid_text(id),
        spec_parse_uuid(r@) == Some(id),
{
    uuid::Uuid::from_u128(id).to_string()
}

/// The 128-bit value `id` is a version-4 (random) UUID of the RFC variant:
/// its version field (bits 76 to 79) holds 4 and its two variant bits
/// (bits 62 and 63) hold `10`.
pub open spec fn is_v4_uuid(id: u128) -> bool {
    id & 0x0000_0000_0000_F000_C000_0000_0000_0000u128 == 0x0000_0000_0000_4000_8000_0000_0000_0000u128
}

/// Calls `uuid::Uuid::new_v4`, a random UUID, taken by its 128-bit value.
/// Claims only what its source sets on the random bits: the version-4 field
/// and the RFC variant (`is_v4_uuid`).
#[verifier::external_body]
pub(crate) fn new_uuid() -> (r: u128)
    ensures
        is_v4_uuid(r),
{
    uuid::Uuid::new_v4().as_u128()
}

// ---------------------------------------------------------------- http

/// A character that `http::HeaderValue::from_str` accepts: per its source,
/// each UTF-8 byte must be a tab or at least 32 and not 127, and every byte
/// of a character above U+007F is at least 128.
pub open spec fn header_char_ok(c: char) -> bool {
    c == '\t' || (32 <= c as u32 && c as u32 != 127)
}

/// Calls `pavex::http::HeaderValue::from_str` and reports whether it
/// accepted the text. Claims that it accepts exactly the texts whose every
/// character passes `header_char_ok`.
#[verifier::external_body]
pub(crate) fn header_value_ok(text: &str) -> (r: bool)
    ensures
        r == (forall|i: int| 0 <= i < text@.len() ==> header_char_ok(#[trigger] text@[i])),
{
    pavex::http::HeaderValue::from_str(text).is_ok()
}

} // verus!

verus! {

// ---------------------------------------------------------------- time

/// The RFC 3339 text that `time::OffsetDateTime::format` writes for the
/// instant `unix_nanos` (nanoseconds since the Unix epoch) seen at UTC
/// offset `offset_seconds`; `None` where `time` cannot represent that date
/// and time or cannot write it as RFC 3339.
pub uninterp spec fn spec_rfc3339(unix_nanos: i128, offset_seconds: i32) -> Option<Seq<char>>;

/// The text that `time::OffsetDateTime`'s `Debug` (which is its `Display`)
/// writes for the same date and time; `None` where `time` cannot represent it.
pub uninterp spec fn spec_timestamp_text(unix_nanos: i128, offset_seconds: i32) -> Option<Seq<char>>;

/// Converts the timestamp to `time::OffsetDateTime` (by
/// `OffsetDateTime::from_unix_timestamp_nanos`, `UtcOffset::from_whole_seconds`
/// and `OffsetDateTime::checked_to_offset`; `None` where `time` refuses it)
/// and calls `OffsetDateTime::format` with the RFC 3339 format description.
/// Claims that the text, or its absence, depends on the timestamp alone
/// (named `spec_rfc3339`).
#[verifier::external_body]
pub(crate) fn rfc3339_text(ts: Timestamp) -> (r: Option<String>)
    ensures
        opt_text(r) == spec_rfc3339(ts.unix_nanos, ts.offset_seconds),
{
    let utc = time::OffsetDateTime::from_unix_timestamp_nanos(ts.unix_nanos).ok()?;
    let offset = time::UtcOffset::from_whole_seconds(ts.offset_seconds).ok()?;
    let t = utc.checked_to_offset(offset)?;
    t.format(&time::format_description::well_known::Rfc3339).ok()
}

/// Converts the timestamp to `time::OffsetDateTime` as above and writes its
/// `Debug` text. Claims that it, or its absence, depends on the timestamp
/// alone (named `spec_timestamp_text`).
#[verifier::external_body]
pub(crate) fn timestamp_debug_text(ts: Timestamp) -> (r: Option<String>)
    ensures
        opt_text(r) == spec_timestamp_text(ts.unix_nanos, ts.offset_seconds),
{
    let utc = time::OffsetDateTime::from_unix_timestamp_nanos(ts.unix_nanos).ok()?;
    let offset = time::UtcOffset::from_whole_seconds(ts.offset_seconds).ok()?;
    let t = utc.checked_to_offset(offset)?;
    Some(format!("{:?}", t))
}

// ---------------------------------------------------------------- serde_json

#[verifier::external_type_specification]
#[verifier::external_body]
pub struct ExJsonValue(serde_json::Value);

#[verifier::external_type_specification]
#[verifier::external_body]
pub struct ExJsonError(serde_json::Error);

/// The map of texts that a JSON value is, where it is an object whose
/// values are all strings (what `serde_json::from_value` accepts as a
/// `HashMap<String, String>`); `None` otherwise.
pub uninterp spec fn spec_json_string_map(v: serde_json::Value) -> Option<Map<Seq<char>, Seq<char>>>;

/// Calls `serde_json::from_value` into a `HashMap<String, String>` and
/// hands its entries out as pairs. Claims that it succeeds exactly where the
/// value is an object of strings (named `spec_json_string_map`), that the
/// pairs are that object's entries, and that no name occurs twice (the
/// map's keys).
#[verifier::external_body]
pub(crate) fn variables_from_json(v: serde_json::Value) -> (r: Result<Vec<(String, String)>, serde_json::Error>)
    ensures
        r is Ok <==> spec_json_string_map(v) is Some,
        r is Ok ==> crate::variables::names_distinct(r->Ok_0@),
        r is Ok ==> spec_json_string_map(v) == Some(crate::variables::pairs_map(r->Ok_0@)),
{
    let map: std::collections::HashMap<String, String> = serde_json::from_value(v)?;
    let mut pairs = Vec::new();
    for (k, v) in map {
        pairs.push((k, v));
    }
    Ok(pairs)
}

/// Collects the pairs into a `HashMap<String, String>` (a later pair
/// overriding an earlier one with the same name) and calls
/// `serde_json::to_value` on it. Claims success, as the crate documents that
/// it fails only where `Serialize` fails or a map has non-string keys, and
/// that the value is the JSON object of those strings.
#[verifier::external_body]
pub(crate) fn variables_to_json(pairs: Vec<(String, String)>) -> (r: Result<serde_json::Value, serde_json::Error>)
    ensures
        r is Ok,
        r is Ok ==> spec_json_string_map(r->Ok_0) == Some(crate::variables::pairs_map(pairs@)),
{
    let map: std::collections::HashMap<String, String> = pairs.into_iter().collect();
    serde_json::to_value(map)
}

} // verus!

verus! {

// ---------------------------------------------------------------- BPMN

#[verifier::external_type_specification]
#[verifier::external_body]
pub struct ExProcessDefinition(bpm_engine_core::ProcessDefinition);

#[verifier::external_type_specification]
#[verifier::external_body]
pub struct ExCompileError(bpm_engine_bpmn::CompileError);

/// Whether `bpm_engine_bpmn::parse_and_compile` accepts the BPMN text `xml`.
pub uninterp spec fn spec_bpmn_compiles(xml: Seq<char>) -> bool;

/// The node map of the definition that `bpm_engine_bpmn::parse_and_compile`
/// compiles from the BPMN text `xml`: each node id with its kind.
pub uninterp spec fn spec_bpmn_node_kinds(xml: Seq<char>) -> Map<Seq<char>, NodeKind>;

/// Calls `bpm_engine_bpmn::parse_and_compile`. Claims that whether it
/// succeeds depends on the text alone (named `spec_bpmn_compiles`), and so
/// do the node ids and node kinds of the definition it compiles (named
/// `spec_bpmn_node_kinds`; the map's contents, not the order it is walked
/// in, are fixed by the text). Nothing is claimed of the error.
#[verifier::external_body]
pub(crate) fn parse_and_compile(xml: &str) -> (r: Result<bpm_engine_core::ProcessDefinition, bpm_engine_bpmn::CompileError>)
    ensures
        r is Ok == spec_bpmn_compiles(xml@),
        r matches Ok(d) ==> spec_definition_node_kinds(d) == spec_bpmn_node_kinds(xml@),
{
    bpm_engine_bpmn::parse_and_compile(xml)
}

/// Writes a `bpm_engine_bpmn::CompileError`'s `Display` text. Nothing is
/// claimed of it.
#[verifier::external_body]
pub(crate) fn compile_error_text(e: &bpm_engine_bpmn::CompileError) -> (r: String) {
    format!("{e}")
}

#[verifier::external_type_specification]
#[verifier::external_body]
pub struct ExNodeType(NodeType);

/// What a compiled definition's node map holds: for each node id, the kind
/// of its node type.
pub uninterp spec fn spec_definition_node_kinds(def: bpm_engine_core::ProcessDefinition) -> Map<Seq<char>, NodeKind>;

/// Tells the variants of `bpm_engine_core::NodeType` apart, one arm each.
#[verifier::external_body]
pub(crate) fn node_kind(t: &NodeType) -> (r: NodeKind) {
    match t {
        NodeType::Start => NodeKind::Start,
        NodeType::End => NodeKind::End,
        NodeType::ServiceTask(_) => NodeKind::ServiceTask,
        NodeType::UserTask => NodeKind::UserTask,
        NodeType::ExternalTask { .. } => NodeKind::ExternalTask,
        NodeType::ExclusiveGateway => NodeKind::ExclusiveGateway,
        NodeType::ParallelFork => NodeKind::ParallelFork,
        NodeType::ParallelJoin { .. } => NodeKind::ParallelJoin,
    }
}

/// Hands out the nodes of a compiled definition (its `nodes` map), each id
/// with the kind of its node type. Claims that no id occurs twice (the map's
/// keys) and that the pairs are exactly what the definition's node map holds
/// (named `spec_definition_node_kinds`), whatever order the map is walked in.
#[verifier::external_body]
pub(crate) fn definition_nodes(def: &bpm_engine_core::ProcessDefinition) -> (r: Vec<NodeEntry>)
    ensures
        node_ids_distinct(r@),
        forall|k: Seq<char>|
            spec_definition_node_kinds(*def).dom().contains(k) <==> exists|i: int|
                0 <= i < r@.len() && (#[trigger] r@[i]).id@ == k,
        forall|i: int|
            0 <= i < r@.len() ==> spec_definition_node_kinds(*def)[(#[trigger] r@[i]).id@]
                == r@[i].kind,
{
    let mut r = Vec::new();
    for (id, node) in def.nodes.iter() {
        r.push(NodeEntry { id: id.to_string(), kind: node_kind(&node.node_type) });
    }
    r
}

} // verus!
