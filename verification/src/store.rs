//! The mapping between the library's instances and tokens and the rows of
//! the `process_instances` and `tokens` tables: what a save writes, what a
//! load makes of what it reads, and the parameters of the guarded token
//! updates.
use vstd::prelude::*;
use crate::adapters;
use crate::codec::{
    instance_state_from_str, instance_state_of_text, instance_state_text, instance_state_to_str,
    lemma_instance_state_text_round_trip, lemma_token_mode_text_round_trip,
    lemma_token_status_text_round_trip, token_mode_from_str, token_mode_of_text, token_mode_text,
    token_mode_to_str, token_status_from_str, token_status_of_text, token_status_text,
    token_status_to_str, DecodeError, InstanceState, TokenStatus,
};
use crate::adapters::{spec_json_string_map, spec_rfc3339};
use crate::model::{opt_text, ProcessInstance, ProcessInstanceView, Timestamp, Token, TokenView};
use crate::variables::Variables;

verus! {

/// Why a stored row could not be read, or a value could not be stored.
#[derive(Debug, PartialEq, Eq)]
pub enum StoreError {
    /// A text column names no known variant.
    Decode(DecodeError),
    /// An integer does not fit the column's or the engine's integer type.
    IntegerOutOfRange,
    /// A stored timestamp could not be written as RFC 3339 text.
    TimestampFormat,
    /// The stored variables are not a JSON object of texts.
    VariablesJson,
}

impl StoreError {
    /// The error's text.
    pub fn message(&self) -> (r: String)
        ensures
            self matches StoreError::Decode(d) ==> (d matches DecodeError::UnknownInstanceState(t)
                ==> r@ == "unknown InstanceState in DB: "@ + t@) && (d matches DecodeError::UnknownTokenStatus(t)
                ==> r@ == "unknown TokenStatus in DB: "@ + t@) && (d matches DecodeError::UnknownTokenMode(t)
                ==> r@ == "unknown TokenMode in DB: "@ + t@),
            self is IntegerOutOfRange ==> r@ == "out of range integral type conversion attempted"@,
            self is TimestampFormat ==> r@ == "timestamp cannot be written as RFC 3339 text"@,
            self is VariablesJson ==> r@ == "variables are not a JSON object of strings"@,
    {
        match self {
            StoreError::Decode(d) => d.message(),
            StoreError::IntegerOutOfRange => "out of range integral type conversion attempted".to_owned(),
            StoreError::TimestampFormat => "timestamp cannot be written as RFC 3339 text".to_owned(),
            StoreError::VariablesJson => "variables are not a JSON object of strings".to_owned(),
        }
    }
}

// ------------------------------------------------------------------ tokens

/// The columns of a `tokens` row that a load reads and a save writes.
pub struct TokenColumns {
    pub id: Seq<char>,
    pub node_id: Seq<char>,
    pub status: Seq<char>,
    pub mode: Seq<char>,
    pub version: i32,
    pub attempt: i32,
    pub parallel_group_id: Option<Seq<char>>,
}

/// A `tokens` row as a load reads it.
#[derive(Debug)]
pub struct TokenRow {
    pub id: String,
    pub node_id: String,
    pub status: String,
    pub mode: String,
    pub version: i32,
    pub attempt: i32,
    pub parallel_group_id: Option<String>,
    pub updated_at: Option<Timestamp>,
}

impl TokenRow {
    /// The row's columns, by value.
    pub open spec fn columns(&self) -> TokenColumns {
        TokenColumns {
            id: self.id@,
            node_id: self.node_id@,
            status: self.status@,
            mode: self.mode@,
            version: self.version,
            attempt: self.attempt,
            parallel_group_id: opt_text(self.parallel_group_id),
        }
    }
}

/// A `tokens` row as a save writes it.
#[derive(Debug)]
pub struct TokenRecord {
    pub id: String,
    pub node_id: String,
    pub status: &'static str,
    pub mode: &'static str,
    pub version: i32,
    pub attempt: i32,
    pub parallel_group_id: Option<String>,
}

impl View for TokenRecord {
    type V = TokenColumns;

    open spec fn view(&self) -> TokenColumns {
        TokenColumns {
            id: self.id@,
            node_id: self.node_id@,
            status: self.status@,
            mode: self.mode@,
            version: self.version,
            attempt: self.attempt,
            parallel_group_id: opt_text(self.parallel_group_id),
        }
    }
}

/// The columns a save writes for token `t`, or `None` where its version or
/// attempt count does not fit the `INT` columns.
pub open spec fn encode_token(t: TokenView) -> Option<TokenColumns> {
    if t.version <= i32::MAX && t.attempt <= i32::MAX {
        Some(
            TokenColumns {
                id: t.id,
                node_id: t.node_id,
                status: token_status_text(t.status),
                mode: token_mode_text(t.mode),
                version: t.version as i32,
                attempt: t.attempt as i32,
                parallel_group_id: t.parallel_group_id,
            },
        )
    } else {
        None
    }
}

/// The token a load makes of columns `c` with no timestamp, or `None` where
/// a text names no variant or an integer is negative.
pub open spec fn decode_token(c: TokenColumns) -> Option<TokenView> {
    match (token_status_of_text(c.status), token_mode_of_text(c.mode)) {
        (Some(s), Some(m)) => if c.version >= 0 && c.attempt >= 0 {
            Some(
                TokenView {
                    id: c.id,
                    node_id: c.node_id,
                    status: s,
                    mode: m,
                    version: c.version as u32,
                    attempt: c.attempt as u32,
                    parallel_group_id: c.parallel_group_id,
                    updated_at: None,
                },
            )
        } else {
            None
        },
        _ => None,
    }
}

/// `t` is the token that columns `c` decode to, with timestamp `updated_at`.
pub open spec fn decodes_to(c: TokenColumns, t: TokenView) -> bool {
    decode_token(c) matches Some(d) && t == TokenView { updated_at: t.updated_at, ..d }
}

/// The text a load gives a row's timestamp: none where the row has none,
/// its RFC 3339 text where it has one; `None` where that cannot be written.
pub open spec fn timestamp_text(time: Option<Timestamp>) -> Option<Option<Seq<char>>> {
    match time {
        None => Some(None),
        Some(ts) => match spec_rfc3339(ts.unix_nanos, ts.offset_seconds) {
            Some(t) => Some(Some(t)),
            None => None,
        },
    }
}

/// What reading a `tokens` row with columns `c` and timestamp `time` gives.
/// A status or mode text that names no variant is refused with that text,
/// then a negative integer, then a timestamp that cannot be written as RFC
/// 3339 text; otherwise the token is read, its timestamp as that text.
pub open spec fn token_row_outcome(c: TokenColumns, time: Option<Timestamp>, r: Result<Token, StoreError>) -> bool {
    match token_status_of_text(c.status) {
        None => r matches Err(StoreError::Decode(DecodeError::UnknownTokenStatus(u))) && u@ == c.status,
        Some(_) => match token_mode_of_text(c.mode) {
            None => r matches Err(StoreError::Decode(DecodeError::UnknownTokenMode(u))) && u@
                == c.mode,
            Some(_) => if c.version < 0 || c.attempt < 0 {
                r matches Err(StoreError::IntegerOutOfRange)
            } else {
                match timestamp_text(time) {
                    None => r matches Err(StoreError::TimestampFormat),
                    Some(u) => r matches Ok(t) && decodes_to(c, t@) && t@.updated_at == u,
                }
            },
        },
    }
}

/// Some token can be read from a `tokens` row with columns `c`.
pub open spec fn token_row_readable(c: TokenColumns, time: Option<Timestamp>) -> bool {
    exists|t: Token| token_row_outcome(c, time, Ok(t))
}

fn clone_text_option(o: &Option<String>) -> (r: Option<String>)
    ensures
        opt_text(r) == opt_text(*o),
{
    match o {
        Some(s) => Some(s.clone()),
        None => None,
    }
}

/// Reads a token from a `tokens` row.
pub fn token_from_row(row: &TokenRow) -> (r: Result<Token, StoreError>)
    ensures
        token_row_outcome(row.columns(), row.updated_at, r),
{
    let status = match token_status_from_str(row.status.as_str()) {
        Ok(s) => s,
        Err(e) => return Err(StoreError::Decode(e)),
    };
    let mode = match token_mode_from_str(row.mode.as_str()) {
        Ok(m) => m,
        Err(e) => return Err(StoreError::Decode(e)),
    };
    if row.version < 0 || row.attempt < 0 {
        return Err(StoreError::IntegerOutOfRange);
    }
    let updated_at = match row.updated_at {
        Some(ts) => match adapters::rfc3339_text(ts) {
            Some(s) => Some(s),
            None => return Err(StoreError::TimestampFormat),
        },
        None => None,
    };
    Ok(
        Token {
            id: row.id.clone(),
            node_id: row.node_id.clone(),
            status,
            mode,
            version: row.version as u32,
            attempt: row.attempt as u32,
            parallel_group_id: clone_text_option(&row.parallel_group_id),
            updated_at,
        },
    )
}

/// What reading the rows in order gives: every row's token, or the error
/// of the first row that cannot be read.
pub open spec fn token_rows_outcome(rows: Seq<TokenRow>, r: Result<Vec<Token>, StoreError>) -> bool {
    match r {
        Ok(ts) => ts@.len() == rows.len() && forall|i: int|
            0 <= i < rows.len() ==> token_row_outcome(
                #[trigger] rows[i].columns(),
                rows[i].updated_at,
                Ok(ts@[i]),
            ),
        Err(e) => exists|i: int|
            0 <= i < rows.len() && token_row_outcome(
                #[trigger] rows[i].columns(),
                rows[i].updated_at,
                Err(e),
            ) && forall|j: int|
                0 <= j < i ==> token_row_readable(#[trigger] rows[j].columns(), rows[j].updated_at),
    }
}

/// Reads the tokens of the rows in order, stopping at the first row that
/// cannot be read.
pub fn tokens_from_rows(rows: &Vec<TokenRow>) -> (r: Result<Vec<Token>, StoreError>)
    ensures
        token_rows_outcome(rows@, r),
{
    let mut ts: Vec<Token> = Vec::new();
    let mut i: usize = 0;
    while i < rows.len()
        invariant
            i <= rows@.len(),
            ts@.len() == i,
            forall|j: int|
                0 <= j < i ==> token_row_outcome(
                    #[trigger] rows@[j].columns(),
                    rows@[j].updated_at,
                    Ok(ts@[j]),
                ),
        decreases rows@.len() - i,
    {
        match token_from_row(&rows[i]) {
            Ok(t) => ts.push(t),
            Err(e) => {
                proof {
                    assert forall|j: int| 0 <= j < i implies token_row_readable(
                        #[trigger] rows@[j].columns(),
                        rows@[j].updated_at,
                    ) by {
                        assert(token_row_outcome(
                            rows@[j].columns(),
                            rows@[j].updated_at,
                            Ok(ts@[j]),
                        ));
                    }
                    assert(token_row_outcome(
                        rows@[i as int].columns(),
                        rows@[i as int].updated_at,
                        Err(e),
                    ));
                }
                return Err(e);
            },
        }
        i = i + 1;
    }
    Ok(ts)
}

/// The row a save writes for a token; refused where the version or the
/// attempt count does not fit the `INT` columns.
pub fn token_record(t: &Token) -> (r: Result<TokenRecord, StoreError>)
    ensures
        match encode_token(t@) {
            Some(c) => r matches Ok(rec) && rec@ == c,
            None => r matches Err(StoreError::IntegerOutOfRange),
        },
{
    let status = token_status_to_str(t.status);
    let mode = token_mode_to_str(t.mode);
    if t.version > 2147483647u32 || t.attempt > 2147483647u32 {
        return Err(StoreError::IntegerOutOfRange);
    }
    Ok(
        TokenRecord {
            id: t.id.clone(),
            node_id: t.node_id.clone(),
            status,
            mode,
            version: t.version as i32,
            attempt: t.attempt as i32,
            parallel_group_id: clone_text_option(&t.parallel_group_id),
        },
    )
}

/// The rows a save writes for an instance's tokens, in order; refused where
/// some token does not fit.
pub fn token_records(tokens: &Vec<Token>) -> (r: Result<Vec<TokenRecord>, StoreError>)
    ensures
        match r {
            Ok(recs) => recs@.len() == tokens@.len() && forall|i: int|
                0 <= i < tokens@.len() ==> encode_token(#[trigger] tokens@[i]@) == Some(
                    recs@[i]@,
                ),
            Err(e) => e matches StoreError::IntegerOutOfRange && exists|i: int|
                0 <= i < tokens@.len() && encode_token(#[trigger] tokens@[i]@) is None,
        },
{
    let mut recs: Vec<TokenRecord> = Vec::new();
    let mut i: usize = 0;
    while i < tokens.len()
        invariant
            i <= tokens@.len(),
            recs@.len() == i,
            forall|j: int|
                0 <= j < i ==> encode_token(#[trigger] tokens@[j]@) == Some(recs@[j]@),
        decreases tokens@.len() - i,
    {
        match token_record(&tokens[i]) {
            Ok(rec) => recs.push(rec),
            Err(e) => {
                return Err(e);
            },
        }
        i = i + 1;
    }
    Ok(recs)
}

/// A token written by a save reads back as the same token, its timestamp
/// aside (the column is the database's); and a save can write a token
/// exactly when its version and attempt count fit the `INT` columns.
pub proof fn lemma_token_round_trip(t: TokenView)
    ensures
        encode_token(t) is Some <==> (t.version <= i32::MAX && t.attempt <= i32::MAX),
        encode_token(t) matches Some(c) ==> decode_token(c) == Some(TokenView { updated_at: None, ..t }),
{
    lemma_token_status_text_round_trip(t.status, token_status_text(t.status));
    lemma_token_mode_text_round_trip(t.mode, token_mode_text(t.mode));
}

/// Reading back a row that holds what a save wrote for token `t` (and no
/// timestamp yet) gives `t`: any outcome that `token_from_row` may have on
/// it is that token.
pub proof fn lemma_saved_token_reads_back(t: TokenView, c: TokenColumns, r: Result<Token, StoreError>)
    requires
        encode_token(t) == Some(c),
        token_row_outcome(c, None, r),
    ensures
        r matches Ok(back) && back@ == (TokenView { updated_at: None, ..t }),
{
    lemma_token_round_trip(t);
}

// --------------------------------------------------------------- instances

/// The columns of a `process_instances` row that a load reads and a save
/// writes, the JSON variables aside.
pub struct InstanceColumns {
    pub id: Seq<char>,
    pub process_def_id: Seq<char>,
    pub tenant_id: Option<Seq<char>>,
    pub state: Seq<char>,
    pub version: i32,
}

/// A `process_instances` row as a load reads it.
#[derive(Debug)]
pub struct InstanceRow {
    pub id: String,
    pub process_def_id: String,
    pub tenant_id: Option<String>,
    pub variables: serde_json::Value,
    pub state: String,
    pub version: i32,
}

impl InstanceRow {
    /// The row's columns, by value, the JSON variables aside.
    pub open spec fn columns(&self) -> InstanceColumns {
        InstanceColumns {
            id: self.id@,
            process_def_id: self.process_def_id@,
            tenant_id: opt_text(self.tenant_id),
            state: self.state@,
            version: self.version,
        }
    }
}

/// A `process_instances` row as a save writes it.
#[derive(Debug)]
pub struct InstanceRecord {
    pub id: String,
    pub process_def_id: String,
    pub tenant_id: Option<String>,
    pub variables: serde_json::Value,
    pub state: &'static str,
    pub version: i32,
}

impl InstanceRecord {
    /// The record's columns, by value, the JSON variables aside.
    pub open spec fn columns(&self) -> InstanceColumns {
        InstanceColumns {
            id: self.id@,
            process_def_id: self.process_def_id@,
            tenant_id: opt_text(self.tenant_id),
            state: self.state@,
            version: self.version,
        }
    }
}

/// What a load has read of an instance row before it reads the tokens.
#[derive(Debug)]
pub struct InstanceHead {
    pub id: String,
    pub process_def_id: String,
    pub tenant_id: Option<String>,
    pub variables: Variables,
    pub state: InstanceState,
    pub version: i32,
}

/// The columns a save writes for instance `v`, or `None` where its version
/// does not fit the `INT` column.
pub open spec fn encode_instance(v: ProcessInstanceView) -> Option<InstanceColumns> {
    if v.version <= i32::MAX {
        Some(
            InstanceColumns {
                id: v.id,
                process_def_id: v.process_def_id,
                tenant_id: v.tenant_id,
                state: instance_state_text(v.state),
                version: v.version as i32,
            },
        )
    } else {
        None
    }
}

/// What reading the variables and the state of an instance row with
/// columns `c` and variables `json` gives. Variables that are not a JSON
/// object of texts are refused, then a state text that names no state (with
/// that text); otherwise the row's columns are kept, with the variables that
/// object holds and the state the text names.
pub open spec fn instance_head_outcome(c: InstanceColumns, json: serde_json::Value, r: Result<InstanceHead, StoreError>) -> bool {
    match spec_json_string_map(json) {
        None => r matches Err(StoreError::VariablesJson),
        Some(vars) => match instance_state_of_text(c.state) {
            None => r matches Err(StoreError::Decode(DecodeError::UnknownInstanceState(u)))
                && u@ == c.state,
            Some(state) => r matches Ok(h) && h.id@ == c.id && h.process_def_id@
                == c.process_def_id && opt_text(h.tenant_id) == c.tenant_id && h.variables@
                == vars && h.state == state && h.version == c.version,
        },
    }
}

/// Reads the variables and the state of an instance row.
pub fn instance_head(row: InstanceRow) -> (r: Result<InstanceHead, StoreError>)
    ensures
        instance_head_outcome(row.columns(), row.variables, r),
{
    let ghost cols = row.columns();
    let InstanceRow { id, process_def_id, tenant_id, variables, state, version } = row;
    let variables = match adapters::variables_from_json(variables) {
        Ok(pairs) => Variables::from_pairs(pairs),
        Err(_) => return Err(StoreError::VariablesJson),
    };
    let state = match instance_state_from_str(state.as_str()) {
        Ok(s) => s,
        Err(e) => return Err(StoreError::Decode(e)),
    };
    Ok(InstanceHead { id, process_def_id, tenant_id, variables, state, version })
}

/// Completes a load with the instance's tokens; refused where the stored
/// version is negative.
pub fn instance_from_parts(head: InstanceHead, tokens: Vec<Token>) -> (r: Result<
    ProcessInstance,
    StoreError,
>)
    ensures
        head.version < 0 ==> r matches Err(StoreError::IntegerOutOfRange),
        head.version >= 0 ==> (r matches Ok(inst) && inst.id == head.id && inst.process_def_id
            == head.process_def_id && inst.tenant_id == head.tenant_id && inst.tokens == tokens
            && inst.variables == head.variables && inst.state == head.state && inst.version
            == head.version as u32),
{
    if head.version < 0 {
        return Err(StoreError::IntegerOutOfRange);
    }
    let InstanceHead { id, process_def_id, tenant_id, variables, state, version } = head;
    Ok(ProcessInstance { id, process_def_id, tenant_id, tokens, variables, state, version: version as u32 })
}

/// The row a save writes for an instance (its tokens go to their own rows);
/// refused where the version does not fit the `INT` column.
pub fn instance_record(inst: &ProcessInstance) -> (r: Result<InstanceRecord, StoreError>)
    ensures
        match encode_instance(inst@) {
            Some(c) => r matches Ok(rec) && rec.columns() == c && spec_json_string_map(
                rec.variables,
            ) == Some(inst.variables@),
            None => r matches Err(StoreError::IntegerOutOfRange),
        },
{
    let variables = match adapters::variables_to_json(inst.variables.to_pairs()) {
        Ok(v) => v,
        Err(_) => return Err(StoreError::VariablesJson),
    };
    let state = instance_state_to_str(inst.state);
    if inst.version > 2147483647u32 {
        return Err(StoreError::IntegerOutOfRange);
    }
    Ok(
        InstanceRecord {
            id: inst.id.clone(),
            process_def_id: inst.process_def_id.clone(),
            tenant_id: clone_text_option(&inst.tenant_id),
            variables,
            state,
            version: inst.version as i32,
        },
    )
}

/// An instance written by a save reads back with the same id, definition,
/// tenant, state and version; and a save can write an instance exactly when
/// its version fits the `INT` column.
pub proof fn lemma_instance_round_trip(v: ProcessInstanceView)
    ensures
        encode_instance(v) is Some <==> v.version <= i32::MAX,
        encode_instance(v) matches Some(c) ==> {
            &&& instance_state_of_text(c.state) == Some(v.state)
            &&& c.id == v.id
            &&& c.process_def_id == v.process_def_id
            &&& c.tenant_id == v.tenant_id
            &&& c.version >= 0
            &&& c.version as u32 == v.version
        },
{
    lemma_instance_state_text_round_trip(v.state, instance_state_text(v.state));
}

/// Reading back a row that holds what a save wrote for instance `v` gives
/// `v` again, variables included: any outcome that `instance_head` may have
/// on it keeps the id, definition, tenant, variables and state, and its
/// version is `v`'s, which `instance_from_parts` accepts.
pub proof fn lemma_saved_instance_reads_back(
    v: ProcessInstanceView,
    c: InstanceColumns,
    json: serde_json::Value,
    r: Result<InstanceHead, StoreError>,
)
    requires
        encode_instance(v) == Some(c),
        spec_json_string_map(json) == Some(v.variables),
        instance_head_outcome(c, json, r),
    ensures
        r matches Ok(h) && h.id@ == v.id && h.process_def_id@ == v.process_def_id && opt_text(
            h.tenant_id,
        ) == v.tenant_id && h.variables@ == v.variables && h.state == v.state && h.version >= 0
            && h.version as u32 == v.version,
{
    lemma_instance_round_trip(v);
}

/// Rows holding what a save wrote for tokens (each row one token's columns,
/// in any order, with no timestamp yet) read back as those tokens: the read
/// succeeds, and each row gives the token it was written for, its timestamp
/// aside.
pub proof fn lemma_saved_tokens_read_back(tokens: Seq<TokenView>, rows: Seq<TokenRow>, r: Result<Vec<Token>, StoreError>)
    requires
        forall|i: int|
            0 <= i < rows.len() ==> (#[trigger] rows[i]).updated_at is None && exists|j: int|
                0 <= j < tokens.len() && encode_token(tokens[j]) == Some(rows[i].columns()),
        token_rows_outcome(rows, r),
    ensures
        r matches Ok(ts) && ts@.len() == rows.len() && forall|i: int|
            0 <= i < rows.len() ==> exists|j: int|
                0 <= j < tokens.len() && encode_token(tokens[j]) == Some(
                    (#[trigger] rows[i]).columns(),
                ) && ts@[i]@ == (TokenView { updated_at: None, ..tokens[j] }),
{
    match r {
        Ok(ts) => {
            assert forall|i: int| 0 <= i < rows.len() implies exists|j: int|
                0 <= j < tokens.len() && encode_token(tokens[j]) == Some(
                    (#[trigger] rows[i]).columns(),
                ) && ts@[i]@ == (TokenView { updated_at: None, ..tokens[j] }) by {
                let j = choose|j: int|
                    0 <= j < tokens.len() && encode_token(tokens[j]) == Some(rows[i].columns());
                lemma_saved_token_reads_back(tokens[j], rows[i].columns(), Ok(ts@[i]));
            }
        },
        Err(e) => {
            let i = choose|i: int|
                0 <= i < rows.len() && token_row_outcome(
                    #[trigger] rows[i].columns(),
                    rows[i].updated_at,
                    Err(e),
                ) && forall|j: int|
                    0 <= j < i ==> token_row_readable(#[trigger] rows[j].columns(), rows[j].updated_at);
            let j = choose|j: int|
                0 <= j < tokens.len() && encode_token(tokens[j]) == Some(rows[i].columns());
            lemma_saved_token_reads_back(tokens[j], rows[i].columns(), Err(e));
        },
    }
}

/// `perm` is a permutation of `0 .. n`.
pub open spec fn is_permutation(perm: Seq<int>, n: int) -> bool {
    &&& perm.len() == n
    &&& forall|i: int| 0 <= i < n ==> 0 <= #[trigger] perm[i] < n
    &&& forall|i: int, j: int| 0 <= i < j < n ==> perm[i] != perm[j]
}

/// The token set a save wrote reads back as the same set: where the rows
/// are the saved tokens' rows in any order (row `i` holding token
/// `perm[i]`, with no timestamp yet), the read succeeds and gives the saved
/// tokens in that same order, each equal to the one saved apart from its
/// timestamp. So the tokens loaded are a permutation of those saved.
pub proof fn lemma_saved_token_set_reads_back(
    tokens: Seq<TokenView>,
    rows: Seq<TokenRow>,
    perm: Seq<int>,
    r: Result<Vec<Token>, StoreError>,
)
    requires
        is_permutation(perm, tokens.len() as int),
        rows.len() == tokens.len(),
        forall|i: int|
            0 <= i < rows.len() ==> (#[trigger] rows[i]).updated_at is None && encode_token(
                tokens[perm[i]],
            ) == Some(rows[i].columns()),
        token_rows_outcome(rows, r),
    ensures
        r matches Ok(ts) && ts@.len() == tokens.len() && forall|i: int|
            0 <= i < rows.len() ==> (#[trigger] ts@[i])@ == (TokenView {
                updated_at: None,
                ..tokens[perm[i]]
            }),
{
    match r {
        Ok(ts) => {
            assert forall|i: int| 0 <= i < rows.len() implies (#[trigger] ts@[i])@ == (TokenView {
                updated_at: None,
                ..tokens[perm[i]]
            }) by {
                assert(token_row_outcome(rows[i].columns(), rows[i].updated_at, Ok(ts@[i])));
                lemma_saved_token_reads_back(tokens[perm[i]], rows[i].columns(), Ok(ts@[i]));
            }
        },
        Err(e) => {
            let i = choose|i: int|
                0 <= i < rows.len() && token_row_outcome(
                    #[trigger] rows[i].columns(),
                    rows[i].updated_at,
                    Err(e),
                ) && forall|j: int|
                    0 <= j < i ==> token_row_readable(#[trigger] rows[j].columns(), rows[j].updated_at);
            assert(rows[i].updated_at is None);
            lemma_saved_token_reads_back(tokens[perm[i]], rows[i].columns(), Err(e));
        },
    }
}

/// Saving again what a load gave back writes the same instance row: the
/// columns a save writes depend only on the id, definition, tenant, state
/// and version, which the load kept, and the JSON it writes only on the
/// variables, which the load kept too.
pub proof fn lemma_save_again_writes_same_instance_row(v: ProcessInstanceView, w: ProcessInstanceView)
    requires
        w.id == v.id,
        w.process_def_id == v.process_def_id,
        w.tenant_id == v.tenant_id,
        w.state == v.state,
        w.version == v.version,
        w.variables == v.variables,
    ensures
        encode_instance(w) == encode_instance(v),
{
}

/// Saving again a token that a load gave back writes the same row: the
/// timestamp the load added is not among the columns a save writes.
pub proof fn lemma_save_again_writes_same_token_row(t: TokenView, u: Option<Seq<char>>)
    ensures
        encode_token(TokenView { updated_at: u, ..t }) == encode_token(t),
{
}

// ------------------------------------------------------ guarded token updates

/// The parameters of the compare-and-swap update of one token: it writes
/// status, mode, attempt count and group, and bumps the version, only where
/// the stored row still has `expected_version`.
#[derive(Debug)]
pub struct TokenCasUpdate {
    pub status: &'static str,
    pub mode: &'static str,
    pub attempt: i32,
    pub parallel_group_id: Option<String>,
    pub instance_id: String,
    pub token_id: String,
    pub expected_version: i32,
}

/// The parameters of the compare-and-swap update for `token` of instance
/// `instance_id`; refused where its version or attempt count does not fit
/// the `INT` columns.
pub fn token_cas_update(instance_id: &str, token: &Token) -> (r: Result<TokenCasUpdate, StoreError>)
    ensures
        (token.version <= i32::MAX && token.attempt <= i32::MAX) ==> (r matches Ok(u)
            && u.status@ == token_status_text(token.status) && u.mode@ == token_mode_text(
            token.mode,
        ) && u.attempt == token.attempt && opt_text(u.parallel_group_id) == opt_text(
            token.parallel_group_id,
        ) && u.instance_id@ == instance_id@ && u.token_id@ == token.id@ && u.expected_version
            == token.version),
        !(token.version <= i32::MAX && token.attempt <= i32::MAX) ==> r matches Err(
            StoreError::IntegerOutOfRange,
        ),
{
    let status = token_status_to_str(token.status);
    let mode = token_mode_to_str(token.mode);
    if token.version > 2147483647u32 || token.attempt > 2147483647u32 {
        return Err(StoreError::IntegerOutOfRange);
    }
    Ok(
        TokenCasUpdate {
            status,
            mode,
            attempt: token.attempt as i32,
            parallel_group_id: clone_text_option(&token.parallel_group_id),
            instance_id: instance_id.to_owned(),
            token_id: token.id.clone(),
            expected_version: token.version as i32,
        },
    )
}

/// The parameters of claiming a token: it is set to `Executing` and its
/// version bumped, only where the stored row still has `expected_version`
/// and is neither completed nor terminated.
#[derive(Debug)]
pub struct ClaimTokenUpdate {
    pub status: &'static str,
    pub instance_id: String,
    pub token_id: String,
    pub expected_version: i32,
}

/// The parameters of claiming token `token_id` of instance `instance_id` at
/// `version`; refused where the version does not fit the `INT` column.
pub fn claim_token_update(instance_id: &str, token_id: &str, version: u32) -> (r: Result<
    ClaimTokenUpdate,
    StoreError,
>)
    ensures
        version <= i32::MAX ==> (r matches Ok(u) && u.status@ == token_status_text(
            TokenStatus::Executing,
        ) && u.instance_id@ == instance_id@ && u.token_id@ == token_id@ && u.expected_version
            == version),
        version > i32::MAX ==> r matches Err(StoreError::IntegerOutOfRange),
{
    if version > 2147483647u32 {
        return Err(StoreError::IntegerOutOfRange);
    }
    let status = token_status_to_str(TokenStatus::Executing);
    Ok(
        ClaimTokenUpdate {
            status,
            instance_id: instance_id.to_owned(),
            token_id: token_id.to_owned(),
            expected_version: version as i32,
        },
    )
}

/// Whether a guarded update took effect, from the number of rows it
/// changed: exactly one.
pub fn update_applied(rows_affected: u64) -> (r: bool)
    ensures
        r == (rows_affected == 1),
{
    rows_affected == 1
}

} // verus!
