use bpm_portal::codec::{DecodeError, InstanceState, TokenMode, TokenStatus};
use bpm_portal::model::{ProcessInstance, Timestamp, Token};
use bpm_portal::store::{
    claim_token_update, instance_from_parts, instance_head, instance_record, token_cas_update,
    token_from_row, token_record, token_records, tokens_from_rows, update_applied, InstanceRow,
    StoreError, TokenRow,
};
use bpm_portal::variables::Variables;

fn token(id: &str, version: u32, attempt: u32) -> Token {
    Token {
        id: id.to_string(),
        node_id: "task1".to_string(),
        status: TokenStatus::Waiting,
        mode: TokenMode::Compensation,
        version,
        attempt,
        parallel_group_id: Some("g1".to_string()),
        updated_at: None,
    }
}

fn row(status: &str, mode: &str, version: i32, attempt: i32) -> TokenRow {
    TokenRow {
        id: "t1".to_string(),
        node_id: "n1".to_string(),
        status: status.to_string(),
        mode: mode.to_string(),
        version,
        attempt,
        parallel_group_id: None,
        updated_at: None,
    }
}

#[test]
fn token_row_is_read() {
    let t = token_from_row(&row("Ready", "Forward", 4, 2)).unwrap();
    assert_eq!(t.id, "t1");
    assert_eq!(t.node_id, "n1");
    assert_eq!(t.status, TokenStatus::Ready);
    assert_eq!(t.mode, TokenMode::Forward);
    assert_eq!(t.version, 4);
    assert_eq!(t.attempt, 2);
    assert_eq!(t.parallel_group_id, None);
    assert_eq!(t.updated_at, None);
}

#[test]
fn token_row_timestamp_is_rfc3339_text() {
    let mut r = row("Ready", "Forward", 0, 0);
    r.updated_at = Some(Timestamp { unix_nanos: 0, offset_seconds: 0 });
    let t = token_from_row(&r).unwrap();
    assert_eq!(t.updated_at, Some("1970-01-01T00:00:00Z".to_string()));
    r.updated_at = Some(Timestamp { unix_nanos: 1_500_000_000, offset_seconds: 3600 });
    let t = token_from_row(&r).unwrap();
    assert_eq!(t.updated_at, Some("1970-01-01T01:00:01.5+01:00".to_string()));
    r.updated_at = Some(Timestamp { unix_nanos: i128::MAX, offset_seconds: 0 });
    assert_eq!(token_from_row(&r).unwrap_err(), StoreError::TimestampFormat);
}

#[test]
fn token_row_errors_come_in_column_order() {
    assert_eq!(
        token_from_row(&row("Nope", "Bad", -1, 0)).unwrap_err(),
        StoreError::Decode(DecodeError::UnknownTokenStatus("Nope".to_string()))
    );
    assert_eq!(
        token_from_row(&row("Ready", "Bad", -1, 0)).unwrap_err(),
        StoreError::Decode(DecodeError::UnknownTokenMode("Bad".to_string()))
    );
    assert_eq!(token_from_row(&row("Ready", "Forward", -1, 0)).unwrap_err(), StoreError::IntegerOutOfRange);
    assert_eq!(token_from_row(&row("Ready", "Forward", 0, -5)).unwrap_err(), StoreError::IntegerOutOfRange);
}

#[test]
fn tokens_from_rows_stops_at_first_bad_row() {
    let rows = vec![row("Ready", "Forward", 1, 0), row("Ready", "Sideways", 1, 0), row("X", "Forward", 1, 0)];
    assert_eq!(
        tokens_from_rows(&rows).unwrap_err(),
        StoreError::Decode(DecodeError::UnknownTokenMode("Sideways".to_string()))
    );
    let ok = tokens_from_rows(&vec![row("Created", "Forward", 1, 0), row("Completed", "Forward", 2, 1)]).unwrap();
    assert_eq!(ok.len(), 2);
    assert_eq!(ok[1].status, TokenStatus::Completed);
}

#[test]
fn token_written_reads_back() {
    let t = token("tok", 7, 3);
    let rec = token_record(&t).unwrap();
    assert_eq!(rec.status, "Waiting");
    assert_eq!(rec.mode, "Compensation");
    assert_eq!(rec.version, 7);
    assert_eq!(rec.attempt, 3);
    let back = token_from_row(&TokenRow {
        id: rec.id.clone(),
        node_id: rec.node_id.clone(),
        status: rec.status.to_string(),
        mode: rec.mode.to_string(),
        version: rec.version,
        attempt: rec.attempt,
        parallel_group_id: rec.parallel_group_id.clone(),
        updated_at: None,
    })
    .unwrap();
    assert_eq!(back.id, t.id);
    assert_eq!(back.node_id, t.node_id);
    assert_eq!(back.status, t.status);
    assert_eq!(back.mode, t.mode);
    assert_eq!(back.version, t.version);
    assert_eq!(back.attempt, t.attempt);
    assert_eq!(back.parallel_group_id, t.parallel_group_id);
}

#[test]
fn token_too_large_for_int_column_is_refused() {
    assert_eq!(token_record(&token("a", 2147483648, 0)).unwrap_err(), StoreError::IntegerOutOfRange);
    assert_eq!(token_record(&token("a", 0, u32::MAX)).unwrap_err(), StoreError::IntegerOutOfRange);
    assert!(token_record(&token("a", 2147483647, 2147483647)).is_ok());
    assert_eq!(
        token_records(&vec![token("a", 1, 1), token("b", 3000000000, 1)]).unwrap_err(),
        StoreError::IntegerOutOfRange
    );
    assert_eq!(token_records(&vec![token("a", 1, 1), token("b", 2, 1)]).unwrap().len(), 2);
}

fn instance_row(json: &str, state: &str, version: i32) -> InstanceRow {
    InstanceRow {
        id: "inst".to_string(),
        process_def_id: "def".to_string(),
        tenant_id: Some("acme".to_string()),
        variables: serde_json::from_str(json).unwrap(),
        state: state.to_string(),
        version,
    }
}

#[test]
fn instance_row_is_read() {
    let head = instance_head(instance_row(r#"{"need_task2":"yes"}"#, "Running", 3)).unwrap();
    assert_eq!(head.state, InstanceState::Running);
    assert_eq!(head.variables.get("need_task2"), Some(&"yes".to_string()));
    let inst = instance_from_parts(head, vec![token("t", 1, 0)]).unwrap();
    assert_eq!(inst.id, "inst");
    assert_eq!(inst.process_def_id, "def");
    assert_eq!(inst.tenant_id, Some("acme".to_string()));
    assert_eq!(inst.version, 3);
    assert_eq!(inst.tokens.len(), 1);
}

#[test]
fn instance_row_errors() {
    assert_eq!(
        instance_head(instance_row(r#"{"a":1}"#, "Bogus", 0)).err(),
        Some(StoreError::VariablesJson)
    );
    assert_eq!(
        instance_head(instance_row(r#"{}"#, "Bogus", 0)).err(),
        Some(StoreError::Decode(DecodeError::UnknownInstanceState("Bogus".to_string())))
    );
    let head = instance_head(instance_row("{}", "Completed", -2)).unwrap();
    assert_eq!(instance_from_parts(head, vec![]).err(), Some(StoreError::IntegerOutOfRange));
}

#[test]
fn instance_written_reads_back() {
    let mut vars = Variables::new();
    vars.insert("x".to_string(), "1".to_string());
    let inst = ProcessInstance {
        id: "i1".to_string(),
        process_def_id: "d1".to_string(),
        tenant_id: None,
        tokens: vec![],
        variables: vars,
        state: InstanceState::Terminated,
        version: 9,
    };
    let rec = instance_record(&inst).unwrap();
    assert_eq!(rec.state, "Terminated");
    assert_eq!(rec.version, 9);
    let head = instance_head(InstanceRow {
        id: rec.id.clone(),
        process_def_id: rec.process_def_id.clone(),
        tenant_id: rec.tenant_id.clone(),
        variables: rec.variables.clone(),
        state: rec.state.to_string(),
        version: rec.version,
    })
    .unwrap();
    let back = instance_from_parts(head, vec![]).unwrap();
    assert_eq!(back.id, "i1");
    assert_eq!(back.state, InstanceState::Terminated);
    assert_eq!(back.version, 9);
    assert_eq!(back.variables.get("x"), Some(&"1".to_string()));

    let big = ProcessInstance { version: 2147483648, ..inst };
    assert_eq!(instance_record(&big).err(), Some(StoreError::IntegerOutOfRange));
}

#[test]
fn guarded_updates() {
    let t = token("tok", 5, 2);
    let u = token_cas_update("inst", &t).unwrap();
    assert_eq!(u.status, "Waiting");
    assert_eq!(u.mode, "Compensation");
    assert_eq!(u.attempt, 2);
    assert_eq!(u.expected_version, 5);
    assert_eq!(u.instance_id, "inst");
    assert_eq!(u.token_id, "tok");
    assert_eq!(token_cas_update("inst", &token("tok", 5, 2147483648)).err(), Some(StoreError::IntegerOutOfRange));

    let c = claim_token_update("inst", "tok", 8).unwrap();
    assert_eq!(c.status, "Executing");
    assert_eq!(c.expected_version, 8);
    assert_eq!(claim_token_update("inst", "tok", u32::MAX).err(), Some(StoreError::IntegerOutOfRange));

    assert!(update_applied(1));
    assert!(!update_applied(0));
    assert!(!update_applied(2));
}

#[test]
fn store_error_messages() {
    let e = token_from_row(&row("Nope", "Forward", 0, 0)).unwrap_err();
    assert_eq!(e.message(), "unknown TokenStatus in DB: Nope");
    let e = token_from_row(&row("Ready", "Up", 0, 0)).unwrap_err();
    assert_eq!(e.message(), "unknown TokenMode in DB: Up");
    let e = instance_head(instance_row("{}", "Paused", 0)).err().unwrap();
    assert_eq!(e.message(), "unknown InstanceState in DB: Paused");
    assert_eq!(StoreError::IntegerOutOfRange.message(), "out of range integral type conversion attempted");
    assert_eq!(i32::try_from(u32::MAX).unwrap_err().to_string(), StoreError::IntegerOutOfRange.message());
}

#[test]
fn variables_that_are_not_an_object_of_texts_are_refused() {
    for json in ["[]", "3", r#"{"a":{"b":"c"}}"#, r#"{"a":null}"#] {
        assert_eq!(instance_head(instance_row(json, "Running", 0)).err(), Some(StoreError::VariablesJson));
    }
    let head = instance_head(instance_row(r#"{"a":"1","b":"2"}"#, "Running", 0)).unwrap();
    assert_eq!(head.variables.len(), 2);
    assert_eq!(head.variables.get("b"), Some(&"2".to_string()));
}

#[test]
fn saved_tokens_read_back_in_any_order() {
    let tokens = vec![token("a", 1, 0), token("b", 2, 1)];
    let recs = token_records(&tokens).unwrap();
    let rows: Vec<TokenRow> = recs
        .iter()
        .rev()
        .map(|rec| TokenRow {
            id: rec.id.clone(),
            node_id: rec.node_id.clone(),
            status: rec.status.to_string(),
            mode: rec.mode.to_string(),
            version: rec.version,
            attempt: rec.attempt,
            parallel_group_id: rec.parallel_group_id.clone(),
            updated_at: None,
        })
        .collect();
    let back = tokens_from_rows(&rows).unwrap();
    assert_eq!(back[0].id, "b");
    assert_eq!(back[0].version, 2);
    assert_eq!(back[1].id, "a");
    assert_eq!(back[1].status, TokenStatus::Waiting);
}
