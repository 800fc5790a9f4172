use bpm_portal::codec::{
    instance_state_from_str, instance_state_to_str, token_mode_from_str, token_mode_to_str,
    token_status_from_str, token_status_to_str, DecodeError, InstanceState, TokenMode,
    TokenStatus,
};
use bpm_portal::variables::Variables;

#[test]
fn instance_state_texts_round_trip() {
    for s in [InstanceState::Running, InstanceState::Completed, InstanceState::Terminated] {
        assert_eq!(instance_state_from_str(instance_state_to_str(s)), Ok(s));
    }
    assert_eq!(instance_state_to_str(InstanceState::Completed), "Completed");
}

#[test]
fn token_status_texts_round_trip() {
    let all = [
        TokenStatus::Created,
        TokenStatus::Ready,
        TokenStatus::Executing,
        TokenStatus::Waiting,
        TokenStatus::Suspended,
        TokenStatus::Completed,
        TokenStatus::Terminated,
    ];
    for s in all {
        assert_eq!(token_status_from_str(token_status_to_str(s)), Ok(s));
    }
    assert_eq!(token_status_to_str(TokenStatus::Waiting), "Waiting");
}

#[test]
fn token_mode_texts_round_trip() {
    for m in [TokenMode::Forward, TokenMode::Compensation] {
        assert_eq!(token_mode_from_str(token_mode_to_str(m)), Ok(m));
    }
    assert_eq!(token_mode_to_str(TokenMode::Compensation), "Compensation");
}

#[test]
fn unknown_texts_are_refused_with_the_text() {
    assert_eq!(
        instance_state_from_str("running"),
        Err(DecodeError::UnknownInstanceState("running".to_string()))
    );
    assert_eq!(
        token_status_from_str("Done"),
        Err(DecodeError::UnknownTokenStatus("Done".to_string()))
    );
    assert_eq!(token_mode_from_str(""), Err(DecodeError::UnknownTokenMode(String::new())));
}

#[test]
fn variables_insert_and_get() {
    let mut v = Variables::new();
    assert_eq!(v.len(), 0);
    assert_eq!(v.get("a"), None);
    v.insert("a".to_string(), "1".to_string());
    v.insert("b".to_string(), "2".to_string());
    v.insert("a".to_string(), "3".to_string());
    assert_eq!(v.len(), 2);
    assert_eq!(v.get("a"), Some(&"3".to_string()));
    assert_eq!(v.get("b"), Some(&"2".to_string()));
    assert_eq!(v.get("c"), None);
}

#[test]
fn variables_from_pairs_later_pair_wins() {
    let v = Variables::from_pairs(vec![
        ("k".to_string(), "x".to_string()),
        ("j".to_string(), "y".to_string()),
        ("k".to_string(), "z".to_string()),
    ]);
    assert_eq!(v.len(), 2);
    assert_eq!(v.get("k"), Some(&"z".to_string()));
    let mut pairs = v.to_pairs();
    pairs.sort();
    assert_eq!(pairs, vec![("j".to_string(), "y".to_string()), ("k".to_string(), "z".to_string())]);
}
