//! Text forms of the engine's instance states, token statuses and token
//! modes, as they are stored in the database's text columns.
use vstd::prelude::*;
use crate::text::{concat_text, text_eq};

verus! {

/// Lifecycle state of a process instance.
#[derive(Clone, Copy, Debug, PartialEq, Eq, Structural)]
pub enum InstanceState {
    Running,
    Completed,
    Terminated,
}

/// Status of a token.
#[derive(Clone, Copy, Debug, PartialEq, Eq, Structural)]
pub enum TokenStatus {
    Created,
    Ready,
    Executing,
    Waiting,
    Suspended,
    Completed,
    Terminated,
}

/// Direction a token moves in.
#[derive(Clone, Copy, Debug, PartialEq, Eq, Structural)]
pub enum TokenMode {
    Forward,
    Compensation,
}

/// A stored text that names no known variant; it carries the text.
#[derive(Debug, PartialEq, Eq)]
pub enum DecodeError {
    UnknownInstanceState(String),
    UnknownTokenStatus(String),
    UnknownTokenMode(String),
}

impl DecodeError {
    /// The error's text: which kind of value was unknown, and the stored text.
    pub fn message(&self) -> (r: String)
        ensures
            self matches DecodeError::UnknownInstanceState(t) ==> r@ == "unknown InstanceState in DB: "@ + t@,
            self matches DecodeError::UnknownTokenStatus(t) ==> r@ == "unknown TokenStatus in DB: "@ + t@,
            self matches DecodeError::UnknownTokenMode(t) ==> r@ == "unknown TokenMode in DB: "@ + t@,
    {
        match self {
            DecodeError::UnknownInstanceState(t) => concat_text("unknown InstanceState in DB: ", t.as_str()),
            DecodeError::UnknownTokenStatus(t) => concat_text("unknown TokenStatus in DB: ", t.as_str()),
            DecodeError::UnknownTokenMode(t) => concat_text("unknown TokenMode in DB: ", t.as_str()),
        }
    }
}

/// The stored text of an instance state.
pub open spec fn instance_state_text(s: InstanceState) -> Seq<char> {
    match s {
        InstanceState::Running => "Running"@,
        InstanceState::Completed => "Completed"@,
        InstanceState::Terminated => "Terminated"@,
    }
}

/// The instance state stored as `t`, if any.
pub open spec fn instance_state_of_text(t: Seq<char>) -> Option<InstanceState> {
    if t == "Running"@ {
        Some(InstanceState::Running)
    } else if t == "Completed"@ {
        Some(InstanceState::Completed)
    } else if t == "Terminated"@ {
        Some(InstanceState::Terminated)
    } else {
        None
    }
}

/// The stored text of a token status.
pub open spec fn token_status_text(s: TokenStatus) -> Seq<char> {
    match s {
        TokenStatus::Created => "Created"@,
        TokenStatus::Ready => "Ready"@,
        TokenStatus::Executing => "Executing"@,
        TokenStatus::Waiting => "Waiting"@,
        TokenStatus::Suspended => "Suspended"@,
        TokenStatus::Completed => "Completed"@,
        TokenStatus::Terminated => "Terminated"@,
    }
}

/// The token status stored as `t`, if any.
pub open spec fn token_status_of_text(t: Seq<char>) -> Option<TokenStatus> {
    if t == "Created"@ {
        Some(TokenStatus::Created)
    } else if t == "Ready"@ {
        Some(TokenStatus::Ready)
    } else if t == "Executing"@ {
        Some(TokenStatus::Executing)
    } else if t == "Waiting"@ {
        Some(TokenStatus::Waiting)
    } else if t == "Suspended"@ {
        Some(TokenStatus::Suspended)
    } else if t == "Completed"@ {
        Some(TokenStatus::Completed)
    } else if t == "Terminated"@ {
        Some(TokenStatus::Terminated)
    } else {
        None
    }
}

/// The stored text of a token mode.
pub open spec fn token_mode_text(m: TokenMode) -> Seq<char> {
    match m {
        TokenMode::Forward => "Forward"@,
        TokenMode::Compensation => "Compensation"@,
    }
}

/// The token mode stored as `t`, if any.
pub open spec fn token_mode_of_text(t: Seq<char>) -> Option<TokenMode> {
    if t == "Forward"@ {
        Some(TokenMode::Forward)
    } else if t == "Compensation"@ {
        Some(TokenMode::Compensation)
    } else {
        None
    }
}

/// Text of an instance state, as written to the `state` column.
pub fn instance_state_to_str(s: InstanceState) -> (r: &'static str)
    ensures
        r@ == instance_state_text(s),
{
    match s {
        InstanceState::Running => "Running",
        InstanceState::Completed => "Completed",
        InstanceState::Terminated => "Terminated",
    }
}

/// Reads an instance state back from its stored text; any other text is
/// refused with an error that carries it.
pub fn instance_state_from_str(t: &str) -> (r: Result<InstanceState, DecodeError>)
    ensures
        match instance_state_of_text(t@) {
            Some(s) => r == Ok::<InstanceState, DecodeError>(s),
            None => r matches Err(DecodeError::UnknownInstanceState(u)) && u@ == t@,
        },
{
    if text_eq(t, "Running") {
        Ok(InstanceState::Running)
    } else if text_eq(t, "Completed") {
        Ok(InstanceState::Completed)
    } else if text_eq(t, "Terminated") {
        Ok(InstanceState::Terminated)
    } else {
        Err(DecodeError::UnknownInstanceState(t.to_owned()))
    }
}

/// Text of a token status, as written to the `status` column.
pub fn token_status_to_str(s: TokenStatus) -> (r: &'static str)
    ensures
        r@ == token_status_text(s),
        s == TokenStatus::Created ==> r@ == "Created"@,
        s == TokenStatus::Ready ==> r@ == "Ready"@,
        s == TokenStatus::Executing ==> r@ == "Executing"@,
        s == TokenStatus::Waiting ==> r@ == "Waiting"@,
        s == TokenStatus::Suspended ==> r@ == "Suspended"@,
        s == TokenStatus::Completed ==> r@ == "Completed"@,
        s == TokenStatus::Terminated ==> r@ == "Terminated"@,
{
    match s {
        TokenStatus::Created => "Created",
        TokenStatus::Ready => "Ready",
        TokenStatus::Executing => "Executing",
        TokenStatus::Waiting => "Waiting",
        TokenStatus::Suspended => "Suspended",
        TokenStatus::Completed => "Completed",
        TokenStatus::Terminated => "Terminated",
    }
}

/// Reads a token status back from its stored text; any other text is
/// refused with an error that carries it.
pub fn token_status_from_str(t: &str) -> (r: Result<TokenStatus, DecodeError>)
    ensures
        match token_status_of_text(t@) {
            Some(s) => r == Ok::<TokenStatus, DecodeError>(s),
            None => r matches Err(DecodeError::UnknownTokenStatus(u)) && u@ == t@,
        },
{
    if text_eq(t, "Created") {
        Ok(TokenStatus::Created)
    } else if text_eq(t, "Ready") {
        Ok(TokenStatus::Ready)
    } else if text_eq(t, "Executing") {
        Ok(TokenStatus::Executing)
    } else if text_eq(t, "Waiting") {
        Ok(TokenStatus::Waiting)
    } else if text_eq(t, "Suspended") {
        Ok(TokenStatus::Suspended)
    } else if text_eq(t, "Completed") {
        Ok(TokenStatus::Completed)
    } else if text_eq(t, "Terminated") {
        Ok(TokenStatus::Terminated)
    } else {
        Err(DecodeError::UnknownTokenStatus(t.to_owned()))
    }
}

/// Text of a token mode, as written to the `mode` column.
pub fn token_mode_to_str(m: TokenMode) -> (r: &'static str)
    ensures
        r@ == token_mode_text(m),
{
    match m {
        TokenMode::Forward => "Forward",
        TokenMode::Compensation => "Compensation",
    }
}

/// Reads a token mode back from its stored text; any other text is refused
/// with an error that carries it.
pub fn token_mode_from_str(t: &str) -> (r: Result<TokenMode, DecodeError>)
    ensures
        match token_mode_of_text(t@) {
            Some(m) => r == Ok::<TokenMode, DecodeError>(m),
            None => r matches Err(DecodeError::UnknownTokenMode(u)) && u@ == t@,
        },
{
    if text_eq(t, "Forward") {
        Ok(TokenMode::Forward)
    } else if text_eq(t, "Compensation") {
        Ok(TokenMode::Compensation)
    } else {
        Err(DecodeError::UnknownTokenMode(t.to_owned()))
    }
}

/// Each token status is stored as its own name, and each name reads back as
/// that status.
pub proof fn lemma_token_status_names()
    ensures
        token_status_text(TokenStatus::Created) == "Created"@,
        token_status_text(TokenStatus::Ready) == "Ready"@,
        token_status_text(TokenStatus::Executing) == "Executing"@,
        token_status_text(TokenStatus::Waiting) == "Waiting"@,
        token_status_text(TokenStatus::Suspended) == "Suspended"@,
        token_status_text(TokenStatus::Completed) == "Completed"@,
        token_status_text(TokenStatus::Terminated) == "Terminated"@,
        token_status_of_text("Created"@) == Some(TokenStatus::Created),
        token_status_of_text("Ready"@) == Some(TokenStatus::Ready),
        token_status_of_text("Executing"@) == Some(TokenStatus::Executing),
        token_status_of_text("Waiting"@) == Some(TokenStatus::Waiting),
        token_status_of_text("Suspended"@) == Some(TokenStatus::Suspended),
        token_status_of_text("Completed"@) == Some(TokenStatus::Completed),
        token_status_of_text("Terminated"@) == Some(TokenStatus::Terminated),
{
    lemma_token_status_text_round_trip(TokenStatus::Created, "Created"@);
    lemma_token_status_text_round_trip(TokenStatus::Ready, "Ready"@);
    lemma_token_status_text_round_trip(TokenStatus::Executing, "Executing"@);
    lemma_token_status_text_round_trip(TokenStatus::Waiting, "Waiting"@);
    lemma_token_status_text_round_trip(TokenStatus::Suspended, "Suspended"@);
    lemma_token_status_text_round_trip(TokenStatus::Completed, "Completed"@);
    lemma_token_status_text_round_trip(TokenStatus::Terminated, "Terminated"@);
}

/// Each instance state is stored as its own name, and each name reads back
/// as that state; likewise each token mode.
pub proof fn lemma_state_and_mode_names()
    ensures
        instance_state_text(InstanceState::Running) == "Running"@,
        instance_state_text(InstanceState::Completed) == "Completed"@,
        instance_state_text(InstanceState::Terminated) == "Terminated"@,
        instance_state_of_text("Running"@) == Some(InstanceState::Running),
        instance_state_of_text("Completed"@) == Some(InstanceState::Completed),
        instance_state_of_text("Terminated"@) == Some(InstanceState::Terminated),
        token_mode_text(TokenMode::Forward) == "Forward"@,
        token_mode_text(TokenMode::Compensation) == "Compensation"@,
        token_mode_of_text("Forward"@) == Some(TokenMode::Forward),
        token_mode_of_text("Compensation"@) == Some(TokenMode::Compensation),
{
    lemma_instance_state_text_round_trip(InstanceState::Running, "Running"@);
    lemma_instance_state_text_round_trip(InstanceState::Completed, "Completed"@);
    lemma_instance_state_text_round_trip(InstanceState::Terminated, "Terminated"@);
    lemma_token_mode_text_round_trip(TokenMode::Forward, "Forward"@);
    lemma_token_mode_text_round_trip(TokenMode::Compensation, "Compensation"@);
}

/// The texts that the claim guard refuses (`status NOT IN ('Completed',
/// 'Terminated')`).
pub open spec fn claim_refused_text(t: Seq<char>) -> bool {
    t == "Completed"@ || t == "Terminated"@
}

/// A stored token is refused by the claim guard exactly when it is completed
/// or terminated: no other status is stored as one of the refused texts.
pub proof fn lemma_claim_refuses_exactly_finished_tokens(s: TokenStatus)
    ensures
        claim_refused_text(token_status_text(s)) <==> (s == TokenStatus::Completed || s
            == TokenStatus::Terminated),
{
    lemma_token_status_names();
    reveal_strlit("Created");
    reveal_strlit("Ready");
    reveal_strlit("Executing");
    reveal_strlit("Waiting");
    reveal_strlit("Suspended");
    reveal_strlit("Completed");
    reveal_strlit("Terminated");
    assert("Created"@.len() == 7 && "Ready"@.len() == 5 && "Executing"@.len() == 9);
    assert("Waiting"@.len() == 7 && "Suspended"@.len() == 9 && "Completed"@.len() == 9);
    assert("Terminated"@.len() == 10);
    assert("Executing"@[0] != "Completed"@[0]);
    assert("Suspended"@[0] != "Completed"@[0]);
}

/// Every instance state reads back as itself from the text it is stored as,
/// and a text that reads as a state is exactly that state's text.
pub proof fn lemma_instance_state_text_round_trip(s: InstanceState, t: Seq<char>)
    ensures
        instance_state_of_text(instance_state_text(s)) == Some(s),
        instance_state_of_text(t) == Some(s) ==> instance_state_text(s) == t,
{
    reveal_strlit("Running");
    reveal_strlit("Completed");
    reveal_strlit("Terminated");
    assert("Running"@.len() == 7 && "Completed"@.len() == 9 && "Terminated"@.len() == 10);
}

/// Every token status reads back as itself from the text it is stored as,
/// and a text that reads as a status is exactly that status's text.
pub proof fn lemma_token_status_text_round_trip(s: TokenStatus, t: Seq<char>)
    ensures
        token_status_of_text(token_status_text(s)) == Some(s),
        token_status_of_text(t) == Some(s) ==> token_status_text(s) == t,
{
    reveal_strlit("Created");
    reveal_strlit("Ready");
    reveal_strlit("Executing");
    reveal_strlit("Waiting");
    reveal_strlit("Suspended");
    reveal_strlit("Completed");
    reveal_strlit("Terminated");
    assert("Created"@.len() == 7 && "Ready"@.len() == 5 && "Executing"@.len() == 9);
    assert("Waiting"@.len() == 7 && "Suspended"@.len() == 9 && "Completed"@.len() == 9);
    assert("Terminated"@.len() == 10);
    assert("Created"@[0] != "Waiting"@[0]);
    assert("Executing"@[0] != "Suspended"@[0]);
    assert("Executing"@[0] != "Completed"@[0]);
    assert("Suspended"@[0] != "Completed"@[0]);
}

/// Every token mode reads back as itself from the text it is stored as, and
/// a text that reads as a mode is exactly that mode's text.
pub proof fn lemma_token_mode_text_round_trip(m: TokenMode, t: Seq<char>)
    ensures
        token_mode_of_text(token_mode_text(m)) == Some(m),
        token_mode_of_text(t) == Some(m) ==> token_mode_text(m) == t,
{
    reveal_strlit("Forward");
    reveal_strlit("Compensation");
    assert("Forward"@.len() == 7 && "Compensation"@.len() == 12);
}

} // verus!
