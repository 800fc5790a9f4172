//! Process instances and their tokens, as the library holds them.
use vstd::prelude::*;
use crate::codec::{InstanceState, TokenMode, TokenStatus};
use crate::variables::Variables;

verus! {

/// A text option, taken by the characters it holds.
pub open spec fn opt_text(o: Option<String>) -> Option<Seq<char>> {
    match o {
        Some(s) => Some(s@),
        None => None,
    }
}

/// A point in time as the database gives it: the instant, in nanoseconds
/// since the Unix epoch, and the UTC offset it is seen at, in seconds.
#[derive(Debug, Clone, Copy, PartialEq, Eq, Structural)]
pub struct Timestamp {
    pub unix_nanos: i128,
    pub offset_seconds: i32,
}

/// A token of a process instance.
#[derive(Debug)]
pub struct Token {
    pub id: String,
    pub node_id: String,
    pub status: TokenStatus,
    pub mode: TokenMode,
    pub version: u32,
    pub attempt: u32,
    pub parallel_group_id: Option<String>,
    pub updated_at: Option<String>,
}

/// A token, taken by value.
pub struct TokenView {
    pub id: Seq<char>,
    pub node_id: Seq<char>,
    pub status: TokenStatus,
    pub mode: TokenMode,
    pub version: u32,
    pub attempt: u32,
    pub parallel_group_id: Option<Seq<char>>,
    pub updated_at: Option<Seq<char>>,
}

impl View for Token {
    type V = TokenView;

    open spec fn view(&self) -> TokenView {
        TokenView {
            id: self.id@,
            node_id: self.node_id@,
            status: self.status,
            mode: self.mode,
            version: self.version,
            attempt: self.attempt,
            parallel_group_id: opt_text(self.parallel_group_id),
            updated_at: opt_text(self.updated_at),
        }
    }
}

/// A process instance.
#[derive(Debug)]
pub struct ProcessInstance {
    pub id: String,
    pub process_def_id: String,
    pub tenant_id: Option<String>,
    pub tokens: Vec<Token>,
    pub variables: Variables,
    pub state: InstanceState,
    pub version: u32,
}

/// A process instance, taken by value.
pub struct ProcessInstanceView {
    pub id: Seq<char>,
    pub process_def_id: Seq<char>,
    pub tenant_id: Option<Seq<char>>,
    pub tokens: Seq<TokenView>,
    pub variables: Map<Seq<char>, Seq<char>>,
    pub state: InstanceState,
    pub version: u32,
}

impl View for ProcessInstance {
    type V = ProcessInstanceView;

    open spec fn view(&self) -> ProcessInstanceView {
        ProcessInstanceView {
            id: self.id@,
            process_def_id: self.process_def_id@,
            tenant_id: opt_text(self.tenant_id),
            tokens: self.tokens@.map_values(|t: Token| t@),
            variables: self.variables@,
            state: self.state,
            version: self.version,
        }
    }
}

} // verus!
