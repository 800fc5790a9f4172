//! The decisions of the process pages: uploading a definition, starting an
//! instance, showing one, advancing one by completing a user task, listing
//! definitions and deleting.
use vstd::prelude::*;
use crate::adapters::{
    compile_error_text, is_v4_uuid, rfc3339_text, spec_rfc3339, spec_timestamp_text, header_char_ok, header_value_ok, new_uuid,
    parse_and_compile, parse_uuid, uuid_text_char, spec_bpmn_node_kinds, spec_definition_node_kinds, spec_bpmn_compiles, spec_parse_uuid, spec_uuid_text, timestamp_debug_text,
    uuid_text,
};
use crate::codec::{instance_state_text, instance_state_to_str, token_status_text, token_status_to_str};
use crate::definition::{DefinitionNodes, NodeKind};
use crate::errors::{ProcessStartError, ProcessUploadError};
use crate::model::{ProcessInstance, Timestamp, Token, TokenView};
use crate::reply::{hx_redirect, is_hx_redirect, Reply};
use crate::text::{concat_text, text_eq};
use crate::variables::Variables;

verus! {

// ------------------------------------------------------------------ upload

/// The upload form.
#[derive(Debug)]
pub struct ProcessUploadForm {
    pub name: String,
    pub bpmn_xml: String,
}

/// Checks that the uploaded BPMN compiles; where it does not, the error
/// carries the compiler's report.
pub fn validate_upload(form: &ProcessUploadForm) -> (r: Result<(), ProcessUploadError>)
    ensures
        r is Ok == spec_bpmn_compiles(form.bpmn_xml@),
        r matches Err(e) ==> e is InvalidBpmn,
{
    match parse_and_compile(form.bpmn_xml.as_str()) {
        Ok(_) => Ok(()),
        Err(e) => Err(ProcessUploadError::InvalidBpmn(compile_error_text(&e))),
    }
}

/// The answer to a stored upload: back to the upload page, with the new
/// definition's id as the body.
pub fn upload_reply(process_id: u128) -> (r: Reply)
    ensures
        r.status == 200,
        r.header matches Some(h) && h.name@ == "hx-redirect"@ && h.value@ == "/processes/upload"@,
        r.body@ == spec_uuid_text(process_id),
{
    let mut r = hx_redirect("/processes/upload".to_owned());
    r.body = uuid_text(process_id);
    r
}

/// A fresh id for a new definition or user record: a random version-4 UUID.
pub fn new_record_id() -> (r: u128)
    ensures
        is_v4_uuid(r),
{
    new_uuid()
}

// ------------------------------------------------------------------- start

/// The event that starts an instance.
#[derive(Debug)]
pub struct ProcessStarted {
    pub process_id: String,
    pub instance_id: String,
    pub initial_variables: Option<Variables>,
}

/// A fresh instance id: the text of a new random version-4 UUID, which can
/// stand in the path of a redirect header.
pub fn new_instance_id() -> (r: String)
    ensures
        exists|id: u128| is_v4_uuid(id) && r@ == spec_uuid_text(id),
        spec_parse_uuid(r@) is Some,
        header_text_ok(instance_path(r@)),
{
    let id = new_uuid();
    let r = uuid_text(id);
    proof {
        lemma_instance_path_of_uuid_header_safe(id);
    }
    r
}

/// The path of a UUID's instance page can stand in a header value: the
/// path's fixed part, hex digits and hyphens are all visible ASCII.
pub proof fn lemma_instance_path_of_uuid_header_safe(id: u128)
    ensures
        header_text_ok(instance_path(spec_uuid_text(id))),
{
    reveal_strlit("/processes/instances/");
    let p = "/processes/instances/"@;
    let t = spec_uuid_text(id);
    assert(p.len() == 21);
    assert forall|i: int| 0 <= i < p.len() implies header_char_ok(#[trigger] p[i]) by {
        assert(p[i] == '/' || ('a' <= p[i] && p[i] <= 'z'));
    }
    assert forall|i: int| 0 <= i < t.len() implies header_char_ok(#[trigger] t[i]) by {
        let c = uuid_text_char(id, i);
        assert(t[i] == c);
    }
    assert forall|i: int| 0 <= i < (p + t).len() implies header_char_ok(#[trigger] (p + t)[i]) by {
        if i < p.len() {
            assert((p + t)[i] == p[i]);
        } else {
            assert((p + t)[i] == t[i - p.len()]);
        }
    }
}

/// The event that starts instance `instance_id` of definition `process_id`,
/// with no initial variables.
pub fn start_event(process_id: u128, instance_id: &str) -> (r: ProcessStarted)
    ensures
        r.process_id@ == spec_uuid_text(process_id),
        r.instance_id@ == instance_id@,
        r.initial_variables is None,
{
    ProcessStarted {
        process_id: uuid_text(process_id),
        instance_id: instance_id.to_owned(),
        initial_variables: None,
    }
}

/// The path of an instance's page.
pub open spec fn instance_path(id: Seq<char>) -> Seq<char> {
    "/processes/instances/"@ + id
}

/// Every character of `t` may stand in a header value.
pub open spec fn header_text_ok(t: Seq<char>) -> bool {
    forall|i: int| 0 <= i < t.len() ==> header_char_ok(#[trigger] t[i])
}

/// The answer that sends the browser to an instance's page; refused as
/// unexpected where the path cannot stand in a header.
pub fn instance_redirect(instance_id: &str) -> (r: Result<Reply, ProcessStartError>)
    ensures
        header_text_ok(instance_path(instance_id@)) ==> (r matches Ok(rep) && is_hx_redirect(
            rep,
            instance_path(instance_id@),
        )),
        !header_text_ok(instance_path(instance_id@)) ==> r matches Err(
            ProcessStartError::UnexpectedError(_),
        ),
{
    let path = concat_text("/processes/instances/", instance_id);
    if header_value_ok(path.as_str()) {
        Ok(hx_redirect(path))
    } else {
        Err(ProcessStartError::UnexpectedError("failed to parse header value".to_owned()))
    }
}

/// The answer once the engine has run the start event: the new instance's
/// page where the instance was saved, not found otherwise.
pub fn start_outcome(instance_id: &str, saved: bool) -> (r: Result<Reply, ProcessStartError>)
    ensures
        !saved ==> r matches Err(ProcessStartError::NotFound),
        saved && header_text_ok(instance_path(instance_id@)) ==> (r matches Ok(rep)
            && is_hx_redirect(rep, instance_path(instance_id@))),
        saved && !header_text_ok(instance_path(instance_id@)) ==> r matches Err(
            ProcessStartError::UnexpectedError(_),
        ),
{
    if saved {
        instance_redirect(instance_id)
    } else {
        Err(ProcessStartError::NotFound)
    }
}

/// What was looked up, or not found.
pub fn require_found<T>(o: Option<T>) -> (r: Result<T, ProcessStartError>)
    ensures
        match o {
            Some(v) => r == Ok::<T, ProcessStartError>(v),
            None => r matches Err(ProcessStartError::NotFound),
        },
{
    match o {
        Some(v) => Ok(v),
        None => Err(ProcessStartError::NotFound),
    }
}

// ------------------------------------------------------------------ detail

/// The path parameter naming an instance.
#[derive(Debug)]
pub struct InstanceIdParams {
    pub id: String,
}

/// A line of the instance page: one token.
#[derive(Debug)]
pub struct TokenLine {
    pub id: String,
    pub node_id: String,
    pub status: String,
    pub is_user_task: bool,
}

/// The instance page's content.
#[derive(Debug)]
pub struct InstanceDetail {
    pub instance_id: String,
    pub state: String,
    pub tokens: Vec<TokenLine>,
}

/// `line` shows token `t` of an instance whose definition has `nodes`.
pub open spec fn shows_token(line: TokenLine, t: TokenView, nodes: Map<Seq<char>, NodeKind>) -> bool {
    &&& line.id@ == t.id
    &&& line.node_id@ == t.node_id
    &&& line.status@ == token_status_text(t.status)
    &&& line.is_user_task == (nodes.dom().contains(t.node_id) && nodes[t.node_id] == NodeKind::UserTask)
}

/// A line marks its token as a user task exactly when the definition has
/// the token's node and that node is a user task; a node of any other kind
/// (a service task, say) or a node the definition lacks is never marked.
pub proof fn lemma_only_user_task_nodes_marked(line: TokenLine, t: TokenView, nodes: Map<Seq<char>, NodeKind>)
    requires
        shows_token(line, t, nodes),
    ensures
        line.is_user_task <==> (nodes.dom().contains(t.node_id) && nodes[t.node_id] == NodeKind::UserTask),
        nodes.dom().contains(t.node_id) && nodes[t.node_id] != NodeKind::UserTask ==> !line.is_user_task,
        !nodes.dom().contains(t.node_id) ==> !line.is_user_task,
        line.status@ == token_status_text(t.status),
{
}

/// The instance page: the instance's id and state, and one line per token,
/// in order, with its status and whether its node is a user task of the
/// definition.
pub fn instance_detail_view(instance: &ProcessInstance, nodes: &DefinitionNodes) -> (r: InstanceDetail)
    ensures
        r.instance_id@ == instance.id@,
        r.state@ == instance_state_text(instance.state),
        r.tokens@.len() == instance.tokens@.len(),
        forall|i: int|
            0 <= i < instance.tokens@.len() ==> shows_token(
                #[trigger] r.tokens@[i],
                instance.tokens@[i]@,
                nodes@,
            ),
        forall|i: int|
            0 <= i < instance.tokens@.len() ==> ((#[trigger] r.tokens@[i]).is_user_task <==> (
            nodes@.dom().contains(instance.tokens@[i].node_id@) && nodes@[instance.tokens@[i].node_id@]
                == NodeKind::UserTask)),
{
    let mut lines: Vec<TokenLine> = Vec::new();
    let mut i: usize = 0;
    while i < instance.tokens.len()
        invariant
            i <= instance.tokens@.len(),
            lines@.len() == i,
            forall|j: int|
                0 <= j < i ==> shows_token(#[trigger] lines@[j], instance.tokens@[j]@, nodes@),
        decreases instance.tokens@.len() - i,
    {
        let t: &Token = &instance.tokens[i];
        let line = TokenLine {
            id: t.id.clone(),
            node_id: t.node_id.clone(),
            status: token_status_to_str(t.status).to_owned(),
            is_user_task: nodes.is_user_task(t.node_id.as_str()),
        };
        lines.push(line);
        i = i + 1;
    }
    InstanceDetail {
        instance_id: instance.id.clone(),
        state: instance_state_to_str(instance.state).to_owned(),
        tokens: lines,
    }
}

// ----------------------------------------------------------------- advance

/// The advance form: the token whose user task is completed, and the
/// optional answer stored as variable `need_task2`.
#[derive(Debug)]
pub struct AdvanceForm {
    pub token_id: String,
    pub need_task2: Option<String>,
}

/// The event that completes a user task.
#[derive(Debug)]
pub struct UserTaskCompleted {
    pub task_id: String,
    pub instance_id: String,
    pub node_id: String,
    pub variables: Variables,
}

/// What advancing an instance does: the instance's variables afterwards,
/// whether they changed (and the instance must be saved before the engine
/// runs), and the event handed to the engine.
#[derive(Debug)]
pub struct AdvancePlan {
    pub variables: Variables,
    pub save_needed: bool,
    pub event: UserTaskCompleted,
}

/// Index of the first token with id `id`, if any.
pub open spec fn first_token_with_id(tokens: Seq<TokenView>, id: Seq<char>) -> Option<int> {
    if exists|i: int| 0 <= i < tokens.len() && tokens[i].id == id {
        Some(
            choose|i: int|
                0 <= i < tokens.len() && tokens[i].id == id && forall|j: int|
                    0 <= j < i ==> tokens[j].id != id,
        )
    } else {
        None
    }
}

/// The variables after the form's answer, if any, is stored as `need_task2`.
pub open spec fn merged_variables(vars: Map<Seq<char>, Seq<char>>, need_task2: Option<Seq<char>>) -> Map<
    Seq<char>,
    Seq<char>,
> {
    match need_task2 {
        Some(v) => vars.insert("need_task2"@, v),
        None => vars,
    }
}

/// The variables the event carries: the form's answer alone, if any.
pub open spec fn event_variables(need_task2: Option<Seq<char>>) -> Map<Seq<char>, Seq<char>> {
    merged_variables(Map::empty(), need_task2)
}

/// Position of the first token with id `id`.
fn find_token(tokens: &Vec<Token>, id: &str) -> (r: Option<usize>)
    ensures
        match r {
            Some(i) => i < tokens@.len() && tokens@[i as int].id@ == id@ && forall|j: int|
                0 <= j < i ==> tokens@[j].id@ != id@,
            None => forall|j: int| 0 <= j < tokens@.len() ==> tokens@[j].id@ != id@,
        },
{
    let mut i: usize = 0;
    while i < tokens.len()
        invariant
            i <= tokens@.len(),
            forall|j: int| 0 <= j < i ==> tokens@[j].id@ != id@,
        decreases tokens@.len() - i,
    {
        if text_eq(tokens[i].id.as_str(), id) {
            return Some(i);
        }
        i = i + 1;
    }
    None
}

/// Plans advancing instance `instance_id` (as loaded: `instance`) with the
/// form: the token must exist (else not found); the form's answer is stored
/// in the instance's variables, which must be saved where that changed them;
/// and the event completes the task at the token's node, carrying the answer.
pub fn plan_advance(instance_id: &str, instance: &ProcessInstance, form: &AdvanceForm) -> (r: Result<
    AdvancePlan,
    ProcessStartError,
>)
    ensures
        match first_token_with_id(instance@.tokens, form.token_id@) {
            None => r matches Err(ProcessStartError::NotFound),
            Some(i) => r matches Ok(plan) && {
                let need = crate::model::opt_text(form.need_task2);
                &&& plan.variables@ == merged_variables(instance.variables@, need)
                &&& plan.save_needed == (plan.variables@ != instance.variables@)
                &&& plan.event.task_id@ == form.token_id@
                &&& plan.event.instance_id@ == instance_id@
                &&& plan.event.node_id@ == instance@.tokens[i].node_id
                &&& plan.event.variables@ == event_variables(need)
            },
        },
{
    let ghost tokens = instance@.tokens;
    let pos = find_token(&instance.tokens, form.token_id.as_str());
    let i = match pos {
        Some(i) => i,
        None => {
            proof {
                assert(!exists|i: int| 0 <= i < tokens.len() && tokens[i].id == form.token_id@);
            }
            return Err(ProcessStartError::NotFound);
        },
    };
    proof {
        assert(tokens[i as int].id == form.token_id@);
        let k = choose|k: int|
            0 <= k < tokens.len() && tokens[k].id == form.token_id@ && forall|j: int|
                0 <= j < k ==> tokens[j].id != form.token_id@;
        assert(k == i);
    }
    let node_id = instance.tokens[i].node_id.clone();
    let mut variables = Variables::from_pairs(instance.variables.to_pairs());
    let mut event_vars = Variables::new();
    let mut save_needed = false;
    match &form.need_task2 {
        Some(v) => {
            let unchanged = match instance.variables.get("need_task2") {
                Some(old) => text_eq(old.as_str(), v.as_str()),
                None => false,
            };
            variables.insert("need_task2".to_owned(), v.clone());
            event_vars.insert("need_task2".to_owned(), v.clone());
            save_needed = !unchanged;
            proof {
                if unchanged {
                    assert(variables@ =~= instance.variables@);
                } else {
                    assert(variables@["need_task2"@] == v@);
                }
            }
        },
        None => {},
    }
    Ok(
        AdvancePlan {
            variables,
            save_needed,
            event: UserTaskCompleted {
                task_id: form.token_id.clone(),
                instance_id: instance_id.to_owned(),
                node_id,
                variables: event_vars,
            },
        },
    )
}

/// Every variable the completion event carries is held, with the same value,
/// by the instance's variables after the advance: the answer the gateway
/// reads is in the instance before the engine runs.
pub proof fn lemma_event_variables_saved(vars: Map<Seq<char>, Seq<char>>, need_task2: Option<Seq<char>>)
    ensures
        forall|k: Seq<char>|
            #[trigger] event_variables(need_task2).dom().contains(k) ==> merged_variables(
                vars,
                need_task2,
            ).dom().contains(k) && merged_variables(vars, need_task2)[k] == event_variables(
                need_task2,
            )[k],
{
}

/// Advancing again with the same answer changes nothing more: once the
/// answer is stored, a second plan needs no save.
pub proof fn lemma_advance_idempotent(vars: Map<Seq<char>, Seq<char>>, need_task2: Option<Seq<char>>)
    ensures
        merged_variables(merged_variables(vars, need_task2), need_task2) == merged_variables(
            vars,
            need_task2,
        ),
{
    match need_task2 {
        Some(v) => {
            assert(vars.insert("need_task2"@, v).insert("need_task2"@, v) =~= vars.insert(
                "need_task2"@,
                v,
            ));
        },
        None => {},
    }
}

// -------------------------------------------------------------------- lists

/// A line of the definitions list.
#[derive(Debug)]
pub struct ProcessListLine {
    pub id: u128,
    pub name: String,
    pub created_at: String,
}

/// The text the definitions list shows for a creation time: its RFC 3339
/// text, or its debug text where that cannot be written, or nothing where
/// the time cannot be represented at all.
pub open spec fn created_at_text(ts: Timestamp) -> Seq<char> {
    match spec_rfc3339(ts.unix_nanos, ts.offset_seconds) {
        Some(t) => t,
        None => match spec_timestamp_text(ts.unix_nanos, ts.offset_seconds) {
            Some(d) => d,
            None => Seq::empty(),
        },
    }
}

/// The definitions list shows a creation time as its own RFC 3339 text
/// wherever that can be written, and as its debug text only where it cannot.
pub proof fn lemma_created_at_is_its_rfc3339_text(ts: Timestamp)
    ensures
        spec_rfc3339(ts.unix_nanos, ts.offset_seconds) matches Some(t) ==> created_at_text(ts) == t,
        spec_rfc3339(ts.unix_nanos, ts.offset_seconds) is None ==> (spec_timestamp_text(
            ts.unix_nanos,
            ts.offset_seconds,
        ) matches Some(d) ==> created_at_text(ts) == d),
{
}

/// A line of the definitions list: id, name, and the creation time as
/// `created_at_text` writes it.
pub fn process_list_line(id: u128, name: String, created_at: Timestamp) -> (r: ProcessListLine)
    ensures
        r.id == id,
        r.name@ == name@,
        r.created_at@ == created_at_text(created_at),
        spec_rfc3339(created_at.unix_nanos, created_at.offset_seconds) matches Some(t) ==> r.created_at@
            == t,
        spec_rfc3339(created_at.unix_nanos, created_at.offset_seconds) is None
            ==> (spec_timestamp_text(created_at.unix_nanos, created_at.offset_seconds) matches Some(d)
            ==> r.created_at@ == d),
{
    let created = match rfc3339_text(created_at) {
        Some(s) => s,
        None => match timestamp_debug_text(created_at) {
            Some(d) => d,
            None => String::new(),
        },
    };
    ProcessListLine { id, name, created_at: created }
}

// ------------------------------------------------------------------- delete

/// The answer to deleting a definition: not found where no row went, back
/// to the definitions list otherwise.
pub fn process_deleted(rows_affected: u64) -> (r: Result<Reply, ProcessStartError>)
    ensures
        rows_affected == 0 ==> r matches Err(ProcessStartError::NotFound),
        rows_affected != 0 ==> (r matches Ok(rep) && is_hx_redirect(rep, "/processes"@)),
{
    if rows_affected == 0 {
        return Err(ProcessStartError::NotFound);
    }
    Ok(hx_redirect("/processes".to_owned()))
}

/// The answer to deleting an instance: not found where no row went, back
/// to the instances list otherwise.
pub fn instance_deleted(rows_affected: u64) -> (r: Result<Reply, ProcessStartError>)
    ensures
        rows_affected == 0 ==> r matches Err(ProcessStartError::NotFound),
        rows_affected != 0 ==> (r matches Ok(rep) && is_hx_redirect(rep, "/processes/instances"@)),
{
    if rows_affected == 0 {
        return Err(ProcessStartError::NotFound);
    }
    Ok(hx_redirect("/processes/instances".to_owned()))
}

/// The answer to a successful login or signup: to the home page.
pub fn home_redirect() -> (r: Reply)
    ensures
        is_hx_redirect(r, "/"@),
{
    hx_redirect("/".to_owned())
}

// ------------------------------------------------------- stored definitions

/// The key under which definition `id` is stored: its UUID, or none where
/// `id` is not UUID text (and no definition can have it).
pub fn definition_key(id: &str) -> (r: Option<u128>)
    ensures
        r == spec_parse_uuid(id@),
{
    parse_uuid(id)
}

/// Compiles the stored BPMN text of definition `id`; where it no longer
/// compiles, the error names the definition and carries the compiler's
/// report.
pub fn compile_stored_definition(id: &str, xml: &str) -> (r: Result<
    bpm_engine_core::ProcessDefinition,
    String,
>)
    ensures
        r is Ok == spec_bpmn_compiles(xml@),
        r matches Ok(d) ==> spec_definition_node_kinds(d) == spec_bpmn_node_kinds(xml@),
        r matches Err(m) ==> exists|report: Seq<char>|
            m@ == "Failed to compile stored BPMN for "@ + id@ + ": "@ + report,
{
    match parse_and_compile(xml) {
        Ok(def) => Ok(def),
        Err(e) => {
            let head = concat_text("Failed to compile stored BPMN for ", id);
            let head = concat_text(head.as_str(), ": ");
            let report = compile_error_text(&e);
            let m = concat_text(head.as_str(), report.as_str());
            assert(m@ == "Failed to compile stored BPMN for "@ + id@ + ": "@ + report@);
            Err(m)
        },
    }
}

} // verus!
