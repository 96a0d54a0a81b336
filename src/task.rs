//! Submission of a task to the local task service: the model must be
//! installed, the service must be running, and the reply is decoded into a
//! result or a failure.
use vstd::prelude::*;
use vstd::string::StringExecFns;
use crate::listing::is_installed;
use crate::text::views;

verus! {

/// A task for the task service: the model to use, the task, and the agent's
/// role, goal and optional backstory.
pub struct CrewAIConfig {
    pub model_name: String,
    pub task: String,
    pub role: String,
    pub goal: String,
    pub backstory: Option<String>,
}

impl CrewAIConfig {
    pub fn new(
        model_name: String,
        task: String,
        role: String,
        goal: String,
        backstory: Option<String>,
    ) -> (r: CrewAIConfig)
        ensures
            r.model_name == model_name,
            r.task == task,
            r.role == role,
            r.goal == goal,
            r.backstory == backstory,
    {
        CrewAIConfig { model_name, task, role, goal, backstory }
    }
}

/// A failed task: the message for the user, and a diagnostic trace if the
/// service sent one.
pub struct TaskFailure {
    pub detail: String,
    pub trace: Option<String>,
}

/// What came back from posting the task, as the transport decoded it.
pub enum TaskReply {
    /// A success status with a decoded result.
    Completed(String),
    /// A failure status with a decoded error payload.
    Rejected { detail: String, traceback: Option<String> },
    /// A status whose payload could not be decoded.
    Undecodable { success_status: bool, reason: String },
    /// The request could not be sent or answered.
    TransportError(String),
}

/// Where a submission stands.
#[derive(Clone, Copy, PartialEq, Eq, Structural, Debug)]
pub enum TaskStage {
    Start,
    AwaitListing,
    AwaitService,
    AwaitReply,
    Done,
}

/// What the caller observed.
pub enum TaskEvent {
    Begin,
    /// The installed models, freshly listed, or why listing failed.
    Listing(Result<Vec<String>, String>),
    /// Whether the task service was brought up.
    ServiceReady(Result<(), String>),
    Reply(TaskReply),
}

/// What the caller must do next.
pub enum TaskAction {
    FetchListing,
    EnsureService,
    /// Post the task to the service.
    SendRequest,
    Finish(Result<String, TaskFailure>),
    Ignore,
}

pub open spec fn not_installed_message(model: Seq<char>) -> Seq<char> {
    "Model "@ + model + " is not installed"@
}

pub open spec fn is_failure(a: TaskAction, msg: Seq<char>, trace: Option<Seq<char>>) -> bool {
    match a {
        TaskAction::Finish(Err(f)) => f.detail@ == msg && match (f.trace, trace) {
            (None, None) => true,
            (Some(x), Some(y)) => x@ == y,
            _ => false,
        },
        _ => false,
    }
}

/// The failure owed for a reply that is not a decoded success.
pub open spec fn reply_failure(r: TaskReply, a: TaskAction) -> bool {
    match r {
        TaskReply::Completed(_) => false,
        TaskReply::Rejected { detail, traceback } => is_failure(
            a,
            detail@,
            match traceback {
                Some(t) => Some(t@),
                None => None,
            },
        ),
        TaskReply::Undecodable { success_status, reason } => if success_status {
            is_failure(a, "Failed to parse CrewAI response: "@ + reason@, None)
        } else {
            is_failure(a, "Unknown error"@, None)
        },
        TaskReply::TransportError(m) => is_failure(a, "Failed to execute CrewAI task: "@ + m@, None),
    }
}

/// The transition owed on event `e` at stage `s` for the task `cfg`:
/// the listing is fetched, the model checked, the service ensured, the
/// request sent and the reply decoded, in that order; an event out of
/// order is ignored.
pub open spec fn task_step(
    cfg: CrewAIConfig,
    s: TaskStage,
    e: TaskEvent,
    a: TaskAction,
    s2: TaskStage,
) -> bool {
    match (s, e) {
        (TaskStage::Start, TaskEvent::Begin) => a is FetchListing && s2 == TaskStage::AwaitListing,
        (TaskStage::AwaitListing, TaskEvent::Listing(Ok(names))) => if views(names@).contains(
            cfg.model_name@,
        ) {
            a is EnsureService && s2 == TaskStage::AwaitService
        } else {
            is_failure(a, not_installed_message(cfg.model_name@), None) && s2 == TaskStage::Done
        },
        (TaskStage::AwaitListing, TaskEvent::Listing(Err(m))) => is_failure(a, m@, None) && s2
            == TaskStage::Done,
        (TaskStage::AwaitService, TaskEvent::ServiceReady(Ok(_))) => a is SendRequest && s2
            == TaskStage::AwaitReply,
        (TaskStage::AwaitService, TaskEvent::ServiceReady(Err(m))) => is_failure(a, m@, None) && s2
            == TaskStage::Done,
        (TaskStage::AwaitReply, TaskEvent::Reply(r)) => s2 == TaskStage::Done && match r {
            TaskReply::Completed(x) => match a {
                TaskAction::Finish(Ok(y)) => y@ == x@,
                _ => false,
            },
            _ => reply_failure(r, a),
        },
        _ => a is Ignore && s2 == s,
    }
}

fn failure(detail: String) -> (a: TaskAction)
    ensures
        is_failure(a, detail@, None),
{
    TaskAction::Finish(Err(TaskFailure { detail, trace: None }))
}

fn prefixed(prefix: &str, m: &str) -> (r: String)
    ensures
        r@ == prefix@ + m@,
{
    let mut r = prefix.to_owned();
    r.append(m);
    r
}

/// The progress of one task submission.
pub struct TaskBridge {
    pub config: CrewAIConfig,
    pub stage: TaskStage,
}

impl TaskBridge {
    pub fn new(config: CrewAIConfig) -> (r: TaskBridge)
        ensures
            r.config == config,
            r.stage == TaskStage::Start,
    {
        TaskBridge { config, stage: TaskStage::Start }
    }

    /// Takes one event and returns the action it calls for.
    pub fn on_event(&mut self, e: TaskEvent) -> (a: TaskAction)
        ensures
            final(self).config == old(self).config,
            task_step(old(self).config, old(self).stage, e, a, final(self).stage),
    {
        match (self.stage, e) {
            (TaskStage::Start, TaskEvent::Begin) => {
                self.stage = TaskStage::AwaitListing;
                TaskAction::FetchListing
            },
            (TaskStage::AwaitListing, TaskEvent::Listing(Ok(names))) => {
                if is_installed(&names, self.config.model_name.as_str()) {
                    self.stage = TaskStage::AwaitService;
                    TaskAction::EnsureService
                } else {
                    self.stage = TaskStage::Done;
                    let mut m = "Model ".to_owned();
                    m.append(self.config.model_name.as_str());
                    m.append(" is not installed");
                    failure(m)
                }
            },
            (TaskStage::AwaitListing, TaskEvent::Listing(Err(m))) => {
                self.stage = TaskStage::Done;
                failure(m)
            },
            (TaskStage::AwaitService, TaskEvent::ServiceReady(Ok(_))) => {
                self.stage = TaskStage::AwaitReply;
                TaskAction::SendRequest
            },
            (TaskStage::AwaitService, TaskEvent::ServiceReady(Err(m))) => {
                self.stage = TaskStage::Done;
                failure(m)
            },
            (TaskStage::AwaitReply, TaskEvent::Reply(r)) => {
                self.stage = TaskStage::Done;
                match r {
                    TaskReply::Completed(x) => TaskAction::Finish(Ok(x)),
                    TaskReply::Rejected { detail, traceback } => TaskAction::Finish(
                        Err(TaskFailure { detail, trace: traceback }),
                    ),
                    TaskReply::Undecodable { success_status, reason } => {
                        if success_status {
                            failure(prefixed("Failed to parse CrewAI response: ", reason.as_str()))
                        } else {
                            failure("Unknown error".to_owned())
                        }
                    },
                    TaskReply::TransportError(m) => failure(
                        prefixed("Failed to execute CrewAI task: ", m.as_str()),
                    ),
                }
            },
            _ => TaskAction::Ignore,
        }
    }

    pub fn stage(&self) -> (r: TaskStage)
        ensures
            r == self.stage,
    {
        self.stage
    }
}

/// A task whose model is missing from the listing is rejected at the listing,
/// and no later event leads to sending it.
pub proof fn lemma_absent_model_never_sent(
    cfg: CrewAIConfig,
    names: Vec<String>,
    a: TaskAction,
    s2: TaskStage,
    e: TaskEvent,
    b: TaskAction,
    s3: TaskStage,
)
    requires
        !views(names@).contains(cfg.model_name@),
        task_step(cfg, TaskStage::AwaitListing, TaskEvent::Listing(Ok(names)), a, s2),
        task_step(cfg, s2, e, b, s3),
    ensures
        is_failure(a, not_installed_message(cfg.model_name@), None),
        s2 == TaskStage::Done,
        b is Ignore,
        s3 == TaskStage::Done,
{
}

/// A request is sent only from the stage reached after the listing showed the
/// model installed and the service came up.
pub proof fn lemma_send_only_when_ready(
    cfg: CrewAIConfig,
    s: TaskStage,
    e: TaskEvent,
    a: TaskAction,
    s2: TaskStage,
)
    requires
        task_step(cfg, s, e, a, s2),
        a is SendRequest,
    ensures
        s == TaskStage::AwaitService,
        e is ServiceReady && e->ServiceReady_0 is Ok,
        s2 == TaskStage::AwaitReply,
{
}

} // verus!
