//! The worker process, as the host sees it: when one is needed, which
//! generation it has, and what comes of talking to it.

use vstd::prelude::*;

use crate::fault::{
    FaultRecord, FaultRecordView, FaultStage, Generation, internal_record, process_record,
    transport_record, unavailable_record,
};
use crate::json::{Json, JsonView};
use crate::path::{LocalPath, components};
use crate::protocol::WorkerOutcome;
use crate::text::concat;

verus! {

/// What came of starting a worker.
pub enum SpawnOutcome {
    Started,
    /// Why it did not start.
    Failed(String),
    NoStdin,
    NoStdout,
}

/// What came of sending a request to the worker.
pub enum SendOutcome {
    Sent,
    NoStdin,
    /// Why the request could not be written.
    EncodeFailed(String),
    /// Why the end of the request could not be written.
    FrameFailed(String),
    /// Why the request could not be handed over.
    FlushFailed(String),
}

/// What came of waiting for the answer of the worker.
pub enum ReplyOutcome {
    NoStdout,
    /// Why the answer could not be read.
    ReadFailed(String),
    /// The worker has gone.
    Closed,
    /// Why what was read is no answer.
    Invalid(String),
    Answered(WorkerOutcome),
}

/// The worker process, as the host sees it.
pub struct WorkerSupervisor {
    executable: LocalPath,
    generation: Generation,
    has_spawned: bool,
    crash_before_reply_once: bool,
    bound_project_root: Option<LocalPath>,
    attached: bool,
}

/// The worker process, in plain values.
pub struct WorkerView {
    pub executable: Seq<u8>,
    /// The generation of the last worker that started, or of the first one
    /// that will.
    pub generation: Generation,
    pub has_spawned: bool,
    pub crash_armed: bool,
    pub root: Option<Seq<u8>>,
    /// Whether a worker process is held.
    pub attached: bool,
}

impl View for WorkerSupervisor {
    type V = WorkerView;

    closed spec fn view(&self) -> WorkerView {
        WorkerView {
            executable: self.executable@,
            generation: self.generation,
            has_spawned: self.has_spawned,
            crash_armed: self.crash_before_reply_once,
            root: match self.bound_project_root {
                Some(root) => Some(root@),
                None => None,
            },
            attached: self.attached,
        }
    }
}

/// A worker that is about to be started.
pub struct SpawnPlan {
    pub executable: LocalPath,
    pub project_root: LocalPath,
    pub generation: Generation,
}

impl WorkerView {
    /// Without the worker process.
    pub open spec fn without_process(self) -> WorkerView {
        WorkerView { attached: false, ..self }
    }

    /// Bound to another project root, or to the same one.
    pub open spec fn rebound(self, root: Seq<u8>) -> WorkerView {
        match self.root {
            Some(current) if components(current) == components(root) => self,
            _ => WorkerView { root: Some(root), ..self.without_process() },
        }
    }

    /// Bound to a project root anew.
    pub open spec fn refreshed(self, root: Seq<u8>) -> WorkerView {
        WorkerView { root: Some(root), ..self.without_process() }
    }

    /// Once it is known whether the process runs.
    pub open spec fn observed(self, running: bool) -> WorkerView {
        WorkerView { attached: self.attached && running, ..self }
    }

    /// The generation of the next worker to start, while ordinals last.
    pub open spec fn next_generation(self) -> Option<Generation> {
        if !self.has_spawned {
            Some(self.generation)
        } else if self.generation.value == u64::MAX {
            None
        } else {
            Some(Generation { value: (self.generation.value + 1) as u64 })
        }
    }

    /// Why no worker can be started, if none can.
    pub open spec fn spawn_refusal(self) -> Option<FaultRecordView> {
        if self.root is None {
            Some(
                unavailable_record(
                    self.generation,
                    FaultStage::Host,
                    "worker.spawn"@,
                    "project is not bound; call project.bind before using issue tools"@,
                ),
            )
        } else if self.next_generation() is None {
            Some(
                internal_record(
                    self.generation,
                    FaultStage::Transport,
                    "worker.spawn"@,
                    "worker generation space is exhausted"@,
                ),
            )
        } else {
            None
        }
    }

    /// Once a worker of this generation has started.
    pub open spec fn started(self, generation: Generation) -> WorkerView {
        WorkerView { generation, has_spawned: true, attached: true, ..self }
    }
}

/// What went wrong with starting a worker.
pub open spec fn spawn_fault(generation: Generation, outcome: SpawnOutcome) -> Option<
    FaultRecordView,
> {
    match outcome {
        SpawnOutcome::Started => None,
        SpawnOutcome::Failed(detail) => Some(
            process_record(
                generation,
                FaultStage::Transport,
                "worker.spawn"@,
                "failed to spawn worker: "@ + detail@,
            ),
        ),
        SpawnOutcome::NoStdin => Some(
            internal_record(
                generation,
                FaultStage::Transport,
                "worker.spawn"@,
                "worker stdin pipe was not created"@,
            ),
        ),
        SpawnOutcome::NoStdout => Some(
            internal_record(
                generation,
                FaultStage::Transport,
                "worker.spawn"@,
                "worker stdout pipe was not created"@,
            ),
        ),
    }
}

/// A fault of the pipes to the worker.
pub open spec fn pipe_fault(
    generation: Generation,
    operation: Seq<char>,
    detail: Seq<char>,
) -> FaultRecordView {
    transport_record(generation, FaultStage::Transport, operation, detail)
}

/// What went wrong with sending a request to the worker.
pub open spec fn send_fault(worker: WorkerView, outcome: SendOutcome) -> Option<FaultRecordView> {
    let generation = worker.generation;
    match outcome {
        SendOutcome::NoStdin => Some(
            pipe_fault(generation, "worker.stdin"@, "worker stdin is not available"@),
        ),
        SendOutcome::EncodeFailed(detail) => Some(
            pipe_fault(
                generation,
                "worker.write"@,
                "failed to encode worker request: "@ + detail@,
            ),
        ),
        SendOutcome::FrameFailed(detail) => Some(
            pipe_fault(
                generation,
                "worker.write"@,
                "failed to frame worker request: "@ + detail@,
            ),
        ),
        SendOutcome::FlushFailed(detail) => Some(
            pipe_fault(
                generation,
                "worker.write"@,
                "failed to flush worker request: "@ + detail@,
            ),
        ),
        SendOutcome::Sent => if worker.crash_armed {
            Some(pipe_fault(generation, "worker.read"@, "worker crashed before replying"@))
        } else {
            None
        },
    }
}

/// The worker once a request was sent to it, or not.
pub open spec fn after_send(worker: WorkerView, outcome: SendOutcome) -> WorkerView {
    if outcome is Sent && worker.crash_armed {
        WorkerView { crash_armed: false, ..worker.without_process() }
    } else {
        worker
    }
}

/// The answer of the worker, or what went wrong.
pub open spec fn reply_result(generation: Generation, outcome: ReplyOutcome) -> Result<
    JsonView,
    FaultRecordView,
> {
    match outcome {
        ReplyOutcome::NoStdout => Err(
            pipe_fault(generation, "worker.stdout"@, "worker stdout is not available"@),
        ),
        ReplyOutcome::ReadFailed(detail) => Err(
            pipe_fault(
                generation,
                "worker.read"@,
                "failed to read worker response: "@ + detail@,
            ),
        ),
        ReplyOutcome::Closed => Err(
            pipe_fault(generation, "worker.read"@, "worker exited before replying"@),
        ),
        ReplyOutcome::Invalid(detail) => Err(
            pipe_fault(generation, "worker.read"@, "invalid worker response: "@ + detail@),
        ),
        ReplyOutcome::Answered(WorkerOutcome::Success(result)) => Ok(result@),
        ReplyOutcome::Answered(WorkerOutcome::Fault(fault)) => Err(fault@),
    }
}

/// The worker once its answer was read, or not.
pub open spec fn after_reply(worker: WorkerView, outcome: ReplyOutcome) -> WorkerView {
    if outcome is Closed {
        worker.without_process()
    } else {
        worker
    }
}

fn transport(generation: Generation, operation: &str, detail: &str) -> (fault: FaultRecord)
    ensures
        fault@ == pipe_fault(generation, operation@, detail@),
{
    FaultRecord::transport(generation, FaultStage::Transport, operation, detail)
}

impl WorkerSupervisor {
    /// No worker yet, or none any more.
    pub fn new(executable: LocalPath, generation: Generation, has_spawned: bool) -> (supervisor: Self)
        ensures
            supervisor@ == (WorkerView {
                executable: executable@,
                generation,
                has_spawned,
                crash_armed: false,
                root: None,
                attached: false,
            }),
    {
        WorkerSupervisor {
            executable,
            generation,
            has_spawned,
            crash_before_reply_once: false,
            bound_project_root: None,
            attached: false,
        }
    }

    /// The generation of the worker.
    pub fn generation(&self) -> (generation: Generation)
        ensures
            generation == self@.generation,
    {
        self.generation
    }

    /// Whether a worker was ever started.
    pub fn has_spawned(&self) -> (yes: bool)
        ensures
            yes == self@.has_spawned,
    {
        self.has_spawned
    }

    /// Whether a worker process is held.
    pub fn attached(&self) -> (yes: bool)
        ensures
            yes == self@.attached,
    {
        self.attached
    }

    /// Binds the worker to a project root; a worker of another one is let go.
    pub fn rebind(&mut self, project_root: LocalPath)
        ensures
            final(self)@ == old(self)@.rebound(project_root@),
    {
        let same = match &self.bound_project_root {
            Some(current) => current.same_path(&project_root),
            None => false,
        };
        if same {
            return;
        }
        self.attached = false;
        self.bound_project_root = Some(project_root);
    }

    /// Binds the worker to a project root anew; a worker is let go.
    pub fn refresh_binding(&mut self, project_root: LocalPath)
        ensures
            final(self)@ == old(self)@.refreshed(project_root@),
    {
        self.attached = false;
        self.bound_project_root = Some(project_root);
    }

    /// Whether a worker is there, once it is known whether its process runs.
    pub fn is_alive(&mut self, running: bool) -> (alive: bool)
        ensures
            final(self)@ == old(self)@.observed(running),
            alive == final(self)@.attached,
    {
        self.attached = self.attached && running;
        self.attached
    }

    /// Lets the worker go after the next request was sent to it.
    pub fn arm_crash_once(&mut self)
        ensures
            final(self)@ == (WorkerView { crash_armed: true, ..old(self)@ }),
    {
        self.crash_before_reply_once = true;
    }

    /// Lets the worker go, so that the next one takes its place.
    pub fn restart(&mut self)
        ensures
            final(self)@ == old(self)@.without_process(),
    {
        self.attached = false;
    }

    /// The worker to start where none is there, or why none can be started.
    pub fn ensure_worker(&self) -> (plan: Result<SpawnPlan, FaultRecord>)
        ensures
            match plan {
                Ok(plan) => self@.spawn_refusal() is None && plan.executable@ == self@.executable
                    && self@.root == Some(plan.project_root@) && self@.next_generation() == Some(
                    plan.generation,
                ),
                Err(fault) => self@.spawn_refusal() == Some(fault@),
            },
    {
        let project_root = match &self.bound_project_root {
            Some(root) => root.duplicate(),
            None => {
                return Err(
                    FaultRecord::unavailable(
                        self.generation,
                        FaultStage::Host,
                        "worker.spawn",
                        "project is not bound; call project.bind before using issue tools",
                    ),
                );
            },
        };
        let next = if self.has_spawned {
            self.generation.next()
        } else {
            Some(self.generation)
        };
        match next {
            Some(generation) => Ok(
                SpawnPlan { executable: self.executable.duplicate(), project_root, generation },
            ),
            None => Err(
                FaultRecord::internal(
                    self.generation,
                    FaultStage::Transport,
                    "worker.spawn",
                    "worker generation space is exhausted",
                ),
            ),
        }
    }

    /// Takes what came of starting a worker of this generation.
    pub fn spawned(&mut self, generation: Generation, outcome: SpawnOutcome) -> (started: Result<
        (),
        FaultRecord,
    >)
        ensures
            match started {
                Ok(_) => spawn_fault(generation, outcome) is None && final(self)@
                    == old(self)@.started(generation),
                Err(fault) => spawn_fault(generation, outcome) == Some(fault@) && final(self)@
                    == old(self)@,
            },
    {
        match outcome {
            SpawnOutcome::Started => {
                self.generation = generation;
                self.has_spawned = true;
                self.attached = true;
                Ok(())
            },
            SpawnOutcome::Failed(detail) => Err(
                FaultRecord::process(
                    generation,
                    FaultStage::Transport,
                    "worker.spawn",
                    concat("failed to spawn worker: ", detail.as_str()).as_str(),
                ),
            ),
            SpawnOutcome::NoStdin => Err(
                FaultRecord::internal(
                    generation,
                    FaultStage::Transport,
                    "worker.spawn",
                    "worker stdin pipe was not created",
                ),
            ),
            SpawnOutcome::NoStdout => Err(
                FaultRecord::internal(
                    generation,
                    FaultStage::Transport,
                    "worker.spawn",
                    "worker stdout pipe was not created",
                ),
            ),
        }
    }

    /// Takes what came of sending a request; a worker that is to be lost is
    /// let go now.
    pub fn sent(&mut self, outcome: SendOutcome) -> (sent: Result<(), FaultRecord>)
        ensures
            match sent {
                Ok(_) => send_fault(old(self)@, outcome) is None,
                Err(fault) => send_fault(old(self)@, outcome) == Some(fault@),
            },
            final(self)@ == after_send(old(self)@, outcome),
    {
        let generation = self.generation;
        match outcome {
            SendOutcome::NoStdin => Err(
                transport(generation, "worker.stdin", "worker stdin is not available"),
            ),
            SendOutcome::EncodeFailed(detail) => Err(
                transport(
                    generation,
                    "worker.write",
                    concat("failed to encode worker request: ", detail.as_str()).as_str(),
                ),
            ),
            SendOutcome::FrameFailed(detail) => Err(
                transport(
                    generation,
                    "worker.write",
                    concat("failed to frame worker request: ", detail.as_str()).as_str(),
                ),
            ),
            SendOutcome::FlushFailed(detail) => Err(
                transport(
                    generation,
                    "worker.write",
                    concat("failed to flush worker request: ", detail.as_str()).as_str(),
                ),
            ),
            SendOutcome::Sent => {
                if self.crash_before_reply_once {
                    self.crash_before_reply_once = false;
                    self.attached = false;
                    Err(transport(generation, "worker.read", "worker crashed before replying"))
                } else {
                    Ok(())
                }
            },
        }
    }

    /// Takes what came of waiting for the answer.
    pub fn answered(&mut self, outcome: ReplyOutcome) -> (result: Result<Json, FaultRecord>)
        ensures
            match result {
                Ok(result) => reply_result(old(self)@.generation, outcome) == Ok::<
                    JsonView,
                    FaultRecordView,
                >(result@),
                Err(fault) => reply_result(old(self)@.generation, outcome) == Err::<
                    JsonView,
                    FaultRecordView,
                >(fault@),
            },
            final(self)@ == after_reply(old(self)@, outcome),
    {
        let generation = self.generation;
        match outcome {
            ReplyOutcome::NoStdout => Err(
                transport(generation, "worker.stdout", "worker stdout is not available"),
            ),
            ReplyOutcome::ReadFailed(detail) => Err(
                transport(
                    generation,
                    "worker.read",
                    concat("failed to read worker response: ", detail.as_str()).as_str(),
                ),
            ),
            ReplyOutcome::Closed => {
                self.attached = false;
                Err(transport(generation, "worker.read", "worker exited before replying"))
            },
            ReplyOutcome::Invalid(detail) => Err(
                transport(
                    generation,
                    "worker.read",
                    concat("invalid worker response: ", detail.as_str()).as_str(),
                ),
            ),
            ReplyOutcome::Answered(answer) => match answer {
                WorkerOutcome::Success(result) => Ok(result),
                WorkerOutcome::Fault(fault) => Err(fault),
            },
        }
    }
}

} // verus!
