//! The dispatch loop as a state machine: the caller blocks for the next
//! notification, hands it in, runs the command when told to, and hands in
//! its outcome. A run is only ever started from `Listening`, so runs never
//! overlap.
use vstd::prelude::*;

use crate::classify::{classified_as, classify, is_trigger};
use crate::command::{CommandOutcome, Report, lossy_text, report_of, report_outcome, text_of};
use crate::event::{RawEvent, event_paths};
use crate::path::{display_name, is_last_segment, last_segment};
use crate::target::{Options, WatchTarget, all_wf};

verus! {

/// The exit status of the process after a fatal error.
pub const FAILURE_EXIT_CODE: i32 = 1;

/// Where the loop stands.
#[derive(Clone, Copy, Debug, PartialEq, Eq, Structural)]
pub enum LoopState {
    /// Waiting for the next notification.
    Listening,
    /// A command run was handed out and its outcome is awaited.
    Dispatching,
    /// The event source failed; nothing more is accepted.
    Stopped,
}

/// A failure of the notification backend.
#[derive(Clone, Debug)]
pub enum WatchError {
    /// The path could not be subscribed; the backend's reason.
    PathNotWatchable(Vec<u8>, String),
    /// The event stream failed; the backend's reason.
    Backend(String),
}

/// A command run that the caller is to perform.
#[derive(Clone, Debug)]
pub struct Invocation {
    /// The informational line to emit before the run, when logging is on.
    pub log_line: Option<String>,
    /// The shell command line to run.
    pub command: String,
}

/// What the caller does after handing in a notification.
#[derive(Clone, Debug)]
pub enum Step {
    /// Nothing: the notification is no trigger.
    Ignored,
    /// Run the command, then hand its outcome to `on_outcome`.
    Run(Invocation),
    /// Report the diagnostic and exit with `FAILURE_EXIT_CODE`.
    Fatal(String),
}

/// The diagnostic for a backend failure.
pub open spec fn watch_error_text(e: WatchError) -> Seq<char> {
    match e {
        WatchError::PathNotWatchable(p, reason) =>
            "Failed to watch \""@ + lossy_text(p@) + "\", with error "@ + reason@ + "\n"@,
        WatchError::Backend(reason) => "Watch error: "@ + reason@ + "\n"@,
    }
}

/// The diagnostics of the failed subscriptions among `registration`, in order.
pub open spec fn registration_text(registration: Seq<Result<(), WatchError>>) -> Seq<char>
    decreases registration.len(),
{
    if registration.len() == 0 {
        Seq::empty()
    } else {
        registration_text(registration.drop_last()) + match registration.last() {
            Ok(_) => Seq::empty(),
            Err(e) => watch_error_text(e),
        }
    }
}

/// The line logged before running `cmd` for a trigger on a path named `name`.
pub open spec fn log_text(name: Seq<u8>, cmd: Seq<char>) -> Seq<char> {
    "FILE \""@ + lossy_text(name) + "\": Executing "@ + cmd + " \n"@
}

/// `line` is the line logged before running `cmd` for a trigger on `path`,
/// which it names by its last segment.
pub open spec fn logged_as(path: Seq<u8>, cmd: Seq<char>, line: Seq<char>) -> bool {
    exists|start: int, end: int|
        is_last_segment(path, start, end) && line == log_text(#[trigger] display_name(path, start, end), cmd)
}

/// `line` is the line logged before running `cmd` for `e`: it names the
/// first watched path of the event.
pub open spec fn logs_trigger(e: &RawEvent, targets: Seq<WatchTarget>, cmd: Seq<char>, line: Seq<char>) -> bool {
    exists|j: usize|
        #[trigger] classified_as(e, targets, Some(j)) && logged_as(event_paths(e)[j as int], cmd, line)
}

/// The loop's abstract state: where it stands, how many runs were started,
/// and how many of them have ended.
pub type LoopModel = (LoopState, nat, nat);

/// The state after a notification `e` reaches the loop in state `m`.
pub open spec fn after_event(targets: Seq<WatchTarget>, m: LoopModel, e: &RawEvent) -> LoopModel {
    if is_trigger(e, targets) {
        (LoopState::Dispatching, m.1 + 1, m.2)
    } else {
        m
    }
}

/// The state after the outcome of the run in flight reaches the loop.
pub open spec fn after_outcome(m: LoopModel) -> LoopModel {
    (LoopState::Listening, m.1, m.2 + 1)
}

/// The state after serving `events` one at a time from `m`, each trigger's
/// run ending before the next notification is taken.
pub open spec fn serve(targets: Seq<WatchTarget>, m: LoopModel, events: Seq<RawEvent>) -> LoopModel
    decreases events.len(),
{
    if events.len() == 0 {
        m
    } else {
        let before = serve(targets, m, events.drop_last());
        let next = after_event(targets, before, &events.last());
        if next.0 == LoopState::Dispatching {
            after_outcome(next)
        } else {
            next
        }
    }
}

/// How many of `events` are triggers.
pub open spec fn count_triggers(targets: Seq<WatchTarget>, events: Seq<RawEvent>) -> nat
    decreases events.len(),
{
    if events.len() == 0 {
        0
    } else {
        count_triggers(targets, events.drop_last()) + if is_trigger(&events.last(), targets) {
            1nat
        } else {
            0nat
        }
    }
}

impl WatchError {
    /// The diagnostic for this failure.
    pub fn message(&self) -> (r: String)
        ensures
            r@ == watch_error_text(*self),
    {
        match self {
            WatchError::PathNotWatchable(p, reason) => {
                let mut msg = "Failed to watch \"".to_owned();
                let name = text_of(p);
                msg.append(name.as_str());
                msg.append("\", with error ");
                msg.append(reason.as_str());
                msg.append("\n");
                msg
            },
            WatchError::Backend(reason) => {
                let mut msg = "Watch error: ".to_owned();
                msg.append(reason.as_str());
                msg.append("\n");
                msg
            },
        }
    }
}

/// The line logged before running `cmd` for a trigger on `path`.
pub fn log_line(path: &Vec<u8>, cmd: &String) -> (r: String)
    ensures
        logged_as(path@, cmd@, r@),
{
    let name = last_segment(path);
    let mut line = "FILE \"".to_owned();
    let text = text_of(&name);
    line.append(text.as_str());
    line.append("\": Executing ");
    line.append(cmd.as_str());
    line.append(" \n");
    line
}

/// The dispatch loop over a registered set of targets.
pub struct Dispatcher {
    targets: Vec<WatchTarget>,
    cmd: String,
    log: bool,
    state: LoopState,
    started: Ghost<nat>,
    finished: Ghost<nat>,
}

/// Runs never overlap: a consistent loop has at most one run in flight, and
/// one exactly while it is dispatching.
pub proof fn lemma_at_most_one_in_flight(d: &Dispatcher)
    requires
        d.wf(),
    ensures
        d.model().2 <= d.model().1 <= d.model().2 + 1,
        (d.model().1 == d.model().2 + 1) <==> d.spec_state() == LoopState::Dispatching,
{
}

impl Dispatcher {
    /// The registered targets.
    pub closed spec fn spec_targets(&self) -> Seq<WatchTarget> {
        self.targets@
    }

    /// The command run on each trigger.
    pub closed spec fn spec_cmd(&self) -> Seq<char> {
        self.cmd@
    }

    /// Whether each run is logged first.
    pub closed spec fn spec_log(&self) -> bool {
        self.log
    }

    /// Where the loop stands.
    pub closed spec fn spec_state(&self) -> LoopState {
        self.state
    }

    /// The abstract state of the loop.
    pub closed spec fn model(&self) -> LoopModel {
        (self.state, self.started@, self.finished@)
    }

    /// Every run started has ended, but for the one in flight while
    /// dispatching; the targets are well formed.
    pub closed spec fn wf(&self) -> bool {
        &&& all_wf(self.targets@)
        &&& self.started@ == self.finished@ + if self.state == LoopState::Dispatching {
            1nat
        } else {
            0nat
        }
    }

    /// Starts the loop once the targets were subscribed. `registration` holds
    /// what subscribing each target gave, in order; the loop starts only where
    /// every one succeeded, and otherwise the diagnostics of all failures are
    /// returned, one line each, in order.
    pub fn new(targets: Vec<WatchTarget>, options: &Options, registration: &Vec<Result<(), WatchError>>) -> (r: Result<Dispatcher, String>)
        requires
            all_wf(targets@),
        ensures
            r is Ok <==> forall|i: int| 0 <= i < registration.len() ==> registration@[i] is Ok,
            r matches Ok(d) ==> {
                &&& d.wf()
                &&& d.model() == (LoopState::Listening, 0nat, 0nat)
                &&& d.spec_targets() == targets@
                &&& d.spec_cmd() == options.cmd@
                &&& d.spec_log() == options.log
            },
            r matches Err(msg) ==> msg@ == registration_text(registration@),
    {
        let mut msg = String::new();
        let mut failed = false;
        let mut i: usize = 0;
        while i < registration.len()
            invariant
                i <= registration.len(),
                failed <==> exists|k: int| 0 <= k < i && (#[trigger] registration@[k]) is Err,
                msg@ == registration_text(registration@.subrange(0, i as int)),
            decreases registration.len() - i,
        {
            assert(registration@.subrange(0, i + 1).drop_last() == registration@.subrange(0, i as int));
            match &registration[i] {
                Ok(()) => {},
                Err(e) => {
                    let line = e.message();
                    msg.append(line.as_str());
                    failed = true;
                },
            }
            i = i + 1;
        }
        assert(registration@.subrange(0, registration.len() as int) == registration@);
        if failed {
            return Err(msg);
        }
        Ok(Dispatcher {
            targets,
            cmd: options.cmd.clone(),
            log: options.log,
            state: LoopState::Listening,
            started: Ghost(0),
            finished: Ghost(0),
        })
    }

    /// Where the loop stands.
    pub fn state(&self) -> (r: LoopState)
        ensures
            r == self.spec_state(),
    {
        self.state
    }

    /// Hands in what the event source delivered next. A backend failure stops
    /// the loop. A notification that is a trigger yields one run of the
    /// command, logged first when logging is on; any other is dropped.
    pub fn on_event(&mut self, next: Result<RawEvent, WatchError>) -> (r: Step)
        requires
            old(self).wf(),
            old(self).spec_state() == LoopState::Listening,
        ensures
            final(self).wf(),
            final(self).spec_targets() == old(self).spec_targets(),
            final(self).spec_cmd() == old(self).spec_cmd(),
            final(self).spec_log() == old(self).spec_log(),
            next matches Err(e) ==> {
                &&& r matches Step::Fatal(msg) && msg@ == watch_error_text(e)
                &&& final(self).model() == (LoopState::Stopped, old(self).model().1, old(self).model().2)
            },
            next matches Ok(e) ==> {
                &&& final(self).model() == after_event(old(self).spec_targets(), old(self).model(), &e)
                &&& (r is Run <==> is_trigger(&e, old(self).spec_targets()))
                &&& (r is Ignored <==> !is_trigger(&e, old(self).spec_targets()))
                &&& r matches Step::Run(inv) ==> {
                    &&& inv.command@ == old(self).spec_cmd()
                    &&& (inv.log_line is Some <==> old(self).spec_log())
                    &&& inv.log_line matches Some(line) ==> logs_trigger(&e, old(self).spec_targets(), old(self).spec_cmd(), line@)
                }
            },
    {
        match next {
            Err(e) => {
                let msg = e.message();
                self.state = LoopState::Stopped;
                Step::Fatal(msg)
            },
            Ok(e) => {
                match classify(&e, &self.targets) {
                    None => Step::Ignored,
                    Some(j) => {
                        let log_line = if self.log {
                            let line = log_line(&e.paths[j], &self.cmd);
                            assert(event_paths(&e)[j as int] == e.paths@[j as int]@);
                            Some(line)
                        } else {
                            None
                        };
                        self.state = LoopState::Dispatching;
                        self.started = Ghost(self.started@ + 1);
                        Step::Run(Invocation { log_line, command: self.cmd.clone() })
                    },
                }
            },
        }
    }

    /// Hands in the outcome of the run in flight; the loop listens again,
    /// whatever the outcome was.
    pub fn on_outcome(&mut self, outcome: &CommandOutcome) -> (r: Report)
        requires
            old(self).wf(),
            old(self).spec_state() == LoopState::Dispatching,
        ensures
            final(self).wf(),
            final(self).spec_targets() == old(self).spec_targets(),
            final(self).spec_cmd() == old(self).spec_cmd(),
            final(self).spec_log() == old(self).spec_log(),
            final(self).model() == after_outcome(old(self).model()),
            (r.stdout@, r.stderr@) == report_of(old(self).spec_cmd(), *outcome),
    {
        self.state = LoopState::Listening;
        self.finished = Ghost(self.finished@ + 1);
        report_outcome(&self.cmd, outcome)
    }
}

} // verus!
