//! The batch runner: a state machine that walks the entries of a request file
//! in order. The caller performs each action it asks for (sending a request,
//! appending to the history log, printing a report) and hands back what came
//! of it.

use vstd::prelude::*;

use crate::executor::{
    entry_text, error_line, error_text, normalize, prepare, sent_text, wire_body,
    Outcome, Outgoing, Response,
};
use crate::history::{log_failure_message, log_failure_text, rfc3339_utc, LogRecord};
use crate::method::Method;
use crate::request::{decode_spec, RawEntry, Request};
use crate::text::option_text;

verus! {

/// The policy of one batch run, fixed for its whole duration.
pub struct BatchPolicy {
    /// Halt at the first entry whose outcome is a failure.
    pub stop_early_on_fail: bool,
    /// Where the history log is appended, if anywhere.
    pub log_file: Option<String>,
    /// The text reported in place of a response body that could not be read.
    pub unreadable_body: String,
}

pub struct PolicyView {
    pub stop_early_on_fail: bool,
    pub log_file: Option<Seq<char>>,
    pub unreadable_body: Seq<char>,
}

impl View for BatchPolicy {
    type V = PolicyView;

    open spec fn view(&self) -> PolicyView {
        PolicyView {
            stop_early_on_fail: self.stop_early_on_fail,
            log_file: option_text(self.log_file),
            unreadable_body: self.unreadable_body@,
        }
    }
}

/// Where a run stands.
pub enum BatchPhase {
    /// Ready to take up the next entry.
    Ready,
    /// The request of the current entry is out.
    Sending { method: Method, url: String },
    /// The report of the current entry is being appended to the log.
    Logging { text: String, failed: bool },
    /// The run is over, successfully or not.
    Finished { result: Result<(), String> },
}

pub enum PhaseView {
    Ready,
    Sending { method: Method, url: Seq<char> },
    Logging { text: Seq<char>, failed: bool },
    Finished { result: Result<(), Seq<char>> },
}

pub open spec fn result_view(r: Result<(), String>) -> Result<(), Seq<char>> {
    match r {
        Ok(()) => Ok(()),
        Err(m) => Err(m@),
    }
}

impl View for BatchPhase {
    type V = PhaseView;

    open spec fn view(&self) -> PhaseView {
        match self {
            BatchPhase::Ready => PhaseView::Ready,
            BatchPhase::Sending { method, url } => PhaseView::Sending { method: *method, url: url@ },
            BatchPhase::Logging { text, failed } => PhaseView::Logging {
                text: text@,
                failed: *failed,
            },
            BatchPhase::Finished { result } => PhaseView::Finished { result: result_view(*result) },
        }
    }
}

/// What the caller hands back to the run.
pub enum BatchEvent {
    /// Go on: the first event, and the one after each `Print`.
    Proceed,
    /// What the transport gave back for a `Send`.
    Sent(Result<Response, String>),
    /// What came of an `Append`.
    Logged(Result<(), String>),
}

/// What the run asks of the caller.
pub enum BatchAction {
    /// Send this request, then hand back `Sent`.
    Send(Outgoing),
    /// Append the record's block to the log at `path`, then hand back `Logged`.
    Append { path: String, record: LogRecord },
    /// Print this report, then hand back `Proceed`.
    Print(String),
    /// The run is over with this result; print the error, if any.
    Finish(Result<(), String>),
}

pub enum ActionView {
    Send { method: Method, url: Seq<char>, body: Option<Seq<char>> },
    Append { path: Seq<char>, timestamp: Seq<char>, entry: Seq<char> },
    Print(Seq<char>),
    Finish(Result<(), Seq<char>>),
}

impl View for BatchAction {
    type V = ActionView;

    open spec fn view(&self) -> ActionView {
        match self {
            BatchAction::Send(o) => ActionView::Send {
                method: o.method,
                url: o.url@,
                body: option_text(o.body),
            },
            BatchAction::Append { path, record } => ActionView::Append {
                path: path@,
                timestamp: record.timestamp@,
                entry: record.entry@,
            },
            BatchAction::Print(text) => ActionView::Print(text@),
            BatchAction::Finish(result) => ActionView::Finish(result_view(*result)),
        }
    }
}

impl BatchAction {
    /// The timestamp that an `Append` carries; empty for the other actions.
    pub open spec fn stamp(self) -> Seq<char> {
        match self {
            BatchAction::Append { record, .. } => record.timestamp@,
            _ => Seq::empty(),
        }
    }
}

/// The state of a run: the entries not yet taken up, in file order, where it
/// stands, and its policy.
pub struct RunView {
    pub todo: Seq<RawEntry>,
    pub phase: PhaseView,
    pub policy: PolicyView,
}

/// Which events a run in a phase accepts. A finished run accepts none.
pub open spec fn accepts(phase: PhaseView, event: BatchEvent) -> bool {
    match phase {
        PhaseView::Ready => event is Proceed,
        PhaseView::Sending { .. } => event is Sent,
        PhaseView::Logging { .. } => event is Logged,
        PhaseView::Finished { .. } => false,
    }
}

/// What follows once an entry's report has been logged, or needs no logging:
/// a failure under the stop-early policy ends the run with the report as its
/// error; anything else is printed and the run goes on.
pub open spec fn after_log(run: RunView, text: Seq<char>, failed: bool) -> (RunView, ActionView) {
    if failed && run.policy.stop_early_on_fail {
        (
            RunView { phase: PhaseView::Finished { result: Err(text) }, ..run },
            ActionView::Finish(Err(text)),
        )
    } else {
        (RunView { phase: PhaseView::Ready, ..run }, ActionView::Print(text))
    }
}

/// What follows an entry's report: it is appended to the log first, when the
/// policy names one.
pub open spec fn settle(run: RunView, text: Seq<char>, failed: bool, timestamp: Seq<char>) -> (
    RunView,
    ActionView,
) {
    match run.policy.log_file {
        Some(path) => (
            RunView { phase: PhaseView::Logging { text, failed }, ..run },
            ActionView::Append { path, timestamp, entry: text },
        ),
        None => after_log(run, text, failed),
    }
}

/// One step of a run: the state that follows `run` on `event`, and the action
/// asked of the caller. `timestamp` is the time that a log record is stamped
/// with. It is meant for the events that the phase accepts; a finished run
/// stays finished.
pub open spec fn transition(run: RunView, event: BatchEvent, timestamp: Seq<char>) -> (
    RunView,
    ActionView,
) {
    match run.phase {
        PhaseView::Ready => if run.todo.len() == 0 {
            (
                RunView { phase: PhaseView::Finished { result: Ok(()) }, ..run },
                ActionView::Finish(Ok(())),
            )
        } else {
            let rest = RunView { todo: run.todo.drop_first(), ..run };
            match decode_spec(run.todo[0]) {
                Ok(request) => if request.method.is_executable() {
                    (
                        RunView {
                            phase: PhaseView::Sending { method: request.method, url: request.url@ },
                            ..rest
                        },
                        ActionView::Send {
                            method: request.method,
                            url: request.url@,
                            body: wire_body(request),
                        },
                    )
                } else {
                    settle(rest, error_text("Invalid method"@), true, timestamp)
                },
                Err(e) => settle(rest, error_text(e.message_spec()), true, timestamp),
            }
        },
        PhaseView::Sending { method, url } => match event {
            BatchEvent::Sent(sent) => settle(
                run,
                sent_text(method, url, sent, run.policy.unreadable_body),
                sent is Err,
                timestamp,
            ),
            _ => (run, ActionView::Finish(Ok(()))),
        },
        PhaseView::Logging { text, failed } => match event {
            BatchEvent::Logged(Err(e)) => {
                let message = log_failure_text(run.policy.log_file.unwrap_or(Seq::empty()), e@);
                (
                    RunView { phase: PhaseView::Finished { result: Err(message) }, ..run },
                    ActionView::Finish(Err(message)),
                )
            },
            _ => after_log(run, text, failed),
        },
        PhaseView::Finished { result } => (run, ActionView::Finish(result)),
    }
}

/// The entries of `pending`, which holds them last first, in file order.
pub open spec fn in_file_order(pending: Seq<RawEntry>) -> Seq<RawEntry> {
    Seq::new(pending.len(), |i: int| pending[pending.len() - 1 - i])
}

/// A batch run over the entries of one request file.
pub struct BatchRun {
    /// The entries not yet taken up, the next one last.
    pending: Vec<RawEntry>,
    policy: BatchPolicy,
    phase: BatchPhase,
}

impl View for BatchRun {
    type V = RunView;

    closed spec fn view(&self) -> RunView {
        RunView { todo: in_file_order(self.pending@), phase: self.phase@, policy: self.policy@ }
    }
}

impl BatchRun {
    /// A run over `entries`, in the order given, under `policy`.
    pub fn new(entries: Vec<RawEntry>, policy: BatchPolicy) -> (r: BatchRun)
        ensures
            r@ == (RunView { todo: entries@, phase: PhaseView::Ready, policy: policy@ }),
    {
        let ghost all = entries@;
        let mut entries = entries;
        let mut pending: Vec<RawEntry> = Vec::new();
        while entries.len() > 0
            invariant
                entries.len() <= all.len(),
                entries@ == all.subrange(0, entries.len() as int),
                in_file_order(pending@) == all.subrange(entries.len() as int, all.len() as int),
            decreases entries.len(),
        {
            let ghost k = entries.len() as int;
            let ghost pending_before = pending@;
            match entries.pop() {
                Some(entry) => {
                    assert(in_file_order(pending_before).len() == pending_before.len());
                    assert(pending_before.len() == all.len() - k);
                    assert(entry == all[k - 1]);
                    pending.push(entry);
                    assert(entries@ =~= all.subrange(0, entries.len() as int));
                    assert forall|i: int| 0 <= i < pending@.len() implies in_file_order(pending@)[i]
                        == all.subrange(k - 1, all.len() as int)[i] by {
                        if i > 0 {
                            assert(in_file_order(pending_before)[i - 1] == all.subrange(
                                k,
                                all.len() as int,
                            )[i - 1]);
                        }
                    }
                    assert(in_file_order(pending@) =~= all.subrange(
                        entries.len() as int,
                        all.len() as int,
                    ));
                },
                None => {},
            }
        }
        assert(in_file_order(pending@) =~= all);
        BatchRun { pending, policy, phase: BatchPhase::Ready }
    }

    /// Whether the run, as it stands, accepts `event`.
    pub fn accepts(&self, event: &BatchEvent) -> (r: bool)
        ensures
            r == accepts(self@.phase, *event),
    {
        match (&self.phase, event) {
            (BatchPhase::Ready, BatchEvent::Proceed) => true,
            (BatchPhase::Sending { .. }, BatchEvent::Sent(_)) => true,
            (BatchPhase::Logging { .. }, BatchEvent::Logged(_)) => true,
            _ => false,
        }
    }

    fn after_log(&mut self, text: String, failed: bool) -> (action: BatchAction)
        ensures
            (final(self)@, action@) == after_log(old(self)@, text@, failed),
    {
        if failed && self.policy.stop_early_on_fail {
            self.phase = BatchPhase::Finished { result: Err(text.clone()) };
            BatchAction::Finish(Err(text))
        } else {
            self.phase = BatchPhase::Ready;
            BatchAction::Print(text)
        }
    }

    fn settle(&mut self, text: String, failed: bool) -> (action: BatchAction)
        ensures
            (final(self)@, action@) == settle(old(self)@, text@, failed, action.stamp()),
            action is Append ==> rfc3339_utc(action.stamp()),
    {
        match &self.policy.log_file {
            Some(path) => {
                let path = path.clone();
                let record = LogRecord::stamped(text.clone());
                self.phase = BatchPhase::Logging { text, failed };
                BatchAction::Append { path, record }
            },
            None => self.after_log(text, failed),
        }
    }

    fn take_next(&mut self) -> (action: BatchAction)
        requires
            old(self)@.phase == PhaseView::Ready,
        ensures
            (final(self)@, action@) == transition(old(self)@, BatchEvent::Proceed, action.stamp()),
            action is Append ==> rfc3339_utc(action.stamp()),
    {
        let ghost before = self.pending@;
        match self.pending.pop() {
            None => {
                self.phase = BatchPhase::Finished { result: Ok(()) };
                BatchAction::Finish(Ok(()))
            },
            Some(entry) => {
                assert(in_file_order(self.pending@) =~= in_file_order(before).drop_first());
                match Request::try_from(entry) {
                    Ok(request) => {
                        let method = request.method;
                        match prepare(request) {
                            Ok(out) => {
                                self.phase = BatchPhase::Sending { method, url: out.url.clone() };
                                BatchAction::Send(out)
                            },
                            Err(m) => self.settle(error_line(m.as_str()), true),
                        }
                    },
                    Err(e) => {
                        let m = e.message();
                        self.settle(error_line(m.as_str()), true)
                    },
                }
            },
        }
    }

    /// Advances the run on `event` and says what the caller is to do next.
    pub fn step(&mut self, event: BatchEvent) -> (action: BatchAction)
        requires
            accepts(old(self)@.phase, event),
        ensures
            (final(self)@, action@) == transition(old(self)@, event, action.stamp()),
            action is Append ==> rfc3339_utc(action.stamp()),
    {
        match event {
            BatchEvent::Proceed => self.take_next(),
            BatchEvent::Sent(sent) => {
                let (method, url) = match &self.phase {
                    BatchPhase::Sending { method, url } => (*method, url.clone()),
                    _ => (Method::Get, String::new()),
                };
                let ghost sent_before = sent;
                let outcome = normalize(sent, self.policy.unreadable_body.as_str());
                let text = entry_text(method, url.as_str(), &outcome);
                let failed = match outcome {
                    Outcome::Failure { .. } => true,
                    _ => false,
                };
                assert(text@ == sent_text(method, url@, sent_before, self.policy.unreadable_body@));
                self.settle(text, failed)
            },
            BatchEvent::Logged(Err(e)) => {
                let path = match &self.policy.log_file {
                    Some(p) => p.clone(),
                    None => String::new(),
                };
                let message = log_failure_message(path.as_str(), e.as_str());
                self.phase = BatchPhase::Finished { result: Err(message.clone()) };
                BatchAction::Finish(Err(message))
            },
            BatchEvent::Logged(Ok(())) => {
                let (text, failed) = match &self.phase {
                    BatchPhase::Logging { text, failed } => (text.clone(), *failed),
                    _ => (String::new(), false),
                };
                self.after_log(text, failed)
            },
        }
    }
}

/// Under the stop-early policy a failing entry ends the run: at once when
/// there is no log, else as soon as its report has been logged, the run
/// finishes with that report as its error. A finished run accepts no further
/// event, so no later entry is ever taken up.
pub proof fn lemma_stop_early_ends_run(
    run: RunView,
    text: Seq<char>,
    timestamp: Seq<char>,
    event: BatchEvent,
)
    requires
        run.policy.stop_early_on_fail,
    ensures
        run.policy.log_file is None ==> settle(run, text, true, timestamp) == (
            RunView { phase: PhaseView::Finished { result: Err(text) }, ..run },
            ActionView::Finish(Err(text)),
        ),
        run.policy.log_file matches Some(path) ==> settle(run, text, true, timestamp) == (
            RunView { phase: PhaseView::Logging { text, failed: true }, ..run },
            ActionView::Append { path, timestamp, entry: text },
        ),
        transition(
            RunView { phase: PhaseView::Logging { text, failed: true }, ..run },
            BatchEvent::Logged(Ok(())),
            timestamp,
        ) == (
            RunView { phase: PhaseView::Finished { result: Err(text) }, ..run },
            ActionView::Finish(Err(text)),
        ),
        !accepts(PhaseView::Finished { result: Err(text) }, event),
{
}

/// Without the stop-early policy every entry's report is printed, failure or
/// not, and the run goes on with the next entry; once no entry is left it
/// finishes successfully.
pub proof fn lemma_continue_reports_every_entry(
    run: RunView,
    text: Seq<char>,
    failed: bool,
    timestamp: Seq<char>,
)
    requires
        !run.policy.stop_early_on_fail,
    ensures
        run.policy.log_file is None ==> settle(run, text, failed, timestamp) == (
            RunView { phase: PhaseView::Ready, ..run },
            ActionView::Print(text),
        ),
        transition(
            RunView { phase: PhaseView::Logging { text, failed }, ..run },
            BatchEvent::Logged(Ok(())),
            timestamp,
        ) == (RunView { phase: PhaseView::Ready, ..run }, ActionView::Print(text)),
        run.phase == PhaseView::Ready && run.todo.len() == 0 ==> transition(
            run,
            BatchEvent::Proceed,
            timestamp,
        ) == (
            RunView { phase: PhaseView::Finished { result: Ok(()) }, ..run },
            ActionView::Finish(Ok(())),
        ),
{
}

/// A transport failure is reported as a failure whose text is the error line
/// of the transport's diagnostic, never empty. Without a log, under the
/// stop-early policy, the run halts at once with exactly that text; with a
/// log, that text is appended first (and then the run halts, see
/// `lemma_stop_early_ends_run`).
pub proof fn lemma_transport_failure_reported(
    run: RunView,
    method: Method,
    url: Seq<char>,
    message: String,
    timestamp: Seq<char>,
)
    requires
        run.phase == (PhaseView::Sending { method, url }),
    ensures
        sent_text(method, url, Err(message), run.policy.unreadable_body) == error_text(message@),
        error_text(message@).len() > message@.len(),
        transition(run, BatchEvent::Sent(Err(message)), timestamp) == settle(
            run,
            error_text(message@),
            true,
            timestamp,
        ),
        run.policy.stop_early_on_fail && run.policy.log_file is None ==> transition(
            run,
            BatchEvent::Sent(Err(message)),
            timestamp,
        ).1 == ActionView::Finish(Err(error_text(message@))),
        run.policy.log_file matches Some(path) ==> transition(
            run,
            BatchEvent::Sent(Err(message)),
            timestamp,
        ).1 == (ActionView::Append { path, timestamp, entry: error_text(message@) }),
{
    reveal_strlit("ERROR: ");
}

/// A failed append to the log ends a batch run at once with a message that
/// names the log, whatever the policy; the entries not yet taken up stay
/// untouched and the finished run accepts no further event.
pub proof fn lemma_log_failure_aborts(
    run: RunView,
    path: Seq<char>,
    text: Seq<char>,
    failed: bool,
    error: String,
    timestamp: Seq<char>,
    event: BatchEvent,
)
    requires
        run.phase == (PhaseView::Logging { text, failed }),
        run.policy.log_file == Some(path),
    ensures
        transition(run, BatchEvent::Logged(Err(error)), timestamp) == (
            RunView {
                phase: PhaseView::Finished { result: Err(log_failure_text(path, error@)) },
                ..run
            },
            ActionView::Finish(Err(log_failure_text(path, error@))),
        ),
        !accepts(PhaseView::Finished { result: Err(log_failure_text(path, error@)) }, event),
{
}

} // verus!
