//! One purge run as a state machine: each step takes what the service or the
//! operator answered and says what to do next.
use vstd::prelude::*;
use crate::config::AppConfig;
use crate::datetime::{DateWindow, PurgeError, window_of};
use crate::misskey::{ListNotesRequestParams, MisskeyApiConfig, Note, User};
use crate::selection::{
    all_timed, answer_choice, answer_of, automatic_choice, filter_window, is_pinned, pinned_in,
    time_notes, timed, window_filter, AutomaticRunner, InteractiveRunner, SelectionOutcome,
    TimedNote,
};

verus! {

/// How the note to delete is chosen.
#[derive(Debug, Clone, Copy, PartialEq, Eq, Structural)]
pub enum Runner {
    /// The first listed note, unattended.
    Automatic,
    /// A note that the operator picks from a short list.
    Interactive,
}

/// Where a run stands.
#[derive(Debug, Clone, Copy, PartialEq, Eq, Structural)]
pub enum Phase {
    AwaitIdentity,
    AwaitNotes,
    AwaitChoice,
    AwaitDelete,
    Done,
}

/// What the service or the operator answered.
#[derive(Debug, Clone, PartialEq, Eq)]
pub enum Event {
    /// The service said who the token belongs to.
    IdentityFetched(User),
    /// The service listed these notes, in its own order.
    NotesFetched(Vec<Note>),
    /// The operator typed this line.
    OperatorInput(String),
    /// The service deleted the note.
    NoteDeleted,
    /// The service answered with a non-success status.
    ServiceFailed,
    /// The service's answer did not have the expected shape.
    MalformedResponse,
}

/// What the caller is to do next.
#[derive(Debug, Clone, PartialEq, Eq)]
pub enum Action {
    /// Ask the service for notes.
    ListNotes(ListNotesRequestParams),
    /// Show these notes, numbered from 1, and read the operator's choice.
    AskOperator(Vec<Note>),
    /// Ask the service to delete the note with this id.
    DeleteNote(String),
    /// The run is over without error.
    Finish(SelectionOutcome),
    /// The run is over with an error.
    Fail(PurgeError),
}

/// The mathematical form of an `Action`.
pub enum ActionView {
    ListNotes(ListNotesRequestParams),
    AskOperator(Seq<Note>),
    DeleteNote(String),
    Finish(SelectionOutcome),
    Fail(PurgeError),
}

impl View for Action {
    type V = ActionView;

    open spec fn view(&self) -> ActionView {
        match self {
            Action::ListNotes(p) => ActionView::ListNotes(*p),
            Action::AskOperator(v) => ActionView::AskOperator(v@),
            Action::DeleteNote(id) => ActionView::DeleteNote(*id),
            Action::Finish(o) => ActionView::Finish(*o),
            Action::Fail(e) => ActionView::Fail(*e),
        }
    }
}

impl Action {
    /// The process exit code once the run is over: 0 after `Finish`, 1 after
    /// `Fail`, and none while there is still work to do.
    pub fn exit_code(&self) -> (r: Option<i32>)
        ensures
            r == exit_code_of(self@),
    {
        match self {
            Action::Finish(_) => Some(0),
            Action::Fail(_) => Some(1),
            _ => None,
        }
    }
}

/// The exit code that ends a run after `a`, if `a` ends it.
pub open spec fn exit_code_of(a: ActionView) -> Option<i32> {
    match a {
        ActionView::Finish(_) => Some(0),
        ActionView::Fail(_) => Some(1),
        _ => None,
    }
}

/// The mathematical form of a `PurgeWorkflow`.
pub struct WorkflowView {
    pub window: DateWindow,
    pub runner: Runner,
    pub phase: Phase,
    pub user: Option<User>,
    pub shown: Seq<TimedNote>,
    pub target: Option<Note>,
}

/// Whether a run in `phase` can take `e` as its next answer.
pub open spec fn accepts(phase: Phase, e: Event) -> bool {
    match phase {
        Phase::AwaitIdentity => e is IdentityFetched || e is ServiceFailed || e is MalformedResponse,
        Phase::AwaitNotes => e is NotesFetched || e is ServiceFailed || e is MalformedResponse,
        Phase::AwaitChoice => e is OperatorInput,
        Phase::AwaitDelete => e is NoteDeleted || e is ServiceFailed,
        Phase::Done => false,
    }
}

/// How many notes a strategy asks the service for.
pub open spec fn limit_of(runner: Runner) -> usize {
    match runner {
        Runner::Automatic => 1,
        Runner::Interactive => 10,
    }
}

/// The listing request that follows the identity.
pub open spec fn list_params(u: User, window: DateWindow, runner: Runner) -> ListNotesRequestParams {
    ListNotesRequestParams { user_id: u.id, since_date: window.since, limit: limit_of(runner) }
}

/// The run ends here.
pub open spec fn done(s: WorkflowView) -> WorkflowView {
    WorkflowView { phase: Phase::Done, ..s }
}

/// The pinned-note guard: a pinned note (or one checked without a known
/// pinned set) is skipped, any other is sent for deletion.
pub open spec fn guard(s: WorkflowView, note: Note) -> (WorkflowView, ActionView) {
    let pinned = match s.user {
        Some(u) => pinned_in(u.pinned_note_ids@, note.id@),
        None => true,
    };
    if pinned {
        (done(s), ActionView::Finish(SelectionOutcome::PinnedSkipped(note)))
    } else {
        (WorkflowView { phase: Phase::AwaitDelete, target: Some(note), ..s }, ActionView::DeleteNote(note.id))
    }
}

/// What a selection leads to: a selected note goes through the guard, any
/// other outcome ends the run.
pub open spec fn after_selection(s: WorkflowView, o: SelectionOutcome) -> (WorkflowView, ActionView) {
    match o {
        SelectionOutcome::Selected(note) => guard(s, note),
        _ => (done(s), ActionView::Finish(o)),
    }
}

/// What the operator's answer, read as a number or not, leads to.
pub open spec fn after_answer(s: WorkflowView, answer: Option<usize>) -> (WorkflowView, ActionView) {
    match answer_choice(s.shown, answer) {
        Ok(o) => after_selection(s, o),
        Err(e) => (done(s), ActionView::Fail(e)),
    }
}

/// What a listing of timed notes leads to, for each strategy.
pub open spec fn after_listing(s: WorkflowView, notes: Seq<TimedNote>) -> (WorkflowView, ActionView) {
    match s.runner {
        Runner::Automatic => after_selection(s, automatic_choice(notes, s.window.until)),
        Runner::Interactive => if notes.len() == 0 {
            (done(s), ActionView::Finish(SelectionOutcome::NoCandidates))
        } else {
            let shown = window_filter(notes, s.window.until);
            if shown.len() == 0 {
                (done(s), ActionView::Finish(SelectionOutcome::OutOfWindow))
            } else {
                (
                    WorkflowView { phase: Phase::AwaitChoice, shown, ..s },
                    ActionView::AskOperator(shown.map_values(|t: TimedNote| t.note)),
                )
            }
        },
    }
}

/// One step of a run.
pub open spec fn next(s: WorkflowView, e: Event) -> (WorkflowView, ActionView) {
    match e {
        Event::IdentityFetched(u) => (
            WorkflowView { phase: Phase::AwaitNotes, user: Some(u), ..s },
            ActionView::ListNotes(list_params(u, s.window, s.runner)),
        ),
        Event::NotesFetched(notes) => if all_timed(notes@) {
            after_listing(s, notes@.map_values(|n: Note| timed(n)))
        } else {
            (done(s), ActionView::Fail(PurgeError::MalformedResponse))
        },
        Event::OperatorInput(line) => after_answer(s, answer_of(line@)),
        Event::NoteDeleted => (done(s), ActionView::Finish(SelectionOutcome::Deleted(s.target.unwrap()))),
        Event::ServiceFailed => (done(s), ActionView::Fail(
            match s.phase {
                Phase::AwaitIdentity => PurgeError::AuthError,
                Phase::AwaitNotes => PurgeError::FetchError,
                _ => PurgeError::DeleteError,
            },
        )),
        Event::MalformedResponse => (done(s), ActionView::Fail(PurgeError::MalformedResponse)),
    }
}

/// A purge run in progress.
pub struct PurgeWorkflow {
    window: DateWindow,
    runner: Runner,
    phase: Phase,
    user: Option<User>,
    shown: Vec<TimedNote>,
    target: Option<Note>,
}

impl View for PurgeWorkflow {
    type V = WorkflowView;

    closed spec fn view(&self) -> WorkflowView {
        WorkflowView {
            window: self.window,
            runner: self.runner,
            phase: self.phase,
            user: self.user,
            shown: self.shown@,
            target: self.target,
        }
    }
}

/// A run waiting for the deletion has a note to delete.
pub open spec fn workflow_inv(s: WorkflowView) -> bool {
    s.phase == Phase::AwaitDelete ==> s.target is Some
}

impl PurgeWorkflow {
    /// A run over `window` with `runner`; it first needs the identity.
    pub fn new(window: DateWindow, runner: Runner) -> (r: Self)
        ensures
            r@ == (WorkflowView {
                window,
                runner,
                phase: Phase::AwaitIdentity,
                user: None,
                shown: Seq::empty(),
                target: None,
            }),
    {
        PurgeWorkflow { window, runner, phase: Phase::AwaitIdentity, user: None, shown: Vec::new(), target: None }
    }

    /// Where the run stands.
    pub fn phase(&self) -> (r: Phase)
        ensures
            r == self@.phase,
    {
        self.phase
    }

    /// Whether the run can take `e` as its next answer.
    pub fn accepts(&self, e: &Event) -> (r: bool)
        ensures
            r == accepts(self@.phase, *e),
    {
        match self.phase {
            Phase::AwaitIdentity => match e {
                Event::IdentityFetched(_) | Event::ServiceFailed | Event::MalformedResponse => true,
                _ => false,
            },
            Phase::AwaitNotes => match e {
                Event::NotesFetched(_) | Event::ServiceFailed | Event::MalformedResponse => true,
                _ => false,
            },
            Phase::AwaitChoice => match e {
                Event::OperatorInput(_) => true,
                _ => false,
            },
            Phase::AwaitDelete => match e {
                Event::NoteDeleted | Event::ServiceFailed => true,
                _ => false,
            },
            Phase::Done => false,
        }
    }

    fn finish(&mut self, r: Action) -> (out: Action)
        ensures
            final(self)@ == done(old(self)@),
            out == r,
    {
        self.phase = Phase::Done;
        r
    }

    fn guard_note(&mut self, note: Note) -> (r: Action)
        ensures
            (final(self)@, r@) == guard(old(self)@, note),
    {
        let pinned = match &self.user {
            Some(u) => is_pinned(&u.pinned_note_ids, &note.id),
            None => true,
        };
        if pinned {
            self.finish(Action::Finish(SelectionOutcome::PinnedSkipped(note)))
        } else {
            let id = note.id.clone();
            self.phase = Phase::AwaitDelete;
            self.target = Some(note);
            Action::DeleteNote(id)
        }
    }

    fn after_selection(&mut self, o: SelectionOutcome) -> (r: Action)
        ensures
            (final(self)@, r@) == after_selection(old(self)@, o),
    {
        match o {
            SelectionOutcome::Selected(note) => self.guard_note(note),
            _ => self.finish(Action::Finish(o)),
        }
    }

    fn after_listing(&mut self, notes: Vec<TimedNote>) -> (r: Action)
        ensures
            (final(self)@, r@) == after_listing(old(self)@, notes@),
    {
        match self.runner {
            Runner::Automatic => {
                let o = AutomaticRunner::select(&notes, &self.window);
                self.after_selection(o)
            },
            Runner::Interactive => {
                if notes.len() == 0 {
                    return self.finish(Action::Finish(SelectionOutcome::NoCandidates));
                }
                let shown = filter_window(&notes, self.window.until);
                if shown.len() == 0 {
                    return self.finish(Action::Finish(SelectionOutcome::OutOfWindow));
                }
                let mut listed: Vec<Note> = Vec::new();
                let mut i: usize = 0;
                while i < shown.len()
                    invariant
                        i <= shown@.len(),
                        listed@ == shown@.subrange(0, i as int).map_values(|t: TimedNote| t.note),
                    decreases shown.len() - i,
                {
                    listed.push(shown[i].note.copy());
                    i = i + 1;
                    assert(listed@ =~= shown@.subrange(0, i as int).map_values(|t: TimedNote| t.note));
                }
                assert(shown@.subrange(0, i as int) =~= shown@);
                self.phase = Phase::AwaitChoice;
                self.shown = shown;
                Action::AskOperator(listed)
            },
        }
    }

    /// Takes the next answer of the service or the operator and says what to
    /// do next.
    pub fn step(&mut self, event: Event) -> (r: Action)
        requires
            workflow_inv(old(self)@),
            accepts(old(self)@.phase, event),
        ensures
            workflow_inv(final(self)@),
            (final(self)@, r@) == next(old(self)@, event),
    {
        match event {
            Event::IdentityFetched(u) => {
                let limit = match self.runner {
                    Runner::Automatic => AutomaticRunner::fetch_limit(),
                    Runner::Interactive => InteractiveRunner::fetch_limit(),
                };
                let params = ListNotesRequestParams {
                    user_id: u.id.clone(),
                    since_date: self.window.since,
                    limit,
                };
                self.phase = Phase::AwaitNotes;
                self.user = Some(u);
                Action::ListNotes(params)
            },
            Event::NotesFetched(notes) => match time_notes(&notes) {
                Ok(timed_notes) => self.after_listing(timed_notes),
                Err(e) => self.finish(Action::Fail(e)),
            },
            Event::OperatorInput(line) => match InteractiveRunner::select_by_answer(&self.shown, line.as_str()) {
                Ok(o) => self.after_selection(o),
                Err(e) => self.finish(Action::Fail(e)),
            },
            Event::NoteDeleted => {
                let note = match &self.target {
                    Some(n) => n.copy(),
                    None => {
                        proof {
                            assert(false);
                        }
                        return self.finish(Action::Fail(PurgeError::MalformedResponse));
                    },
                };
                self.finish(Action::Finish(SelectionOutcome::Deleted(note)))
            },
            Event::ServiceFailed => {
                let e = match self.phase {
                    Phase::AwaitIdentity => PurgeError::AuthError,
                    Phase::AwaitNotes => PurgeError::FetchError,
                    _ => PurgeError::DeleteError,
                };
                self.finish(Action::Fail(e))
            },
            Event::MalformedResponse => self.finish(Action::Fail(PurgeError::MalformedResponse)),
        }
    }
}

/// The start of a run: the window and the strategy, before the identity.
pub open spec fn initial(window: DateWindow, runner: Runner) -> WorkflowView {
    WorkflowView { window, runner, phase: Phase::AwaitIdentity, user: None, shown: Seq::empty(), target: None }
}

/// The strategy that the `interactive` flag asks for.
pub open spec fn runner_of(interactive: bool) -> Runner {
    if interactive {
        Runner::Interactive
    } else {
        Runner::Automatic
    }
}

impl Runner {
    /// The strategy that the `interactive` flag asks for.
    pub fn from_flag(interactive: bool) -> (r: Runner)
        ensures
            r == runner_of(interactive),
    {
        if interactive {
            Runner::Interactive
        } else {
            Runner::Automatic
        }
    }
}

/// The command-line arguments of a run: the window's dates as `yyyy-mm-dd`
/// (an empty `until` leaves the window open) and the strategy flag.
#[derive(Debug, Clone, PartialEq, Eq)]
pub struct RunArgs {
    pub since: String,
    pub until: String,
    pub interactive: bool,
}

impl PurgeWorkflow {
    /// A run for the given arguments, or the error of a bad date.
    pub fn from_args(args: &RunArgs) -> (r: Result<PurgeWorkflow, PurgeError>)
        ensures
            match window_of(args.since@, args.until@) {
                Ok(w) => r matches Ok(wf) && wf@ == initial(w, runner_of(args.interactive)),
                Err(e) => r matches Err(f) && f == e,
            },
    {
        let window = DateWindow::from_args(&args.since, &args.until)?;
        Ok(PurgeWorkflow::new(window, Runner::from_flag(args.interactive)))
    }
}

/// A run's surroundings: the configuration it was given.
pub struct App<'a> {
    pub config: &'a AppConfig,
}

impl App<'_> {
    /// The service configuration taken from the application's configuration.
    pub fn api_config(&self) -> (r: MisskeyApiConfig)
        ensures
            r.base_url == self.config.misskey_api_url,
            r.token == self.config.misskey_access_token,
    {
        MisskeyApiConfig {
            base_url: self.config.misskey_api_url.clone(),
            token: self.config.misskey_access_token.clone(),
        }
    }
}

/// With the automatic strategy, an empty listing ends the run with no
/// candidates: nothing is deleted and the run takes no further answer.
pub proof fn lemma_automatic_empty_listing(s: WorkflowView, notes: Vec<Note>)
    requires
        s.runner == Runner::Automatic,
        notes@.len() == 0,
    ensures
        next(s, Event::NotesFetched(notes)) == (done(s), ActionView::Finish(SelectionOutcome::NoCandidates)),
        forall|e: Event| !accepts(next(s, Event::NotesFetched(notes)).0.phase, e),
{
    assert(notes@.map_values(|n: Note| timed(n)).len() == 0);
}

/// No step asks to delete a pinned note: a deletion is asked for only when
/// the user is known and the note's id is not among the user's pinned ids.
pub proof fn lemma_pinned_never_deleted(s: WorkflowView, e: Event)
    ensures
        next(s, e).1 matches ActionView::DeleteNote(id) ==> (next(s, e).0.user matches Some(u)
            && !pinned_in(u.pinned_note_ids@, id@)),
{
}

/// A chosen number outside `1..=n`, for `n` notes shown, ends the run with
/// "not found": nothing is deleted and the run takes no further answer.
pub proof fn lemma_out_of_range_choice(s: WorkflowView, line: String, choice: usize)
    requires
        answer_of(line@) == Some(choice),
        !(1 <= choice && choice <= s.shown.len()),
    ensures
        next(s, Event::OperatorInput(line)) == (done(s), ActionView::Finish(SelectionOutcome::NotFound(choice))),
        forall|e: Event| !accepts(next(s, Event::OperatorInput(line)).0.phase, e),
{
}

} // verus!
