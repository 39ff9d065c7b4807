//! A run of the program as a machine that the caller takes on step by step.

use vstd::prelude::*;
use crate::args::{flags_of, get_flags, get_params, params_of, MAX_PARAMS};
use crate::dispatch::{
    calls_ahead, completed, dispatch, operation_of, parse_flags, resume, resumed, served,
};
use crate::error::{Failure, QueryError};
use crate::protocol::{
    answers, fits, handed, Pending, PendingView, Reply, ReplyView, Request, RequestView, Step,
    StepView,
};

verus! {

/// What the caller is to do next in a run.
#[derive(Debug, PartialEq, Eq)]
pub enum Action {
    /// Call the encyclopedia client and come back with its reply.
    Fetch(Request),
    /// Print the text, which is the result of one flag, and come back.
    Print(String),
    /// Report the error and end the run.
    Fail(QueryError),
    /// Every flag has been served, or the run has failed: nothing is left to do.
    Finish,
}

/// What an `Action` stands for, with plain texts in place of strings.
pub enum ActionView {
    Fetch(RequestView),
    Print(Seq<char>),
    Fail(Failure),
    Finish,
}

impl View for Action {
    type V = ActionView;

    open spec fn view(&self) -> ActionView {
        match self {
            Action::Fetch(request) => ActionView::Fetch(request@),
            Action::Print(text) => ActionView::Print(text@),
            Action::Fail(error) => ActionView::Fail(error@),
            Action::Finish => ActionView::Finish,
        }
    }
}

/// One run of the program: the flags to serve in order on the shared
/// parameters, how many of them are done with, and the request that is under
/// way, if there is one.
#[derive(Debug)]
pub struct Session {
    flags: Vec<String>,
    params: Vec<String>,
    cursor: usize,
    waiting: Option<(Request, Pending)>,
}

/// What a `Session` stands for.
pub struct SessionView {
    /// The flags of the run, in the order in which they are served.
    pub flags: Seq<Seq<char>>,
    /// The parameters that every flag is served on.
    pub params: Seq<Seq<char>>,
    /// The position of the flag that is served next; the number of flags once
    /// the run is over.
    pub cursor: nat,
    /// The request that is under way and the work that awaits its reply.
    pub waiting: Option<(RequestView, PendingView)>,
}

impl View for Session {
    type V = SessionView;

    closed spec fn view(&self) -> SessionView {
        SessionView {
            flags: self.flags.deep_view(),
            params: self.params.deep_view(),
            cursor: self.cursor as nat,
            waiting: match self.waiting {
                Some((request, pending)) => Some((request@, pending@)),
                None => None,
            },
        }
    }
}

/// The run that an argument list asks for, before anything is done.
pub open spec fn opened(args: Seq<Seq<char>>) -> SessionView {
    SessionView { flags: flags_of(args), params: params_of(args), cursor: 0, waiting: None }
}

/// The run is over: no flag is left to serve.
pub open spec fn over(session: SessionView) -> bool {
    session.cursor >= session.flags.len()
}

/// What a step of the dispatcher does to a run. A request is put under way
/// and handed to the caller. A text is printed and the run moves on to the
/// next flag. An error is reported and ends the run, whatever flags are left.
pub open spec fn settled(session: SessionView, step: StepView) -> (SessionView, ActionView) {
    match step {
        StepView::Ask(request, pending) => (
            SessionView { waiting: Some((request, pending)), ..session },
            ActionView::Fetch(request),
        ),
        StepView::Done(Ok(text)) => (
            SessionView { cursor: session.cursor + 1, waiting: None, ..session },
            ActionView::Print(text),
        ),
        StepView::Done(Err(failure)) => (
            SessionView { cursor: session.flags.len(), waiting: None, ..session },
            ActionView::Fail(failure),
        ),
    }
}

/// One step of a run, given what the client replied since the last one.
///
/// A run that is over stays as it is. While a request is under way, its reply
/// carries the work on; without a reply the request is handed out once more.
/// Otherwise the next flag is dispatched, and a reply, were one given, is not
/// looked at.
pub open spec fn stepped(session: SessionView, reply: Option<ReplyView>) -> (
    SessionView,
    ActionView,
) {
    if over(session) {
        (session, ActionView::Finish)
    } else {
        match session.waiting {
            Some((request, pending)) => match reply {
                Some(reply) => settled(session, resumed(pending, reply)),
                None => (session, ActionView::Fetch(request)),
            },
            None => settled(
                session,
                dispatch(session.flags[session.cursor as int], session.params),
            ),
        }
    }
}

/// What holds of every run: its position does not pass the end of its flags,
/// its parameters are a title and a section name at most, a request is under
/// way only while a flag is being served, and the work pending on that request
/// expects the shape in which the client answers it.
pub open spec fn well_formed(session: SessionView) -> bool {
    &&& session.cursor <= session.flags.len()
    &&& session.params.len() <= MAX_PARAMS
    &&& session.waiting matches Some((request, pending)) ==> {
        &&& !over(session)
        &&& forall|reply: ReplyView| #[trigger] answers(request, reply) ==> fits(pending, reply)
    }
}

/// A run opens well formed where its parameters are not too many, and
/// whatever the caller hands over, a step keeps it well formed.
pub proof fn lemma_runs_stay_well_formed(
    args: Seq<Seq<char>>,
    session: SessionView,
    reply: Option<ReplyView>,
)
    ensures
        params_of(args).len() <= MAX_PARAMS ==> well_formed(opened(args)),
        well_formed(session) ==> well_formed(stepped(session, reply).0),
{
}

/// Flags are served in the order of the flag list, one at a time: a step
/// never changes the flags or the parameters of the run; while a request is
/// handed out the run stays at its flag, a printed text moves it on by one
/// flag, and only a run that is over finishes.
pub proof fn lemma_flags_are_served_in_order(session: SessionView, reply: Option<ReplyView>)
    ensures
        ({
            let (next, action) = stepped(session, reply);
            &&& next.flags == session.flags
            &&& next.params == session.params
            &&& match action {
                ActionView::Fetch(_) => next.cursor == session.cursor && !over(next),
                ActionView::Print(_) => next.cursor == session.cursor + 1 && next.waiting is None,
                ActionView::Fail(_) => !over(session) && over(next),
                ActionView::Finish => over(session) && next == session,
            }
        }),
{
}

/// The first failure ends the run: after a step that fails, the run is over,
/// and every later step finishes without serving any of the flags that were
/// left.
pub proof fn lemma_failure_ends_run(
    session: SessionView,
    reply: Option<ReplyView>,
    later: Option<ReplyView>,
)
    requires
        stepped(session, reply).1 is Fail,
    ensures
        over(stepped(session, reply).0),
        stepped(stepped(session, reply).0, later) == (
            stepped(session, reply).0,
            ActionView::Finish,
        ),
{
}

/// A flag that the table of flags does not hold fails the run when its turn
/// comes, without a request, and the flags behind it are not served.
pub proof fn lemma_unknown_flag_stops_run(session: SessionView, reply: Option<ReplyView>)
    requires
        !over(session),
        session.waiting is None,
        operation_of(session.flags[session.cursor as int]) is None,
    ensures
        stepped(session, reply).1 == ActionView::Fail(Failure::UnknownFlag),
        over(stepped(session, reply).0),
{
}

/// What a run shows to the user: the texts that it printed, in order, and the
/// error that ended it, if one did.
pub struct Shown {
    pub printed: Seq<Seq<char>>,
    pub failure: Option<Failure>,
}

/// What serving the flags in order shows when the client answers every
/// request as `client` says: the text of each flag up to the first one that
/// fails, and the error of that one.
pub open spec fn shown_by(
    flags: Seq<Seq<char>>,
    params: Seq<Seq<char>>,
    client: spec_fn(RequestView) -> ReplyView,
) -> Shown
    decreases flags.len(),
{
    if flags.len() == 0 {
        Shown { printed: Seq::empty(), failure: None }
    } else {
        match served(flags[0], params, client) {
            Ok(text) => {
                let rest = shown_by(flags.skip(1), params, client);
                Shown { printed: seq![text] + rest.printed, failure: rest.failure }
            },
            Err(failure) => Shown { printed: Seq::empty(), failure: Some(failure) },
        }
    }
}

/// What a caller shows who takes the run on step by step, `steps` times at
/// most: who makes each request that is handed out, with the client answering
/// as `client` says, brings the reply to the next step, prints each text, and
/// stops at an error or when the run finishes.
pub open spec fn driven(
    session: SessionView,
    reply: Option<ReplyView>,
    client: spec_fn(RequestView) -> ReplyView,
    steps: nat,
) -> Shown
    decreases steps,
{
    if steps == 0 {
        Shown { printed: Seq::empty(), failure: None }
    } else {
        let (next, action) = stepped(session, reply);
        match action {
            ActionView::Finish => Shown { printed: Seq::empty(), failure: None },
            ActionView::Fail(failure) => Shown { printed: Seq::empty(), failure: Some(failure) },
            ActionView::Print(text) => {
                let rest = driven(next, None, client, (steps - 1) as nat);
                Shown { printed: seq![text] + rest.printed, failure: rest.failure }
            },
            ActionView::Fetch(request) => driven(
                next,
                Some(client(request)),
                client,
                (steps - 1) as nat,
            ),
        }
    }
}

/// The step that the dispatcher takes next in a run that is not over, the
/// reply to the request under way being the client's.
spec fn step_at(
    session: SessionView,
    client: spec_fn(RequestView) -> ReplyView,
) -> StepView {
    match session.waiting {
        Some((request, pending)) => resumed(pending, client(request)),
        None => dispatch(session.flags[session.cursor as int], session.params),
    }
}

/// The steps within which a run is through, whatever the client answers:
/// three for every flag that is left, less what the flag being served has
/// behind it.
spec fn steps_ahead(
    session: SessionView,
    client: spec_fn(RequestView) -> ReplyView,
) -> nat {
    if over(session) {
        1
    } else {
        (3 * (session.flags.len() - session.cursor - 1) + calls_ahead(step_at(session, client))
            + 2) as nat
    }
}

/// What is left of a run to show: the outcome of the flag being served, and
/// behind it what the flags after it show.
spec fn left_to_show(
    session: SessionView,
    client: spec_fn(RequestView) -> ReplyView,
) -> Shown {
    if over(session) {
        Shown { printed: Seq::empty(), failure: None }
    } else {
        match completed(step_at(session, client), client) {
            Ok(text) => {
                let rest = shown_by(
                    session.flags.skip(session.cursor + 1 as int),
                    session.params,
                    client,
                );
                Shown { printed: seq![text] + rest.printed, failure: rest.failure }
            },
            Err(failure) => Shown { printed: Seq::empty(), failure: Some(failure) },
        }
    }
}

/// Taken on step by step, a run shows what is left of it to show.
proof fn lemma_driven_shows_what_is_left(
    session: SessionView,
    reply: Option<ReplyView>,
    client: spec_fn(RequestView) -> ReplyView,
    steps: nat,
)
    requires
        well_formed(session),
        session.waiting matches Some((request, _)) ==> reply == Some(client(request)),
        steps >= steps_ahead(session, client),
    ensures
        driven(session, reply, client, steps) == left_to_show(session, client),
    decreases steps,
{
    if !over(session) {
        let step = step_at(session, client);
        let (next, action) = stepped(session, reply);
        assert((next, action) == settled(session, step));
        match step {
            StepView::Ask(request, pending) => {
                assert(step_at(next, client) == resumed(pending, client(request)));
                lemma_driven_shows_what_is_left(
                    next,
                    Some(client(request)),
                    client,
                    (steps - 1) as nat,
                );
            },
            StepView::Done(Ok(text)) => {
                let behind = session.flags.skip(session.cursor + 1 as int);
                if !over(next) {
                    assert(behind[0] == next.flags[next.cursor as int]);
                    assert(behind.skip(1) =~= next.flags.skip(next.cursor + 1 as int));
                }
                assert(left_to_show(next, client) == shown_by(behind, session.params, client));
                lemma_driven_shows_what_is_left(next, None, client, (steps - 1) as nat);
            },
            StepView::Done(Err(failure)) => {},
        }
    }
}

/// A caller who takes a run on step by step, makes each request that is handed
/// out and brings the client's reply to the next step shows exactly what
/// serving the flags in order shows: the text of each flag in turn, up to the
/// first flag that fails and without any flag behind it. Three steps for each
/// flag and one more are enough.
pub proof fn lemma_run_shows_each_flag_in_turn(
    args: Seq<Seq<char>>,
    client: spec_fn(RequestView) -> ReplyView,
    steps: nat,
)
    requires
        params_of(args).len() <= MAX_PARAMS,
        steps > 3 * flags_of(args).len(),
    ensures
        driven(opened(args), None, client, steps) == shown_by(
            flags_of(args),
            params_of(args),
            client,
        ),
{
    let session = opened(args);
    lemma_driven_shows_what_is_left(session, None, client, steps);
    if !over(session) {
        assert(session.flags.skip(0) =~= session.flags);
    }
}

/// A copy of a request.
fn copy_of(request: &Request) -> (copy: Request)
    ensures
        copy@ == request@,
{
    match request {
        Request::Summary { title } => Request::Summary { title: title.clone() },
        Request::Sections { title } => Request::Sections { title: title.clone() },
        Request::SectionContent { title, section } => Request::SectionContent {
            title: title.clone(),
            section: section.clone(),
        },
        Request::PageId { title } => Request::PageId { title: title.clone() },
        Request::References { title } => Request::References { title: title.clone() },
        Request::Categories { title } => Request::Categories { title: title.clone() },
    }
}

/// Opens the run that an argument list asks for: its flags, in order, and its
/// parameters. An argument list with too many parameters is refused before any
/// flag is served.
pub fn run(args: &Vec<String>) -> (session: Result<Session, QueryError>)
    ensures
        match session {
            Ok(s) => s@ == opened(args.deep_view()) && well_formed(s@),
            Err(e) => e@ == Failure::TooManyArguments && params_of(args.deep_view()).len()
                > MAX_PARAMS,
        },
{
    let flags = get_flags(args);
    match get_params(args) {
        Ok(params) => Ok(Session { flags, params, cursor: 0, waiting: None }),
        Err(error) => Err(error),
    }
}

impl Session {
    #[verifier::type_invariant]
    spec fn sound(self) -> bool {
        well_formed(self@)
    }

    /// Whether the run is over.
    pub fn is_over(&self) -> (done: bool)
        ensures
            done == over(self@),
    {
        self.cursor >= self.flags.len()
    }

    /// Takes up into the run what the dispatcher decided for the flag that is
    /// being served.
    fn settle(self, step: Step) -> (next: (Session, Action))
        requires
            !over(self@),
            step@ matches StepView::Ask(request, pending) ==> forall|reply: ReplyView|
                #[trigger] answers(request, reply) ==> fits(pending, reply),
        ensures
            (next.0@, next.1@) == settled(self@, step@),
            well_formed(next.0@),
    {
        proof {
            use_type_invariant(&self);
        }
        let Session { flags, params, cursor, waiting: _ } = self;
        assert(flags.deep_view().len() == flags.len());
        match step {
            Step::Ask(request, pending) => {
                let handed = copy_of(&request);
                (
                    Session { flags, params, cursor, waiting: Some((request, pending)) },
                    Action::Fetch(handed),
                )
            },
            Step::Done(Ok(text)) => (
                Session { flags, params, cursor: cursor + 1, waiting: None },
                Action::Print(text),
            ),
            Step::Done(Err(error)) => {
                let end = flags.len();
                (Session { flags, params, cursor: end, waiting: None }, Action::Fail(error))
            },
        }
    }

    /// Takes the run one step on and says what the caller is to do next.
    pub fn step(self, reply: Option<Reply>) -> (next: (Session, Action))
        ensures
            (next.0@, next.1@) == stepped(self@, handed(reply)),
            well_formed(next.0@),
    {
        proof {
            use_type_invariant(&self);
        }
        if self.cursor >= self.flags.len() {
            return (self, Action::Finish);
        }
        let Session { flags, params, cursor, waiting } = self;
        match waiting {
            Some((request, pending)) => match reply {
                Some(reply) => {
                    let step = resume(pending, reply);
                    Session { flags, params, cursor, waiting: None }.settle(step)
                },
                None => {
                    let handed = copy_of(&request);
                    (
                        Session { flags, params, cursor, waiting: Some((request, pending)) },
                        Action::Fetch(handed),
                    )
                },
            },
            None => {
                let step = parse_flags(&flags[cursor], &params);
                Session { flags, params, cursor, waiting: None }.settle(step)
            },
        }
    }
}

} // verus!
