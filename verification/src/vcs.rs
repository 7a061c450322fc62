use vstd::prelude::*;
use vstd::pervasive::unreached;
use crate::error::{AppError, AppErrorView};

verus! {

/// One thing that the library asks of the world outside it.
///
/// The library never runs a command or touches the filesystem. It names what
/// it needs next; the caller carries it out and records the [`Reply`].
#[derive(Debug, Clone, PartialEq, Eq)]
pub enum Request {
    /// Run `git` with these arguments in this directory.
    Git { dir: String, args: Vec<String> },
    /// Is there anything at this path?
    PathExists { path: String },
    /// The canonical, absolute form of this path.
    Canonicalize { path: String },
    /// The directories directly under this path, one full path per line.
    Subdirectories { path: String },
    /// Let the user choose one of the items: the reply is the chosen item
    /// as it was offered, a failure where the choice could not be shown,
    /// and unavailable where the user gave up.
    Choose { prompt: String, items: Vec<String>, default: usize },
}

/// What a [`Request`] stands for in contracts.
pub enum RequestView {
    Git { dir: Seq<char>, args: Seq<Seq<char>> },
    PathExists { path: Seq<char> },
    Canonicalize { path: Seq<char> },
    Subdirectories { path: Seq<char> },
    Choose { prompt: Seq<char>, items: Seq<Seq<char>>, default: usize },
}

impl View for Request {
    type V = RequestView;

    open spec fn view(&self) -> RequestView {
        match self {
            Request::Git { dir, args } => RequestView::Git { dir: dir@, args: args.deep_view() },
            Request::PathExists { path } => RequestView::PathExists { path: path@ },
            Request::Canonicalize { path } => RequestView::Canonicalize { path: path@ },
            Request::Subdirectories { path } => RequestView::Subdirectories { path: path@ },
            Request::Choose { prompt, items, default } => RequestView::Choose {
                prompt: prompt@,
                items: items.deep_view(),
                default: *default,
            },
        }
    }
}

impl DeepView for Request {
    type V = RequestView;

    open spec fn deep_view(&self) -> RequestView {
        self@
    }
}

/// What came back for a [`Request`].
#[derive(Debug, Clone, PartialEq, Eq)]
pub enum Reply {
    /// It was carried out and succeeded; for a command, its standard output.
    Output(String),
    /// It was carried out and failed; for a command, its standard error.
    Failure(String),
    /// It could not be carried out at all; the reason.
    Unavailable(String),
}

/// What a [`Reply`] stands for in contracts.
pub enum ReplyView {
    Output(Seq<char>),
    Failure(Seq<char>),
    Unavailable(Seq<char>),
}

impl View for Reply {
    type V = ReplyView;

    open spec fn view(&self) -> ReplyView {
        match self {
            Reply::Output(s) => ReplyView::Output(s@),
            Reply::Failure(s) => ReplyView::Failure(s@),
            Reply::Unavailable(s) => ReplyView::Unavailable(s@),
        }
    }
}

impl DeepView for Reply {
    type V = ReplyView;

    open spec fn deep_view(&self) -> ReplyView {
        self@
    }
}

impl Reply {
    /// A copy of this reply.
    pub fn duplicate(&self) -> (r: Reply)
        ensures
            r@ == self@,
    {
        match self {
            Reply::Output(s) => Reply::Output(s.clone()),
            Reply::Failure(s) => Reply::Failure(s.clone()),
            Reply::Unavailable(s) => Reply::Unavailable(s.clone()),
        }
    }

    /// Whether the request succeeded.
    pub fn succeeded(&self) -> (ok: bool)
        ensures
            ok == (self@ is Output),
    {
        match self {
            Reply::Output(_) => true,
            _ => false,
        }
    }
}

/// How far an operation has come on the replies recorded so far.
///
/// An operation is a function of its arguments and of the replies to the
/// requests it has made, in the order in which it made them. Called with the
/// replies recorded so far, it either names the next request, or has come to
/// its end: with a value or an error, and the number of replies it has read.
#[derive(Debug, PartialEq, Eq)]
pub enum Step<T> {
    /// The replies do not reach: this request is to be carried out next, and
    /// its reply recorded after the others.
    Ask(Request),
    /// The operation succeeded with this value, having read the replies
    /// before the given position.
    Done(T, usize),
    /// The operation failed with this error, having read the replies before
    /// the given position.
    Fail(AppError, usize),
}

/// What a [`Step`] stands for in contracts.
pub enum StepView<V> {
    Ask(RequestView),
    Done(V, nat),
    Fail(AppErrorView, nat),
}

impl<T: DeepView> DeepView for Step<T> {
    type V = StepView<T::V>;

    open spec fn deep_view(&self) -> StepView<T::V> {
        match self {
            Step::Ask(q) => StepView::Ask(q@),
            Step::Done(v, at) => StepView::Done(v.deep_view(), *at as nat),
            Step::Fail(e, at) => StepView::Fail(e@, *at as nat),
        }
    }
}

impl<V> StepView<V> {
    /// A step that holds no value, as a step of another operation.
    pub open spec fn pass<W>(self) -> StepView<W> {
        match self {
            StepView::Ask(q) => StepView::Ask(q),
            StepView::Fail(e, at) => StepView::Fail(e, at),
            StepView::Done(_, at) => arbitrary(),
        }
    }
}

impl<T: DeepView> Step<T> {
    /// Hand a request or a failure on to the caller's caller.
    pub fn pass<U: DeepView>(self) -> (r: Step<U>)
        requires
            !(self is Done),
        ensures
            r.deep_view() == self.deep_view().pass::<U::V>(),
    {
        match self {
            Step::Ask(q) => Step::Ask(q),
            Step::Fail(e, at) => Step::Fail(e, at),
            Step::Done(_, _) => unreached(),
        }
    }
}

/// The reply at position `from`, or the request where no reply stands there.
pub open spec fn answer(request: RequestView, replies: Seq<ReplyView>, from: nat) -> StepView<
    ReplyView,
> {
    if from < replies.len() {
        StepView::Done(replies[from as int], from + 1)
    } else {
        StepView::Ask(request)
    }
}

/// Read the reply to `request` at position `from`, or ask for it.
pub fn ask(request: Request, replies: &Vec<Reply>, from: usize) -> (r: Step<Reply>)
    ensures
        r.deep_view() == answer(request@, replies.deep_view(), from as nat),
{
    if from < replies.len() {
        Step::Done(replies[from].duplicate(), from + 1)
    } else {
        Step::Ask(request)
    }
}

/// Whether `longer` holds the replies of `replies` and perhaps more behind
/// them.
pub open spec fn extends(longer: Seq<ReplyView>, replies: Seq<ReplyView>) -> bool {
    &&& replies.len() <= longer.len()
    &&& forall|i: int| 0 <= i < replies.len() ==> longer[i] == replies[i]
}

/// Whether an operation that began at position `from` and stopped at
/// position `at` has read replies only where there were some, of `len`
/// replies in all.
pub open spec fn reads_within(from: nat, at: nat, len: nat) -> bool {
    from <= at && (at == from || at <= len)
}

/// Whether what an operation came to on some replies stands on more
/// replies: an operation that has come to its end, from position `from` on
/// `len` replies, has read none but those replies, and comes to the same
/// end on the longer run. Of an operation that still asks nothing is said.
pub open spec fn stands<V>(step: StepView<V>, later: StepView<V>, from: nat, len: nat) -> bool {
    match step {
        StepView::Ask(_) => true,
        StepView::Done(_, at) => later == step && reads_within(from, at, len),
        StepView::Fail(_, at) => later == step && reads_within(from, at, len),
    }
}

/// A reply that was read stays the same however many replies follow.
pub proof fn lemma_answer_stands(
    request: RequestView,
    replies: Seq<ReplyView>,
    longer: Seq<ReplyView>,
    from: nat,
)
    requires
        extends(longer, replies),
    ensures
        stands(
            answer(request, replies, from),
            answer(request, longer, from),
            from,
            replies.len(),
        ),
{
}

} // verus!
