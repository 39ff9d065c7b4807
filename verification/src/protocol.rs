//! What passes between the dispatcher and the caller who makes the calls on
//! the encyclopedia client: requests, replies, and the work that awaits a
//! reply.

use vstd::prelude::*;
use crate::error::{Failure, QueryError};

verus! {

/// One call on the encyclopedia client, with the article's title as the client
/// is to receive it.
#[derive(Debug, PartialEq, Eq)]
pub enum Request {
    /// The introductory summary of the article.
    Summary { title: String },
    /// The names of the article's sections, in order.
    Sections { title: String },
    /// The text of one section; a section of that name may not exist.
    SectionContent { title: String, section: String },
    /// The article's page id.
    PageId { title: String },
    /// The addresses that the article refers to.
    References { title: String },
    /// The names of the article's categories.
    Categories { title: String },
}

/// What a `Request` stands for, with plain texts in place of strings.
pub enum RequestView {
    Summary { title: Seq<char> },
    Sections { title: Seq<char> },
    SectionContent { title: Seq<char>, section: Seq<char> },
    PageId { title: Seq<char> },
    References { title: Seq<char> },
    Categories { title: Seq<char> },
}

impl View for Request {
    type V = RequestView;

    open spec fn view(&self) -> RequestView {
        match self {
            Request::Summary { title } => RequestView::Summary { title: title@ },
            Request::Sections { title } => RequestView::Sections { title: title@ },
            Request::SectionContent { title, section } => RequestView::SectionContent {
                title: title@,
                section: section@,
            },
            Request::PageId { title } => RequestView::PageId { title: title@ },
            Request::References { title } => RequestView::References { title: title@ },
            Request::Categories { title } => RequestView::Categories { title: title@ },
        }
    }
}

/// What came back from the encyclopedia client.
#[derive(Debug, PartialEq, Eq)]
pub enum Reply {
    /// A text: a summary or a page id.
    Text(String),
    /// A list of names: section names, addresses or category names.
    Names(Vec<String>),
    /// The text of a section, or nothing where the article has no such section.
    Content(Option<String>),
    /// The client failed; the field is its own message.
    Failed(String),
}

/// What a `Reply` stands for, with plain texts in place of strings.
pub enum ReplyView {
    Text(Seq<char>),
    Names(Seq<Seq<char>>),
    Content(Option<Seq<char>>),
    Failed(Seq<char>),
}

impl View for Reply {
    type V = ReplyView;

    open spec fn view(&self) -> ReplyView {
        match self {
            Reply::Text(text) => ReplyView::Text(text@),
            Reply::Names(names) => ReplyView::Names(names.deep_view()),
            Reply::Content(content) => ReplyView::Content(content.deep_view()),
            Reply::Failed(message) => ReplyView::Failed(message@),
        }
    }
}

/// The reply that was handed over, if one was.
pub open spec fn handed(reply: Option<Reply>) -> Option<ReplyView> {
    match reply {
        Some(reply) => Some(reply@),
        None => None,
    }
}

/// What remains to be done with the reply to a request that is under way.
#[derive(Debug, PartialEq, Eq)]
pub enum Pending {
    /// The reply's text is the result.
    Text,
    /// The reply's text is a page id, from which the link is made.
    LinkId,
    /// The reply's names are listed under the heading of a table of contents.
    Contents,
    /// The reply's names are listed one per line.
    Lines,
    /// The reply's names are the article's sections, among which the wanted
    /// one is looked up to ask for its text.
    SectionNames { title: String, wanted: String },
    /// The reply is the text of the section, if the article has it.
    SectionText,
}

/// What a `Pending` stands for, with plain texts in place of strings.
pub enum PendingView {
    Text,
    LinkId,
    Contents,
    Lines,
    SectionNames { title: Seq<char>, wanted: Seq<char> },
    SectionText,
}

impl View for Pending {
    type V = PendingView;

    open spec fn view(&self) -> PendingView {
        match self {
            Pending::Text => PendingView::Text,
            Pending::LinkId => PendingView::LinkId,
            Pending::Contents => PendingView::Contents,
            Pending::Lines => PendingView::Lines,
            Pending::SectionNames { title, wanted } => PendingView::SectionNames {
                title: title@,
                wanted: wanted@,
            },
            Pending::SectionText => PendingView::SectionText,
        }
    }
}

/// What the dispatcher decides next for one flag: to call the client and come
/// back with its reply, or to end with a text or an error.
#[derive(Debug, PartialEq, Eq)]
pub enum Step {
    Ask(Request, Pending),
    Done(Result<String, QueryError>),
}

/// What a `Step` stands for, with plain texts in place of strings.
pub enum StepView {
    Ask(RequestView, PendingView),
    Done(Result<Seq<char>, Failure>),
}

/// The result of an operation, with plain texts in place of strings.
pub open spec fn outcome_view(outcome: Result<String, QueryError>) -> Result<Seq<char>, Failure> {
    match outcome {
        Ok(text) => Ok(text@),
        Err(error) => Err(error@),
    }
}

impl View for Step {
    type V = StepView;

    open spec fn view(&self) -> StepView {
        match self {
            Step::Ask(request, pending) => StepView::Ask(request@, pending@),
            Step::Done(outcome) => StepView::Done(outcome_view(*outcome)),
        }
    }
}

/// The reply has the shape in which the client answers the request, or
/// reports the client's failure.
pub open spec fn answers(request: RequestView, reply: ReplyView) -> bool {
    match reply {
        ReplyView::Failed(_) => true,
        ReplyView::Text(_) => request is Summary || request is PageId,
        ReplyView::Names(_) => request is Sections || request is References
            || request is Categories,
        ReplyView::Content(_) => request is SectionContent,
    }
}

/// The reply has the shape that the pending work expects, or reports the
/// client's failure.
pub open spec fn fits(pending: PendingView, reply: ReplyView) -> bool {
    match reply {
        ReplyView::Failed(_) => true,
        ReplyView::Text(_) => pending is Text || pending is LinkId,
        ReplyView::Names(_) => pending is Contents || pending is Lines
            || pending is SectionNames,
        ReplyView::Content(_) => pending is SectionText,
    }
}

} // verus!
