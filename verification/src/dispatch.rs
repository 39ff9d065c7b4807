//! The dispatcher: the operation that a flag asks for, the request with which
//! it begins, and what follows from each reply of the client.

use vstd::prelude::*;
use crate::error::{Failure, QueryError};
use crate::protocol::{
    answers, fits, outcome_view, Pending, PendingView, Reply, ReplyView, Request, RequestView,
    Step, StepView,
};
use crate::render::{
    contents, contents_of, help, lines, lines_of, link_text, link_to, version, HELP_TEXT,
    VERSION_TEXT,
};
use crate::text::{
    ascii_lower, eq_ignore_ascii_case, lowercase, reads_as, same_ignoring_ascii_case,
    to_lowercase,
};

verus! {

/// The operations that a flag can ask for.
#[derive(Debug, Clone, Copy, PartialEq, Eq)]
pub enum Operation {
    /// The article's summary or, where a section is named too, that section's text.
    Summary,
    /// The article's page id.
    PageId,
    /// The article's table of contents.
    Contents,
    /// The addresses that the article refers to.
    References,
    /// The article's categories.
    Categories,
    /// A link to the article.
    Link,
    /// The version of this program.
    Version,
    /// The usage text.
    Help,
}

/// The table of flags: the operation that a flag asks for, by its short or its
/// long name, with the case of the letters as written. The empty flag asks for
/// the default operation; a flag that the table does not hold asks for none.
pub open spec fn operation_of(flag: Seq<char>) -> Option<Operation> {
    if flag.len() == 0 || flag == "s"@ || flag == "summary"@ {
        Some(Operation::Summary)
    } else if flag == "p"@ || flag == "pageid"@ {
        Some(Operation::PageId)
    } else if flag == "t"@ || flag == "toc"@ {
        Some(Operation::Contents)
    } else if flag == "r"@ || flag == "references"@ {
        Some(Operation::References)
    } else if flag == "c"@ || flag == "categories"@ {
        Some(Operation::Categories)
    } else if flag == "l"@ || flag == "link"@ {
        Some(Operation::Link)
    } else if flag == "v"@ || flag == "version"@ {
        Some(Operation::Version)
    } else if flag == "h"@ || flag == "help"@ {
        Some(Operation::Help)
    } else {
        None
    }
}

/// The text of an argument that may be missing.
pub open spec fn text_of(query: Option<&String>) -> Option<Seq<char>> {
    match query {
        Some(text) => Some(text@),
        None => None,
    }
}

/// The first parameter, if there is any.
pub open spec fn first_param(params: Seq<Seq<char>>) -> Option<Seq<char>> {
    if params.len() > 0 {
        Some(params[0])
    } else {
        None
    }
}

/// The last parameter, if there is any.
pub open spec fn last_param(params: Seq<Seq<char>>) -> Option<Seq<char>> {
    if params.len() > 0 {
        Some(params[params.len() - 1])
    } else {
        None
    }
}

/// How an operation opens on an article whose title, as the client is to
/// receive it, is `title`: the request to make and the work that awaits its
/// reply. A summary turns into the look-up of a section where one is wanted.
/// The version and the usage text need no article and are done at once.
pub open spec fn opening(
    operation: Operation,
    title: Seq<char>,
    section: Option<Seq<char>>,
) -> StepView {
    match operation {
        Operation::Summary => match section {
            Some(wanted) => StepView::Ask(
                RequestView::Sections { title },
                PendingView::SectionNames { title, wanted },
            ),
            None => StepView::Ask(RequestView::Summary { title }, PendingView::Text),
        },
        Operation::PageId => StepView::Ask(RequestView::PageId { title }, PendingView::Text),
        Operation::Contents => StepView::Ask(
            RequestView::Sections { title },
            PendingView::Contents,
        ),
        Operation::References => StepView::Ask(
            RequestView::References { title },
            PendingView::Lines,
        ),
        Operation::Categories => StepView::Ask(
            RequestView::Categories { title },
            PendingView::Lines,
        ),
        Operation::Link => StepView::Ask(RequestView::PageId { title }, PendingView::LinkId),
        Operation::Version => StepView::Done(Ok(VERSION_TEXT@)),
        Operation::Help => StepView::Done(Ok(HELP_TEXT@)),
    }
}

/// How an operation begins on the title given for it: a missing title is
/// refused, and a title that is there goes to the client in lower case.
pub open spec fn on_title(operation: Operation, query: Option<Seq<char>>) -> StepView {
    match query {
        Some(title) => opening(operation, lowercase(title), None),
        None => StepView::Done(Err(Failure::TooFewArguments)),
    }
}

/// How the text of a section begins: a missing title or section name is
/// refused; otherwise the title goes to the client in lower case and the
/// section name stays as it was given.
pub open spec fn on_section(title: Option<Seq<char>>, section: Option<Seq<char>>) -> StepView {
    match (title, section) {
        (Some(title), Some(wanted)) => opening(
            Operation::Summary,
            lowercase(title),
            Some(wanted),
        ),
        _ => StepView::Done(Err(Failure::TooFewArguments)),
    }
}

/// How an operation begins on the given parameters. With more than one
/// parameter a summary turns into the text of the section that the last
/// parameter names, in the article that the first one names; every other
/// operation on an article takes the last parameter as its title. The version
/// and the usage text look at no parameter.
pub open spec fn first_step(operation: Operation, params: Seq<Seq<char>>) -> StepView {
    match operation {
        Operation::Summary => if params.len() > 1 {
            on_section(first_param(params), last_param(params))
        } else {
            on_title(Operation::Summary, last_param(params))
        },
        Operation::Version => StepView::Done(Ok(VERSION_TEXT@)),
        Operation::Help => StepView::Done(Ok(HELP_TEXT@)),
        _ => on_title(operation, last_param(params)),
    }
}

/// What a flag leads to on the given parameters: the first step of its
/// operation, or the error that the flag is unknown.
pub open spec fn dispatch(flag: Seq<char>, params: Seq<Seq<char>>) -> StepView {
    match operation_of(flag) {
        Some(operation) => first_step(operation, params),
        None => StepView::Done(Err(Failure::UnknownFlag)),
    }
}

/// The section name to ask the client for: the first of the article's section
/// names, in their order, that is the wanted name up to the case of ASCII
/// letters, written as the article has it; the empty name where none is.
pub open spec fn section_named(sections: Seq<Seq<char>>, wanted: Seq<char>) -> Seq<char>
    decreases sections.len(),
{
    if sections.len() == 0 {
        Seq::empty()
    } else if same_ignoring_ascii_case(sections[0], wanted) {
        sections[0]
    } else {
        section_named(sections.skip(1), wanted)
    }
}

/// What follows from the client's reply for the work that was pending.
///
/// A failure of the client ends the operation with the client's message. A
/// text is the result, or the page id of the link that is the result. Names
/// are listed, or are the section names among which the wanted section is
/// looked up before its text is asked for. A section's text is the result, and
/// its absence the error that no such section was found. A reply of another
/// shape than the pending work expects is treated by its own shape.
pub open spec fn resumed(pending: PendingView, reply: ReplyView) -> StepView {
    match reply {
        ReplyView::Failed(message) => if pending is LinkId {
            StepView::Done(Err(Failure::LinkFailed(message)))
        } else {
            StepView::Done(Err(Failure::FetchFailed(message)))
        },
        ReplyView::Text(text) => if pending is LinkId {
            StepView::Done(Ok(link_text(text)))
        } else {
            StepView::Done(Ok(text))
        },
        ReplyView::Names(names) => match pending {
            PendingView::SectionNames { title, wanted } => StepView::Ask(
                RequestView::SectionContent { title, section: section_named(names, wanted) },
                PendingView::SectionText,
            ),
            PendingView::Contents => StepView::Done(Ok(contents(names))),
            _ => StepView::Done(Ok(lines(names))),
        },
        ReplyView::Content(content) => match content {
            Some(text) => StepView::Done(Ok(text)),
            None => StepView::Done(Err(Failure::SectionNotFound)),
        },
    }
}

/// How many calls on the client a step can still lead to: none once it is
/// done, two where the sections of an article are yet to be listed before the
/// text of one of them is asked for, and one otherwise.
pub open spec fn calls_ahead(step: StepView) -> nat {
    match step {
        StepView::Done(_) => 0,
        StepView::Ask(_, pending) => if pending is SectionNames {
            2
        } else {
            1
        },
    }
}

/// What a step comes to when the client answers every request as `client`
/// says: the text or the error at which the operation ends.
pub open spec fn completed(step: StepView, client: spec_fn(RequestView) -> ReplyView) -> Result<
    Seq<char>,
    Failure,
>
    decreases calls_ahead(step),
{
    match step {
        StepView::Done(outcome) => outcome,
        StepView::Ask(request, pending) => completed(resumed(pending, client(request)), client),
    }
}

/// What serving a flag on the given parameters comes to when the client
/// answers every request as `client` says.
pub open spec fn served(
    flag: Seq<char>,
    params: Seq<Seq<char>>,
    client: spec_fn(RequestView) -> ReplyView,
) -> Result<Seq<char>, Failure> {
    completed(dispatch(flag, params), client)
}

/// A run without a flag is served as `s` and `summary` are: the three lead to
/// the same step on any parameters. On a title and a section name that is the
/// look-up of the section, on a title alone the summary.
pub proof fn lemma_default_is_summary(params: Seq<Seq<char>>)
    ensures
        dispatch(Seq::empty(), params) == dispatch("s"@, params),
        dispatch(Seq::empty(), params) == dispatch("summary"@, params),
        params.len() == 2 ==> dispatch(Seq::empty(), params) == on_section(
            Some(params[0]),
            Some(params[1]),
        ),
        params.len() == 1 ==> dispatch(Seq::empty(), params) == on_title(
            Operation::Summary,
            Some(params[0]),
        ),
{
}

/// The short and the long name of an operation are served alike: on any
/// parameters each of the two leads to the first step of the operation that
/// the table of flags gives for it.
pub proof fn lemma_flag_names_are_aliases(params: Seq<Seq<char>>)
    ensures
        dispatch("s"@, params) == first_step(Operation::Summary, params),
        dispatch("summary"@, params) == first_step(Operation::Summary, params),
        dispatch("p"@, params) == first_step(Operation::PageId, params),
        dispatch("pageid"@, params) == first_step(Operation::PageId, params),
        dispatch("t"@, params) == first_step(Operation::Contents, params),
        dispatch("toc"@, params) == first_step(Operation::Contents, params),
        dispatch("r"@, params) == first_step(Operation::References, params),
        dispatch("references"@, params) == first_step(Operation::References, params),
        dispatch("c"@, params) == first_step(Operation::Categories, params),
        dispatch("categories"@, params) == first_step(Operation::Categories, params),
        dispatch("l"@, params) == first_step(Operation::Link, params),
        dispatch("link"@, params) == first_step(Operation::Link, params),
        dispatch("v"@, params) == first_step(Operation::Version, params),
        dispatch("version"@, params) == first_step(Operation::Version, params),
        dispatch("h"@, params) == first_step(Operation::Help, params),
        dispatch("help"@, params) == first_step(Operation::Help, params),
{
    reveal_strlit("s");
    reveal_strlit("summary");
    reveal_strlit("p");
    reveal_strlit("pageid");
    reveal_strlit("t");
    reveal_strlit("toc");
    reveal_strlit("r");
    reveal_strlit("references");
    reveal_strlit("c");
    reveal_strlit("categories");
    reveal_strlit("l");
    reveal_strlit("link");
    reveal_strlit("v");
    reveal_strlit("version");
    reveal_strlit("h");
    reveal_strlit("help");
    assert("s"@.len() == 1 && "s"@[0] == 's' && "summary"@.len() == 7 && "summary"@[0] == 's');
    assert("p"@.len() == 1 && "p"@[0] == 'p' && "pageid"@.len() == 6 && "pageid"@[0] == 'p');
    assert("t"@.len() == 1 && "t"@[0] == 't' && "toc"@.len() == 3 && "toc"@[0] == 't');
    assert("r"@.len() == 1 && "r"@[0] == 'r' && "references"@.len() == 10 && "references"@[0]
        == 'r');
    assert("c"@.len() == 1 && "c"@[0] == 'c' && "categories"@.len() == 10 && "categories"@[0]
        == 'c');
    assert("l"@.len() == 1 && "l"@[0] == 'l' && "link"@.len() == 4 && "link"@[0] == 'l');
    assert("v"@.len() == 1 && "v"@[0] == 'v' && "version"@.len() == 7 && "version"@[0] == 'v');
    assert("h"@.len() == 1 && "h"@[0] == 'h' && "help"@.len() == 4 && "help"@[0] == 'h');
}

/// Arguments are checked before the client is called: without a parameter no
/// flag leads to a request, and every operation on an article ends at once
/// with the error that an argument is missing.
pub proof fn lemma_no_request_without_title(flag: Seq<char>)
    ensures
        !(dispatch(flag, Seq::empty()) is Ask),
        operation_of(flag) matches Some(operation) && operation != Operation::Version
            && operation != Operation::Help ==> dispatch(flag, Seq::empty()) == StepView::Done(
            Err(Failure::TooFewArguments),
        ),
{
}

/// A flag is refused as unknown exactly when the table of flags does not hold
/// it, whatever the parameters are; no request is made for it.
pub proof fn lemma_unknown_flag_is_refused(flag: Seq<char>, params: Seq<Seq<char>>)
    ensures
        operation_of(flag) is None <==> dispatch(flag, params) == StepView::Done(
            Err(Failure::UnknownFlag),
        ),
{
}

/// A flag is served with two calls on the client at most, and each reply
/// brings the end nearer: a flag needs no call where its arguments are refused
/// or its text is fixed, two for the text of a section, and one otherwise.
pub proof fn lemma_flag_takes_two_calls_at_most(
    flag: Seq<char>,
    params: Seq<Seq<char>>,
    request: RequestView,
    pending: PendingView,
    reply: ReplyView,
)
    ensures
        calls_ahead(dispatch(flag, params)) <= 2,
        calls_ahead(dispatch(flag, params)) == 2 ==> operation_of(flag) == Some(Operation::Summary)
            && params.len() > 1,
        calls_ahead(resumed(pending, reply)) < calls_ahead(StepView::Ask(request, pending)),
{
}

/// Whatever request a step hands out, the work that it leaves pending expects
/// the shape in which the client answers that request. This holds of the
/// first step of a flag and of every step that follows a reply.
pub proof fn lemma_request_matches_pending(
    flag: Seq<char>,
    params: Seq<Seq<char>>,
    pending: PendingView,
    earlier: ReplyView,
    reply: ReplyView,
)
    ensures
        dispatch(flag, params) matches StepView::Ask(request, expected) ==> (answers(
            request,
            reply,
        ) ==> fits(expected, reply)),
        resumed(pending, earlier) matches StepView::Ask(request, expected) ==> (answers(
            request,
            reply,
        ) ==> fits(expected, reply)),
{
}

/// The look-up of a section takes the first name that matches: where the
/// section at `i` is the wanted one up to the case of ASCII letters and no
/// section before it is, the name asked for is that section's, written as the
/// article has it.
pub proof fn lemma_section_named_is_first_match(
    sections: Seq<Seq<char>>,
    wanted: Seq<char>,
    i: int,
)
    requires
        0 <= i < sections.len(),
        same_ignoring_ascii_case(sections[i], wanted),
        forall|j: int| 0 <= j < i ==> !same_ignoring_ascii_case(#[trigger] sections[j], wanted),
    ensures
        section_named(sections, wanted) == sections[i],
    decreases i,
{
    if i > 0 {
        assert(!same_ignoring_ascii_case(sections[0], wanted));
        let rest = sections.skip(1);
        assert forall|j: int| 0 <= j < i - 1 implies !same_ignoring_ascii_case(
            #[trigger] rest[j],
            wanted,
        ) by {
            assert(rest[j] == sections[j + 1]);
        }
        lemma_section_named_is_first_match(rest, wanted, i - 1);
    }
}

/// Where no section of the article is the wanted one up to the case of ASCII
/// letters, the name asked for is the empty one.
pub proof fn lemma_section_named_without_match(sections: Seq<Seq<char>>, wanted: Seq<char>)
    requires
        forall|j: int|
            0 <= j < sections.len() ==> !same_ignoring_ascii_case(#[trigger] sections[j], wanted),
    ensures
        section_named(sections, wanted) == Seq::<char>::empty(),
    decreases sections.len(),
{
    if sections.len() > 0 {
        assert(!same_ignoring_ascii_case(sections[0], wanted));
        let rest = sections.skip(1);
        assert forall|j: int| 0 <= j < rest.len() implies !same_ignoring_ascii_case(
            #[trigger] rest[j],
            wanted,
        ) by {
            assert(rest[j] == sections[j + 1]);
        }
        lemma_section_named_without_match(rest, wanted);
    }
}

/// The look-up of a section does not depend on the case in which the wanted
/// name is written: two names that differ in the case of ASCII letters only
/// find the same section.
pub proof fn lemma_section_lookup_ignores_case(
    sections: Seq<Seq<char>>,
    wanted: Seq<char>,
    other: Seq<char>,
)
    requires
        same_ignoring_ascii_case(wanted, other),
    ensures
        section_named(sections, wanted) == section_named(sections, other),
    decreases sections.len(),
{
    if sections.len() > 0 {
        let name = sections[0];
        if name.len() == wanted.len() {
            assert forall|i: int| 0 <= i < name.len() implies (ascii_lower(name[i]) == ascii_lower(
                wanted[i],
            ) <==> ascii_lower(name[i]) == ascii_lower(other[i])) by {
                assert(ascii_lower(wanted[i]) == ascii_lower(other[i]));
            }
        }
        assert(same_ignoring_ascii_case(name, wanted) == same_ignoring_ascii_case(name, other));
        lemma_section_lookup_ignores_case(sections.skip(1), wanted, other);
    }
}

/// The operation that a flag asks for, if it asks for any.
pub fn operation(flag: &String) -> (found: Option<Operation>)
    ensures
        found == operation_of(flag@),
{
    if flag.as_str().is_empty() || reads_as(flag, "s") || reads_as(flag, "summary") {
        Some(Operation::Summary)
    } else if reads_as(flag, "p") || reads_as(flag, "pageid") {
        Some(Operation::PageId)
    } else if reads_as(flag, "t") || reads_as(flag, "toc") {
        Some(Operation::Contents)
    } else if reads_as(flag, "r") || reads_as(flag, "references") {
        Some(Operation::References)
    } else if reads_as(flag, "c") || reads_as(flag, "categories") {
        Some(Operation::Categories)
    } else if reads_as(flag, "l") || reads_as(flag, "link") {
        Some(Operation::Link)
    } else if reads_as(flag, "v") || reads_as(flag, "version") {
        Some(Operation::Version)
    } else if reads_as(flag, "h") || reads_as(flag, "help") {
        Some(Operation::Help)
    } else {
        None
    }
}

/// Refuses an argument that is missing.
pub fn too_few_arguments(query: Option<&String>) -> (checked: Result<(), QueryError>)
    ensures
        query is Some ==> checked is Ok,
        query is None ==> (checked matches Err(e) && e@ == Failure::TooFewArguments),
{
    if query.is_none() {
        Err(QueryError::TooFewArguments)
    } else {
        Ok(())
    }
}

/// Turns what the client returned for a text into the result of the
/// operation: the text as it is, or the client's message as a failed fetch.
pub fn matchout(input: Result<String, String>) -> (outcome: Result<String, QueryError>)
    ensures
        outcome_view(outcome) == match input {
            Ok(text) => Ok::<Seq<char>, Failure>(text@),
            Err(message) => Err(Failure::FetchFailed(message@)),
        },
{
    match input {
        Ok(text) => Ok(text),
        Err(message) => Err(QueryError::FetchFailed(message)),
    }
}

/// Opens an operation on the article whose title, as the client is to receive
/// it, is `title`; `section` is the section wanted of a summary, if one is.
pub fn open_operation(operation: Operation, title: String, section: Option<String>) -> (step: Step)
    ensures
        step@ == opening(operation, title@, section.deep_view()),
{
    match operation {
        Operation::Summary => match section {
            Some(wanted) => Step::Ask(
                Request::Sections { title: title.clone() },
                Pending::SectionNames { title, wanted },
            ),
            None => Step::Ask(Request::Summary { title }, Pending::Text),
        },
        Operation::PageId => Step::Ask(Request::PageId { title }, Pending::Text),
        Operation::Contents => Step::Ask(Request::Sections { title }, Pending::Contents),
        Operation::References => Step::Ask(Request::References { title }, Pending::Lines),
        Operation::Categories => Step::Ask(Request::Categories { title }, Pending::Lines),
        Operation::Link => Step::Ask(Request::PageId { title }, Pending::LinkId),
        Operation::Version => Step::Done(version()),
        Operation::Help => Step::Done(help()),
    }
}

/// Begins an operation on the article that `query` names.
fn begin(operation: Operation, query: Option<&String>) -> (step: Step)
    ensures
        step@ == on_title(operation, text_of(query)),
{
    match too_few_arguments(query) {
        Ok(()) => open_operation(operation, to_lowercase(query.unwrap().as_str()), None),
        Err(error) => Step::Done(Err(error)),
    }
}

/// Begins a summary of the article that `query` names.
pub fn search_summary(query: Option<&String>) -> (step: Step)
    ensures
        step@ == on_title(Operation::Summary, text_of(query)),
{
    begin(Operation::Summary, query)
}

/// Begins the text of the section `section` of the article `title`.
pub fn search_section(title: Option<&String>, section: Option<&String>) -> (step: Step)
    ensures
        step@ == on_section(text_of(title), text_of(section)),
{
    match (too_few_arguments(title), too_few_arguments(section)) {
        (Ok(()), Ok(())) => open_operation(
            Operation::Summary,
            to_lowercase(title.unwrap().as_str()),
            Some(section.unwrap().clone()),
        ),
        (Err(error), _) => Step::Done(Err(error)),
        (_, Err(error)) => Step::Done(Err(error)),
    }
}

/// Begins the page id of the article that `query` names.
pub fn pageid(query: Option<&String>) -> (step: Step)
    ensures
        step@ == on_title(Operation::PageId, text_of(query)),
{
    begin(Operation::PageId, query)
}

/// Begins the table of contents of the article that `query` names.
pub fn table_of_contents(query: Option<&String>) -> (step: Step)
    ensures
        step@ == on_title(Operation::Contents, text_of(query)),
{
    begin(Operation::Contents, query)
}

/// Begins the list of references of the article that `query` names.
pub fn references(query: Option<&String>) -> (step: Step)
    ensures
        step@ == on_title(Operation::References, text_of(query)),
{
    begin(Operation::References, query)
}

/// Begins the list of categories of the article that `query` names.
pub fn categories(query: Option<&String>) -> (step: Step)
    ensures
        step@ == on_title(Operation::Categories, text_of(query)),
{
    begin(Operation::Categories, query)
}

/// Begins the link to the article that `query` names.
pub fn link(query: Option<&String>) -> (step: Step)
    ensures
        step@ == on_title(Operation::Link, text_of(query)),
{
    begin(Operation::Link, query)
}

/// The first parameter, if there is any.
fn first_of(params: &Vec<String>) -> (first: Option<&String>)
    ensures
        text_of(first) == first_param(params.deep_view()),
{
    if params.len() > 0 {
        Some(&params[0])
    } else {
        None
    }
}

/// The last parameter, if there is any.
fn last_of(params: &Vec<String>) -> (last: Option<&String>)
    ensures
        text_of(last) == last_param(params.deep_view()),
{
    if params.len() > 0 {
        Some(&params[params.len() - 1])
    } else {
        None
    }
}

/// Begins the operation that `flag` asks for on the given parameters.
pub fn parse_flags(flag: &String, params: &Vec<String>) -> (step: Step)
    ensures
        step@ == dispatch(flag@, params.deep_view()),
{
    match operation(flag) {
        None => Step::Done(Err(QueryError::UnknownFlag)),
        Some(Operation::Summary) => if params.len() > 1 {
            search_section(first_of(params), last_of(params))
        } else {
            search_summary(last_of(params))
        },
        Some(Operation::PageId) => pageid(last_of(params)),
        Some(Operation::Contents) => table_of_contents(last_of(params)),
        Some(Operation::References) => references(last_of(params)),
        Some(Operation::Categories) => categories(last_of(params)),
        Some(Operation::Link) => link(last_of(params)),
        Some(Operation::Version) => Step::Done(version()),
        Some(Operation::Help) => Step::Done(help()),
    }
}

/// The section name to ask the client for, looked up among the article's
/// section names without regard to the case of ASCII letters.
pub fn find_section(sections: &Vec<String>, wanted: &String) -> (name: String)
    ensures
        name@ == section_named(sections.deep_view(), wanted@),
{
    let ghost all = sections.deep_view();
    let mut i: usize = 0;
    assert(all.skip(0) =~= all);
    while i < sections.len()
        invariant
            i <= sections.len(),
            all == sections.deep_view(),
            section_named(all, wanted@) == section_named(all.skip(i as int), wanted@),
        decreases sections.len() - i,
    {
        if eq_ignore_ascii_case(sections[i].as_str(), wanted.as_str()) {
            return sections[i].clone();
        }
        assert(all.skip(i as int).skip(1) =~= all.skip(i + 1));
        i += 1;
    }
    String::new()
}

/// Goes on with the work that was pending, now that the client has replied.
pub fn resume(pending: Pending, reply: Reply) -> (step: Step)
    ensures
        step@ == resumed(pending@, reply@),
{
    match reply {
        Reply::Failed(message) => match pending {
            Pending::LinkId => Step::Done(Err(QueryError::LinkFailed(message))),
            _ => Step::Done(matchout(Err(message))),
        },
        Reply::Text(text) => match pending {
            Pending::LinkId => Step::Done(Ok(link_to(&text))),
            _ => Step::Done(matchout(Ok(text))),
        },
        Reply::Names(names) => match pending {
            Pending::SectionNames { title, wanted } => {
                let section = find_section(&names, &wanted);
                Step::Ask(Request::SectionContent { title, section }, Pending::SectionText)
            },
            Pending::Contents => Step::Done(Ok(contents_of(&names))),
            _ => Step::Done(Ok(lines_of(&names))),
        },
        Reply::Content(content) => match content {
            Some(text) => Step::Done(Ok(text)),
            None => Step::Done(Err(QueryError::SectionNotFound)),
        },
    }
}

} // verus!
