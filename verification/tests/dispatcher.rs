use qwiki::{
    categories, find_section, link, matchout, pageid, parse_flags, references, resume,
    search_section, search_summary, table_of_contents, too_few_arguments, Operation, Pending,
    QueryError, Reply, Request, Step,
};

fn strings(items: &[&str]) -> Vec<String> {
    items.iter().map(|s| String::from(*s)).collect()
}

fn dispatch(flag: &str, params: &[&str]) -> Step {
    parse_flags(&String::from(flag), &strings(params))
}

#[test]
fn check_case() {
    let step = search_summary(Some(&String::from("cristiano ronaldo")));
    assert_eq!(
        step,
        Step::Ask(Request::Summary { title: String::from("cristiano ronaldo") }, Pending::Text)
    );
    let test = match resume(Pending::Text, Reply::Text(String::from("Cristiano Ronaldo is a footballer."))) {
        Step::Done(outcome) => outcome,
        Step::Ask(..) => unreachable!(),
    };
    assert!(test.is_ok());
}

#[test]
fn title_goes_to_the_client_in_lower_case() {
    assert_eq!(
        dispatch("s", &["CaTs"]),
        Step::Ask(Request::Summary { title: String::from("cats") }, Pending::Text)
    );
    assert_eq!(
        dispatch("p", &["\u{c9}t\u{c9}"]),
        Step::Ask(Request::PageId { title: String::from("\u{e9}t\u{e9}") }, Pending::Text)
    );
}

#[test]
fn empty_flag_with_two_params_is_the_section_lookup() {
    let expected = Step::Ask(
        Request::Sections { title: String::from("cats") },
        Pending::SectionNames { title: String::from("cats"), wanted: String::from("History") },
    );
    assert_eq!(dispatch("", &["Cats", "History"]), expected);
    assert_eq!(dispatch("s", &["Cats", "History"]), expected);
    assert_eq!(dispatch("summary", &["Cats", "History"]), expected);
}

#[test]
fn empty_flag_with_one_param_is_the_summary() {
    let expected = Step::Ask(Request::Summary { title: String::from("cats") }, Pending::Text);
    assert_eq!(dispatch("", &["Cats"]), expected);
    assert_eq!(dispatch("s", &["Cats"]), expected);
    assert_eq!(dispatch("summary", &["Cats"]), expected);
}

#[test]
fn section_lookup_takes_first_and_last_of_many_params() {
    assert_eq!(
        dispatch("s", &["Cats", "Middle", "History"]),
        Step::Ask(
            Request::Sections { title: String::from("cats") },
            Pending::SectionNames { title: String::from("cats"), wanted: String::from("History") },
        )
    );
}

#[test]
fn page_id_without_title_is_too_few_arguments() {
    assert_eq!(dispatch("p", &[]), Step::Done(Err(QueryError::TooFewArguments)));
}

#[test]
fn every_article_operation_without_title_is_too_few_arguments() {
    for flag in [
        "", "s", "summary", "p", "pageid", "t", "toc", "r", "references", "c", "categories", "l",
        "link",
    ] {
        assert_eq!(dispatch(flag, &[]), Step::Done(Err(QueryError::TooFewArguments)));
    }
}

#[test]
fn unknown_flag_is_refused() {
    assert_eq!(dispatch("zz", &["Cats"]), Step::Done(Err(QueryError::UnknownFlag)));
    assert_eq!(dispatch("z", &[]), Step::Done(Err(QueryError::UnknownFlag)));
    assert_eq!(dispatch("--summary", &["Cats"]), Step::Done(Err(QueryError::UnknownFlag)));
}

#[test]
fn flag_names_are_case_sensitive() {
    assert_eq!(dispatch("S", &["Cats"]), Step::Done(Err(QueryError::UnknownFlag)));
    assert_eq!(dispatch("Summary", &["Cats"]), Step::Done(Err(QueryError::UnknownFlag)));
    assert_eq!(dispatch("TOC", &["Cats"]), Step::Done(Err(QueryError::UnknownFlag)));
}

#[test]
fn table_of_flags() {
    let title = || String::from("dogs");
    for flag in ["p", "pageid"] {
        assert_eq!(
            dispatch(flag, &["Dogs"]),
            Step::Ask(Request::PageId { title: title() }, Pending::Text)
        );
    }
    for flag in ["t", "toc"] {
        assert_eq!(
            dispatch(flag, &["Dogs"]),
            Step::Ask(Request::Sections { title: title() }, Pending::Contents)
        );
    }
    for flag in ["r", "references"] {
        assert_eq!(
            dispatch(flag, &["Dogs"]),
            Step::Ask(Request::References { title: title() }, Pending::Lines)
        );
    }
    for flag in ["c", "categories"] {
        assert_eq!(
            dispatch(flag, &["Dogs"]),
            Step::Ask(Request::Categories { title: title() }, Pending::Lines)
        );
    }
    for flag in ["l", "link"] {
        assert_eq!(
            dispatch(flag, &["Dogs"]),
            Step::Ask(Request::PageId { title: title() }, Pending::LinkId)
        );
    }
}

#[test]
fn article_operations_take_the_last_param_as_title() {
    assert_eq!(
        dispatch("t", &["Cats", "Dogs"]),
        Step::Ask(Request::Sections { title: String::from("dogs") }, Pending::Contents)
    );
}

#[test]
fn version_and_help_need_no_param_and_no_request() {
    for flag in ["v", "version"] {
        assert_eq!(dispatch(flag, &[]), Step::Done(Ok(String::from("qwiki version 0.1.0"))));
        assert_eq!(
            dispatch(flag, &["Cats", "History"]),
            Step::Done(Ok(String::from("qwiki version 0.1.0")))
        );
    }
    for flag in ["h", "help"] {
        assert_eq!(dispatch(flag, &[]), Step::Done(qwiki::help()));
    }
}

#[test]
fn operations_by_name() {
    let cats = String::from("Cats");
    let history = String::from("history");
    assert_eq!(
        search_summary(Some(&cats)),
        Step::Ask(Request::Summary { title: String::from("cats") }, Pending::Text)
    );
    assert_eq!(
        search_section(Some(&cats), Some(&history)),
        Step::Ask(
            Request::Sections { title: String::from("cats") },
            Pending::SectionNames { title: String::from("cats"), wanted: String::from("history") },
        )
    );
    assert_eq!(
        pageid(Some(&cats)),
        Step::Ask(Request::PageId { title: String::from("cats") }, Pending::Text)
    );
    assert_eq!(
        table_of_contents(Some(&cats)),
        Step::Ask(Request::Sections { title: String::from("cats") }, Pending::Contents)
    );
    assert_eq!(
        references(Some(&cats)),
        Step::Ask(Request::References { title: String::from("cats") }, Pending::Lines)
    );
    assert_eq!(
        categories(Some(&cats)),
        Step::Ask(Request::Categories { title: String::from("cats") }, Pending::Lines)
    );
    assert_eq!(
        link(Some(&cats)),
        Step::Ask(Request::PageId { title: String::from("cats") }, Pending::LinkId)
    );
}

#[test]
fn operations_by_name_without_argument() {
    let cats = String::from("Cats");
    let missing = Step::Done(Err(QueryError::TooFewArguments));
    assert_eq!(search_summary(None), missing);
    assert_eq!(search_section(None, Some(&cats)), missing);
    assert_eq!(search_section(Some(&cats), None), missing);
    assert_eq!(search_section(None, None), missing);
    assert_eq!(pageid(None), missing);
    assert_eq!(table_of_contents(None), missing);
    assert_eq!(references(None), missing);
    assert_eq!(categories(None), missing);
    assert_eq!(link(None), missing);
}

#[test]
fn too_few_arguments_tells_presence() {
    assert_eq!(too_few_arguments(None), Err(QueryError::TooFewArguments));
    assert_eq!(too_few_arguments(Some(&String::from("x"))), Ok(()));
    assert_eq!(too_few_arguments(Some(&String::new())), Ok(()));
}

#[test]
fn matchout_passes_text_and_wraps_failure() {
    assert_eq!(matchout(Ok(String::from("text"))), Ok(String::from("text")));
    assert_eq!(
        matchout(Err(String::from("HTTP Error"))),
        Err(QueryError::FetchFailed(String::from("HTTP Error")))
    );
}

#[test]
fn section_is_found_without_regard_to_case_and_named_as_listed() {
    let sections = strings(&["Etymology", "History", "See also"]);
    assert_eq!(find_section(&sections, &String::from("history")), "History");
    assert_eq!(find_section(&sections, &String::from("HISTORY")), "History");
    assert_eq!(find_section(&sections, &String::from("see ALSO")), "See also");
}

#[test]
fn section_lookup_takes_the_first_match() {
    let sections = strings(&["notes", "Notes", "NOTES"]);
    assert_eq!(find_section(&sections, &String::from("NoTeS")), "notes");
}

#[test]
fn section_that_is_not_listed_gives_the_empty_name() {
    let sections = strings(&["Etymology", "History"]);
    assert_eq!(find_section(&sections, &String::from("Histor")), "");
    assert_eq!(find_section(&sections, &String::from("Biology")), "");
    assert_eq!(find_section(&strings(&[]), &String::from("History")), "");
}

#[test]
fn section_lookup_folds_ascii_letters_only() {
    let sections = strings(&["\u{c9}t\u{e9}", "caf\u{e9}"]);
    assert_eq!(find_section(&sections, &String::from("\u{e9}t\u{e9}")), "");
    assert_eq!(find_section(&sections, &String::from("CAF\u{e9}")), "caf\u{e9}");
    assert_eq!(find_section(&sections, &String::from("CAF\u{c9}")), "");
}

#[test]
fn section_names_lead_to_the_request_for_the_section() {
    let pending =
        Pending::SectionNames { title: String::from("cats"), wanted: String::from("history") };
    let reply = Reply::Names(strings(&["Etymology", "History"]));
    assert_eq!(
        resume(pending, reply),
        Step::Ask(
            Request::SectionContent { title: String::from("cats"), section: String::from("History") },
            Pending::SectionText,
        )
    );
}

#[test]
fn unlisted_section_is_asked_for_under_the_empty_name() {
    let pending =
        Pending::SectionNames { title: String::from("cats"), wanted: String::from("biology") };
    let reply = Reply::Names(strings(&["Etymology", "History"]));
    assert_eq!(
        resume(pending, reply),
        Step::Ask(
            Request::SectionContent { title: String::from("cats"), section: String::new() },
            Pending::SectionText,
        )
    );
}

#[test]
fn section_text_or_section_not_found() {
    assert_eq!(
        resume(Pending::SectionText, Reply::Content(Some(String::from("Cats were...")))),
        Step::Done(Ok(String::from("Cats were...")))
    );
    assert_eq!(
        resume(Pending::SectionText, Reply::Content(None)),
        Step::Done(Err(QueryError::SectionNotFound))
    );
}

#[test]
fn text_reply_is_the_result() {
    assert_eq!(
        resume(Pending::Text, Reply::Text(String::from("Cats are small."))),
        Step::Done(Ok(String::from("Cats are small.")))
    );
}

#[test]
fn page_id_becomes_a_link() {
    assert_eq!(
        resume(Pending::LinkId, Reply::Text(String::from("6678"))),
        Step::Done(Ok(String::from("http://en.wikipedia.org/?curid=6678")))
    );
}

#[test]
fn names_are_listed() {
    assert_eq!(
        resume(Pending::Contents, Reply::Names(strings(&["Etymology", "History"]))),
        Step::Done(Ok(String::from("Sections:\nEtymology\nHistory\n")))
    );
    assert_eq!(
        resume(Pending::Lines, Reply::Names(strings(&["http://a.example", "http://b.example"]))),
        Step::Done(Ok(String::from("http://a.example\nhttp://b.example\n")))
    );
    assert_eq!(
        resume(Pending::Contents, Reply::Names(strings(&[]))),
        Step::Done(Ok(String::from("Sections:\n")))
    );
    assert_eq!(resume(Pending::Lines, Reply::Names(strings(&[]))), Step::Done(Ok(String::new())));
}

#[test]
fn client_failure_is_a_failed_fetch() {
    let failed = || Reply::Failed(String::from("JSON Path Error"));
    let expected = || Step::Done(Err(QueryError::FetchFailed(String::from("JSON Path Error"))));
    assert_eq!(resume(Pending::Text, failed()), expected());
    assert_eq!(resume(Pending::Contents, failed()), expected());
    assert_eq!(resume(Pending::Lines, failed()), expected());
    assert_eq!(resume(Pending::SectionText, failed()), expected());
    assert_eq!(
        resume(
            Pending::SectionNames { title: String::from("cats"), wanted: String::from("x") },
            failed()
        ),
        expected()
    );
}

#[test]
fn client_failure_under_a_link_is_a_failed_link() {
    assert_eq!(
        resume(Pending::LinkId, Reply::Failed(String::from("HTTP Error"))),
        Step::Done(Err(QueryError::LinkFailed(String::from("HTTP Error"))))
    );
}

#[test]
fn reply_of_another_shape_is_treated_by_its_shape() {
    assert_eq!(
        resume(Pending::Contents, Reply::Text(String::from("text"))),
        Step::Done(Ok(String::from("text")))
    );
    assert_eq!(
        resume(Pending::Text, Reply::Names(strings(&["a", "b"]))),
        Step::Done(Ok(String::from("a\nb\n")))
    );
    assert_eq!(
        resume(Pending::Text, Reply::Content(None)),
        Step::Done(Err(QueryError::SectionNotFound))
    );
}

#[test]
fn operation_table_by_flag() {
    assert_eq!(qwiki::dispatch::operation(&String::from("")), Some(Operation::Summary));
    assert_eq!(qwiki::dispatch::operation(&String::from("s")), Some(Operation::Summary));
    assert_eq!(qwiki::dispatch::operation(&String::from("summary")), Some(Operation::Summary));
    assert_eq!(qwiki::dispatch::operation(&String::from("p")), Some(Operation::PageId));
    assert_eq!(qwiki::dispatch::operation(&String::from("pageid")), Some(Operation::PageId));
    assert_eq!(qwiki::dispatch::operation(&String::from("t")), Some(Operation::Contents));
    assert_eq!(qwiki::dispatch::operation(&String::from("toc")), Some(Operation::Contents));
    assert_eq!(qwiki::dispatch::operation(&String::from("r")), Some(Operation::References));
    assert_eq!(qwiki::dispatch::operation(&String::from("references")), Some(Operation::References));
    assert_eq!(qwiki::dispatch::operation(&String::from("c")), Some(Operation::Categories));
    assert_eq!(qwiki::dispatch::operation(&String::from("categories")), Some(Operation::Categories));
    assert_eq!(qwiki::dispatch::operation(&String::from("l")), Some(Operation::Link));
    assert_eq!(qwiki::dispatch::operation(&String::from("link")), Some(Operation::Link));
    assert_eq!(qwiki::dispatch::operation(&String::from("v")), Some(Operation::Version));
    assert_eq!(qwiki::dispatch::operation(&String::from("version")), Some(Operation::Version));
    assert_eq!(qwiki::dispatch::operation(&String::from("h")), Some(Operation::Help));
    assert_eq!(qwiki::dispatch::operation(&String::from("help")), Some(Operation::Help));
    assert_eq!(qwiki::dispatch::operation(&String::from("i")), None);
    assert_eq!(qwiki::dispatch::operation(&String::from("sp")), None);
}
