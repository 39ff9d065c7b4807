//! The texts that the program prints: the fixed ones, and the lists and the
//! link that are made of what the client returned.

use vstd::prelude::*;
use vstd::string::*;
use crate::error::QueryError;
use crate::text::push_char;

verus! {

/// The line that names this program and its version.
pub const VERSION_TEXT: &'static str = "qwiki version 0.1.0";

/// The usage text: every flag in its short and its long form, what it does and
/// what arguments it takes.
pub const HELP_TEXT: &'static str =
    "-s --summary: Gets the summary of the Wikipedia article specified by the argument provided. If two arguments are provided instead, gets the content of the section (specified by the second argument) from the article (specified by the first argument).This flag is used by default if no flags are provided.\n-t --toc: Lists all of the sections of the Wikipedia article specified by the argument provided.\n-r --references: Gets all of the references of the Wikipedia article specified by the argument provided.\n-c --categories: Gets all of the categories of the Wikipedia article specified by the argument provided.\n-l --link: Gets a link to the Wikipedia article specified by the argument provided.\n-p --pageid: Gets the pageid of the Wikipedia article specified by the argument provided.\n-v --version: Gets the version of qwiki. Takes no argument.\n-h --help: Shows this text. Takes no argument.";

/// The heading of a table of contents.
pub const CONTENTS_HEADING: &'static str = "Sections:\n";

/// What a link to an article starts with; the article's page id follows.
pub const LINK_PREFIX: &'static str = "http://en.wikipedia.org/?curid=";

/// The names one per line, each line closed by a line feed.
pub open spec fn lines(names: Seq<Seq<char>>) -> Seq<char> {
    names.flat_map(|name: Seq<char>| name.push('\n'))
}

/// The table of contents that lists the sections under its heading.
pub open spec fn contents(sections: Seq<Seq<char>>) -> Seq<char> {
    CONTENTS_HEADING@ + lines(sections)
}

/// The link to the article of the given page id.
pub open spec fn link_text(id: Seq<char>) -> Seq<char> {
    LINK_PREFIX@ + id
}

/// The version line. It needs no argument and no call on the client.
pub fn version() -> (text: Result<String, QueryError>)
    ensures
        text matches Ok(t) && t@ == VERSION_TEXT@,
{
    Ok(String::from_str(VERSION_TEXT))
}

/// The usage text. It needs no argument and no call on the client.
pub fn help() -> (text: Result<String, QueryError>)
    ensures
        text matches Ok(t) && t@ == HELP_TEXT@,
{
    Ok(String::from_str(HELP_TEXT))
}

/// Appends the names to `text`, one per line.
fn push_lines(text: &mut String, names: &Vec<String>)
    ensures
        final(text)@ == old(text)@ + lines(names.deep_view()),
{
    let ghost before = text@;
    let ghost all = names.deep_view();
    let ghost line = |name: Seq<char>| name.push('\n');
    let mut i: usize = 0;
    assert(all.take(0).flat_map(line) =~= Seq::<char>::empty());
    while i < names.len()
        invariant
            i <= names.len(),
            all == names.deep_view(),
            line == |name: Seq<char>| name.push('\n'),
            text@ == before + all.take(i as int).flat_map(line),
        decreases names.len() - i,
    {
        proof {
            all.lemma_flat_map_take_append(line, i as int);
        }
        text.append(names[i].as_str());
        push_char(text, '\n');
        assert(text@ =~= before + all.take(i + 1).flat_map(line));
        i += 1;
    }
    assert(all.take(names.len() as int) =~= all);
}

/// The names one per line.
pub fn lines_of(names: &Vec<String>) -> (text: String)
    ensures
        text@ == lines(names.deep_view()),
{
    let mut text = String::new();
    push_lines(&mut text, names);
    assert(text@ =~= lines(names.deep_view()));
    text
}

/// The table of contents of an article with the given sections.
pub fn contents_of(sections: &Vec<String>) -> (text: String)
    ensures
        text@ == contents(sections.deep_view()),
{
    let mut text = String::from_str(CONTENTS_HEADING);
    push_lines(&mut text, sections);
    text
}

/// The link to the article of the given page id.
pub fn link_to(id: &String) -> (text: String)
    ensures
        text@ == link_text(id@),
{
    let mut text = String::from_str(LINK_PREFIX);
    text.append(id.as_str());
    text
}

} // verus!
