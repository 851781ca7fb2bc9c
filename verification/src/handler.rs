//! What a line that was entered as a command does, and how the entries of
//! a directory become the names that the list shows.

use vstd::prelude::*;
use vstd::string::*;

use crate::app::{name_view, App};
use crate::enums::InputStrategy;
use crate::protocol::{names_view, Command};
use crate::text::{first_token, string_push};

verus! {

/// Reads the line `input` as the strategy says. A command and a search are
/// read alike: the line is split at its spaces, `q` as the first word leaves
/// the program, and every other first word is answered with a notification.
/// The answer to a prompt is not read here and changes nothing.
pub fn event_handler(input_strategy: InputStrategy, input: String, app: &mut App) -> (command:
    Command)
    ensures
        final(app)@ == old(app)@.event_handler(input_strategy, input@).state,
        command@ == old(app)@.event_handler(input_strategy, input@).command,
        old(app)@.wf() ==> final(app)@.wf(),
{
    proof {
        if app@.wf() {
            crate::model::lemma_transitions_preserve_wf(app@);
        }
    }
    if input_strategy == InputStrategy::Command || input_strategy == InputStrategy::Search {
        let first = first_token(input.as_str());
        if first == String::from_str("q") {
            Command::Exit
        } else {
            app.show_popup(String::from_str("Command not found"));
            Command::Continue
        }
    } else {
        Command::Continue
    }
}

/// One entry of a directory, as the file system reports it.
#[derive(Debug)]
pub struct DirEntry {
    /// The path of the entry, the directory's own path included.
    pub path: String,
    /// Whether the entry is a file rather than a directory.
    pub is_file: bool,
}

/// The paths and kinds of the entries.
pub open spec fn entries_view(entries: Seq<DirEntry>) -> Seq<(Seq<char>, bool)> {
    entries.map_values(|entry: DirEntry| (entry.path@, entry.is_file))
}

/// `text` without its slashes.
pub open spec fn spec_without_slashes(text: Seq<char>) -> Seq<char>
    decreases text.len(),
{
    if text.len() == 0 {
        Seq::empty()
    } else if text.last() == '/' {
        spec_without_slashes(text.drop_last())
    } else {
        spec_without_slashes(text.drop_last()).push(text.last())
    }
}

/// The name of the entry at `path` of the directory at `directory`: what
/// follows the directory's path, without slashes. A path that does not begin
/// with the directory's has no name in it.
pub open spec fn spec_entry_name(path: Seq<char>, directory: Seq<char>) -> Option<Seq<char>> {
    if directory.len() <= path.len() && path.take(directory.len() as int) == directory {
        Some(spec_without_slashes(path.skip(directory.len() as int)))
    } else {
        None
    }
}

/// The names of those entries of the directory that are files, or of those
/// that are not, in the order of the entries.
pub open spec fn spec_entry_names(
    directory: Seq<char>,
    entries: Seq<(Seq<char>, bool)>,
    files: bool,
) -> Seq<Seq<char>>
    decreases entries.len(),
{
    if entries.len() == 0 {
        Seq::empty()
    } else {
        let front = spec_entry_names(directory, entries.drop_last(), files);
        let last = entries.last();
        if last.1 == files && spec_entry_name(last.0, directory) is Some {
            front.push(spec_entry_name(last.0, directory)->0)
        } else {
            front
        }
    }
}

/// `text` without its slashes.
pub fn without_slashes(text: &str) -> (stripped: String)
    ensures
        stripped@ == spec_without_slashes(text@),
{
    let mut stripped = String::new();
    for c in iter: text.chars()
        invariant
            iter.seq() == text@,
            stripped@ == spec_without_slashes(text@.take(iter.index() as int)),
    {
        proof {
            let upto = text@.take(iter.index() + 1);
            assert(upto.drop_last() =~= text@.take(iter.index() as int));
            assert(upto.last() == c);
        }
        if c != '/' {
            string_push(&mut stripped, c);
        }
    }
    assert(text@.take(text@.len() as int) =~= text@);
    stripped
}

/// The name of the entry at `path` of the directory at `directory`.
pub fn entry_name(path: &str, directory: &str) -> (name: Option<String>)
    ensures
        name_view(name) == spec_entry_name(path@, directory@),
{
    let path_len: usize = path.unicode_len();
    let directory_len: usize = directory.unicode_len();
    if directory_len > path_len {
        return None;
    }
    let front = String::from_str(path.substring_char(0, directory_len));
    if front == String::from_str(directory) {
        Some(without_slashes(path.substring_char(directory_len, path_len)))
    } else {
        None
    }
}

/// The names of those entries of the directory that are files, or of those
/// that are not, in the order of the entries.
fn entry_names(directory: &str, entries: &Vec<DirEntry>, files: bool) -> (names: Vec<String>)
    ensures
        names_view(names@) == spec_entry_names(directory@, entries_view(entries@), files),
{
    let mut names: Vec<String> = Vec::new();
    let mut at: usize = 0;
    while at < entries.len()
        invariant
            at <= entries.len(),
            names_view(names@) == spec_entry_names(
                directory@,
                entries_view(entries@).take(at as int),
                files,
            ),
        decreases entries.len() - at,
    {
        proof {
            let upto = entries_view(entries@).take(at + 1);
            assert(upto.drop_last() =~= entries_view(entries@).take(at as int));
            assert(upto.last() == (entries@[at as int].path@, entries@[at as int].is_file));
        }
        if entries[at].is_file == files {
            match entry_name(entries[at].path.as_str(), directory) {
                Some(name) => {
                    assert(names_view(names@.push(name)) =~= names_view(names@).push(name@));
                    names.push(name);
                },
                None => {},
            }
        }
        at = at + 1;
    }
    assert(entries_view(entries@).take(at as int) =~= entries_view(entries@));
    names
}

/// The names of the collections: those entries of the directory at `root`
/// that are not files.
pub fn list_collections(root: &str, entries: &Vec<DirEntry>) -> (names: Vec<String>)
    ensures
        names_view(names@) == spec_entry_names(root@, entries_view(entries@), false),
{
    entry_names(root, entries, false)
}

/// The names of the requests of a collection: those entries of the
/// collection's directory at `directory` that are files.
pub fn list_collection_children(directory: &str, entries: &Vec<DirEntry>) -> (names: Vec<String>)
    ensures
        names_view(names@) == spec_entry_names(directory@, entries_view(entries@), true),
{
    entry_names(directory, entries, true)
}

} // verus!
