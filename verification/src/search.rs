//! The generator that lists the files and directories whose name or
//! extension contains a query.

use crate::paths::PathEntry;
use crate::plugin::JustListAction;
use crate::serialization::{
    items_content, lemma_items_content_push, GroupContent, Groups, ItemContent, ListGroup,
    SelectableItem,
};
use crate::text::{contains_str, is_substring};
use std::path::PathBuf;
use vstd::prelude::*;

verus! {

/// What a query is held against.
#[derive(Clone, Copy, Debug)]
pub struct QueryFlags {
    /// The names of files.
    pub names: bool,
    /// The names of directories.
    pub directories: bool,
    /// The extensions of files.
    pub extensions: bool,
}

/// The options of the search.
pub struct Options {
    pub query: String,
    pub command_template: String,
    pub query_flags: QueryFlags,
    pub verbose: bool,
    pub depth: u8,
    pub working_dir: Option<PathBuf>,
    pub title: Option<String>,
    pub is_terminal: bool,
}

/// The search over the paths that a walk has met.
pub struct Search {
    pub entries: Vec<PathEntry>,
}

/// Whether a path answers the query: a directory by its name where
/// directories are asked for, a file by its extension or its name where
/// those are asked for.
pub open spec fn matches_query(query: Seq<char>, entry: PathEntry, flags: QueryFlags) -> bool {
    ||| entry.is_dir && flags.directories && is_substring(query, entry.file_name@)
    ||| !entry.is_dir && flags.extensions && entry.extension is Some && is_substring(
        query,
        entry.extension->0@,
    )
    ||| !entry.is_dir && flags.names && is_substring(query, entry.file_name@)
}

/// The entries for the paths that answer the query, in the order of the
/// walk: the name as label, the path as parameter.
pub open spec fn found_items(entries: Seq<PathEntry>, query: Seq<char>, flags: QueryFlags) -> Seq<
    ItemContent,
>
    decreases entries.len(),
{
    if entries.len() == 0 {
        Seq::empty()
    } else {
        let before = found_items(entries.drop_last(), query, flags);
        if matches_query(query, entries.last(), flags) {
            before.push(
                ItemContent { label: entries.last().file_name@, param: entries.last().path@ },
            )
        } else {
            before
        }
    }
}

/// The title of the group: the one given, or `files`.
pub open spec fn group_title(title: Option<String>) -> Seq<char> {
    match title {
        Some(t) => t@,
        None => "files"@,
    }
}

/// A prefix that is one longer contains a character exactly when the
/// shorter prefix does or the added character is that one.
proof fn lemma_prefix_contains(s: Seq<char>, i: int, c: char)
    requires
        0 <= i < s.len(),
    ensures
        s.subrange(0, i + 1).contains(c) == (s.subrange(0, i).contains(c) || s[i] == c),
{
    let short = s.subrange(0, i);
    let long = s.subrange(0, i + 1);
    if short.contains(c) {
        let j = choose|j: int| 0 <= j < short.len() && short[j] == c;
        assert(long[j] == c);
    }
    if s[i] == c {
        assert(long[i] == c);
    }
    if long.contains(c) {
        let j = choose|j: int| 0 <= j < long.len() && long[j] == c;
        if j < i {
            assert(short[j] == c);
        }
    }
}

/// Reads the flags of a query: `n` for names, `d` for directories, `e` for
/// extensions; other characters say nothing. Without any character the
/// query is held against names.
pub fn parse_query_flags(s: &str) -> (flags: QueryFlags)
    ensures
        flags.names == (s@.len() == 0 || s@.contains('n')),
        flags.directories == s@.contains('d'),
        flags.extensions == s@.contains('e'),
{
    let n = s.unicode_len();
    let mut names = n == 0;
    let mut directories = false;
    let mut extensions = false;
    let mut i: usize = 0;
    while i < n
        invariant
            i <= n,
            n == s@.len(),
            names == (n == 0 || s@.subrange(0, i as int).contains('n')),
            directories == s@.subrange(0, i as int).contains('d'),
            extensions == s@.subrange(0, i as int).contains('e'),
        decreases n - i,
    {
        let c = s.get_char(i);
        proof {
            lemma_prefix_contains(s@, i as int, 'n');
            lemma_prefix_contains(s@, i as int, 'd');
            lemma_prefix_contains(s@, i as int, 'e');
        }
        if c == 'n' {
            names = true;
        } else if c == 'd' {
            directories = true;
        } else if c == 'e' {
            extensions = true;
        }
        i += 1;
    }
    assert(s@.subrange(0, i as int) =~= s@);
    QueryFlags { names, directories, extensions }
}

/// Whether a path answers the query under the given flags.
pub fn is_match(query: &str, entry: &PathEntry, query_flags: &QueryFlags) -> (result: bool)
    ensures
        result == matches_query(query@, *entry, *query_flags),
{
    let is_dir = entry.is_dir;
    let mut result = false;
    let file_name = entry.file_name.as_str();
    if is_dir && query_flags.directories {
        result = result || contains_str(file_name, query);
    }
    if query_flags.extensions && !is_dir {
        if let Some(extension) = &entry.extension {
            result = result || contains_str(extension.as_str(), query);
        }
    }
    if query_flags.names && !is_dir {
        result = result || contains_str(file_name, query);
    }
    result
}

impl Options {
    /// The directory to search: the one given, or `default`.
    pub fn get_working_dir_or<'b, 'a: 'b>(&'a self, default: &'b PathBuf) -> (dir: &'b PathBuf)
        ensures
            *dir == match self.working_dir {
                Some(given) => given,
                None => *default,
            },
    {
        match &self.working_dir {
            Some(given) => given,
            None => default,
        }
    }
}

impl Search {
    /// The group of the paths that answer the query, with the command and
    /// the terminal flag of the options.
    pub fn group(&self, options: &Options) -> (group: ListGroup)
        ensures
            group@ == self.found(options),
    {
        let label = match &options.title {
            Some(title) => title.clone(),
            None => "files".to_owned(),
        };
        let mut items: Vec<SelectableItem> = Vec::new();
        let mut i: usize = 0;
        while i < self.entries.len()
            invariant
                i <= self.entries.len(),
                items_content(items@) == found_items(
                    self.entries@.subrange(0, i as int),
                    options.query@,
                    options.query_flags,
                ),
            decreases self.entries.len() - i,
        {
            let entry = &self.entries[i];
            proof {
                let next = self.entries@.subrange(0, i + 1);
                assert(next.drop_last() =~= self.entries@.subrange(0, i as int));
                assert(next.last() == self.entries@[i as int]);
            }
            if is_match(options.query.as_str(), entry, &options.query_flags) {
                let item = SelectableItem {
                    label: entry.file_name.clone(),
                    param: entry.path.clone(),
                };
                proof {
                    lemma_items_content_push(items@, item);
                }
                items.push(item);
            }
            i += 1;
        }
        assert(self.entries@.subrange(0, i as int) =~= self.entries@);
        ListGroup {
            label,
            items,
            command_template: Some(options.command_template.clone()),
            is_terminal: Some(options.is_terminal),
        }
    }

    /// What the search finds: one group, titled as the options say, of the
    /// paths that answer the query.
    pub open spec fn found(&self, options: &Options) -> GroupContent {
        GroupContent {
            label: group_title(options.title),
            items: found_items(self.entries@, options.query@, options.query_flags),
            command_template: Some(options.command_template@),
            is_terminal: Some(options.is_terminal),
        }
    }
}

impl JustListAction<Options> for Search {
    open spec fn ready(&self, options: &Options) -> bool {
        true
    }

    open spec fn added(&self, options: &Options) -> Seq<GroupContent> {
        seq![self.found(options)]
    }

    fn execute(&self, groups: &mut Groups, options: &Options) {
        let group = self.group(options);
        groups.push_group(group);
        assert(groups@ =~= old(groups)@ + seq![self.found(options)]);
    }
}

} // verus!
