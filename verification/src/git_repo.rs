//! The generator that lists git repositories: the directories named
//! `.git`, each under the name of the directory that holds it.

use crate::paths::PathEntry;
use crate::plugin::JustListAction;
use crate::serialization::{
    items_content, lemma_items_content_push, GroupContent, Groups, ItemContent, ListGroup,
    SelectableItem,
};
use crate::text::{ends_with_str, is_suffix};
use std::path::PathBuf;
use vstd::prelude::*;

verus! {

/// The options of the repository search.
pub struct Options {
    pub command_template: String,
    pub depth: u8,
    pub working_dir: Option<PathBuf>,
    pub verbose: bool,
    pub is_terminal: bool,
}

/// The repository search over the paths that a walk has met.
pub struct SearchGitRepos {
    pub entries: Vec<PathEntry>,
}

/// A path marks a repository when it is a directory whose name ends in
/// `.git`.
pub open spec fn marks_repo(entry: PathEntry) -> bool {
    entry.is_dir && is_suffix(".git"@, entry.file_name@)
}

/// The entries for the repositories among the paths, in the order of the
/// walk: the name of the holding directory as label, the path as parameter.
/// A path without a parent gives no entry.
pub open spec fn repo_items(entries: Seq<PathEntry>) -> Seq<ItemContent>
    decreases entries.len(),
{
    if entries.len() == 0 {
        Seq::empty()
    } else {
        let before = repo_items(entries.drop_last());
        let entry = entries.last();
        if marks_repo(entry) && entry.parent_name is Some {
            before.push(ItemContent { label: entry.parent_name->0@, param: entry.path@ })
        } else {
            before
        }
    }
}

/// Whether a path marks a git repository.
pub fn is_git_repo(entry: &PathEntry) -> (result: bool)
    ensures
        result == marks_repo(*entry),
{
    entry.is_dir && ends_with_str(entry.file_name.as_str(), ".git")
}

impl SearchGitRepos {
    /// What the search finds: one group named `git repos` of the
    /// repositories among the paths.
    pub open spec fn found(&self, options: &Options) -> GroupContent {
        GroupContent {
            label: "git repos"@,
            items: repo_items(self.entries@),
            command_template: Some(options.command_template@),
            is_terminal: Some(options.is_terminal),
        }
    }

    /// The group of the repositories among the paths, with the command and
    /// the terminal flag of the options.
    pub fn group(&self, options: &Options) -> (group: ListGroup)
        ensures
            group@ == self.found(options),
    {
        let mut items: Vec<SelectableItem> = Vec::new();
        let mut i: usize = 0;
        while i < self.entries.len()
            invariant
                i <= self.entries.len(),
                items_content(items@) == repo_items(self.entries@.subrange(0, i as int)),
            decreases self.entries.len() - i,
        {
            let entry = &self.entries[i];
            proof {
                let next = self.entries@.subrange(0, i + 1);
                assert(next.drop_last() =~= self.entries@.subrange(0, i as int));
                assert(next.last() == self.entries@[i as int]);
            }
            if is_git_repo(entry) {
                if let Some(dir_name) = &entry.parent_name {
                    let item = SelectableItem {
                        label: dir_name.clone(),
                        param: entry.path.clone(),
                    };
                    proof {
                        lemma_items_content_push(items@, item);
                    }
                    items.push(item);
                }
            }
            i += 1;
        }
        assert(self.entries@.subrange(0, i as int) =~= self.entries@);
        ListGroup {
            label: "git repos".to_owned(),
            items,
            command_template: Some(options.command_template.clone()),
            is_terminal: Some(options.is_terminal),
        }
    }
}

impl JustListAction<Options> for SearchGitRepos {
    open spec fn ready(&self, options: &Options) -> bool {
        true
    }

    open spec fn added(&self, options: &Options) -> Seq<GroupContent> {
        seq![self.found(options)]
    }

    fn execute(&self, groups: &mut Groups, options: &Options) {
        let group = self.group(options);
        groups.push_group(group);
        assert(groups@ =~= old(groups)@ + seq![self.found(options)]);
    }
}

} // verus!
