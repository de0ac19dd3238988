//! The generator that takes groups from a bookmark document fetched
//! elsewhere and gives each of them its own command.

use crate::plugin::JustListAction;
use crate::serialization::{groups_content, GroupContent, Groups, ListGroup};
use vstd::prelude::*;

verus! {

/// The options of the bookmark generator.
pub struct Options {
    pub path: String,
    pub user: Option<String>,
    pub password: Option<String>,
    pub command_template: String,
}

/// The bookmark generator with what the fetch brought: the document, or
/// nothing where the fetch failed.
pub struct Bookmarks {
    pub fetched: Option<Groups>,
}

/// A group with `command` in place of its own command.
pub open spec fn stamped(group: GroupContent, command: Seq<char>) -> GroupContent {
    GroupContent {
        label: group.label,
        items: group.items,
        command_template: Some(command),
        is_terminal: group.is_terminal,
    }
}

/// The groups of a document, each with `command` as its command.
pub open spec fn stamped_all(groups: Seq<GroupContent>, command: Seq<char>) -> Seq<GroupContent> {
    Seq::new(groups.len(), |i: int| stamped(groups[i], command))
}

impl Options {
    /// The user and password to send: both, where both are given, else
    /// none.
    pub fn credentials(&self) -> (pair: Option<(&String, &String)>)
        ensures
            match pair {
                Some((user, password)) => self.user == Some(*user) && self.password == Some(
                    *password,
                ),
                None => self.user is None || self.password is None,
            },
    {
        match (&self.user, &self.password) {
            (Some(user), Some(password)) => Some((user, password)),
            _ => None,
        }
    }
}

impl Bookmarks {
    /// The fetched document with the command of the options on every
    /// group.
    pub fn process_response(response: &Groups, command: &str) -> (groups: Groups)
        ensures
            groups@ == stamped_all(response@, command@),
    {
        let mut groups: Vec<ListGroup> = Vec::new();
        let mut i: usize = 0;
        while i < response.groups.len()
            invariant
                i <= response.groups.len(),
                groups@.len() == i,
                forall|k: int|
                    0 <= k < i ==> (#[trigger] groups@[k])@ == stamped(
                        response.groups@[k]@,
                        command@,
                    ),
            decreases response.groups.len() - i,
        {
            let mut group = response.groups[i].duplicate();
            group.command_template = Some(command.to_owned());
            groups.push(group);
            i += 1;
        }
        assert(groups_content(groups@) =~= stamped_all(response@, command@));
        Groups { groups }
    }
}

impl JustListAction<Options> for Bookmarks {
    open spec fn ready(&self, options: &Options) -> bool {
        true
    }

    open spec fn added(&self, options: &Options) -> Seq<GroupContent> {
        match self.fetched {
            Some(response) => stamped_all(response@, options.command_template@),
            None => Seq::empty(),
        }
    }

    fn execute(&self, groups: &mut Groups, options: &Options) {
        match &self.fetched {
            Some(response) => {
                let mut received_groups = Bookmarks::process_response(
                    response,
                    options.command_template.as_str(),
                );
                groups.groups.append(&mut received_groups.groups);
                assert(groups@ =~= old(groups)@ + self.added(options));
            },
            None => {
                assert(groups@ =~= old(groups)@ + self.added(options));
            },
        }
    }
}

/// A failed fetch contributes nothing, so the document goes on as it came
/// in.
pub proof fn lemma_failed_fetch_passes_through(
    action: Bookmarks,
    options: Options,
    document: Seq<GroupContent>,
)
    requires
        action.fetched is None,
    ensures
        action.added(&options) == Seq::<GroupContent>::empty(),
        document + action.added(&options) == document,
{
    assert(document + action.added(&options) =~= document);
}

} // verus!
