//! The rules that every catalog generator follows: it takes the document
//! that came in, or the empty one, appends its own groups, and hands the
//! whole document on.

use crate::serialization::{GroupContent, Groups};
use vstd::prelude::*;

verus! {

/// A generator with its options.
pub struct JustListPlugin<TOptions> {
    pub options: TOptions,
}

/// What a generator does to the document.
pub trait JustListAction<TOptions> {
    /// Whether the action can run with these options.
    spec fn ready(&self, options: &TOptions) -> bool;

    /// The groups that the action contributes. They depend on the action and
    /// its options, never on the document that came in; an action that
    /// failed contributes none.
    spec fn added(&self, options: &TOptions) -> Seq<GroupContent>;

    /// Appends the action's groups to the document and leaves the groups
    /// that were there as they are.
    fn execute(&self, groups: &mut Groups, options: &TOptions)
        requires
            self.ready(options),
        ensures
            final(groups)@ == old(groups)@ + self.added(options),
    ;
}

/// What the document that came in says: nothing where none came in.
pub open spec fn document_of(input: Option<Groups>) -> Seq<GroupContent> {
    match input {
        Some(document) => document@,
        None => Seq::empty(),
    }
}

impl<TOptions> JustListPlugin<TOptions> {
    /// A generator with the given options.
    pub fn new(options: TOptions) -> (plugin: Self)
        ensures
            plugin.options == options,
    {
        Self { options }
    }

    /// Runs the action on the document that came in, or on the empty
    /// document where none did, and returns the document to hand on.
    pub fn main<TAction: JustListAction<TOptions>>(
        &self,
        action: &TAction,
        input: Option<Groups>,
    ) -> (output: Groups)
        requires
            action.ready(&self.options),
        ensures
            output@ == document_of(input) + action.added(&self.options),
    {
        let mut groups = match input {
            Some(document) => document,
            None => Groups::empty(),
        };
        action.execute(&mut groups, &self.options);
        groups
    }
}

/// A stage that contributes nothing hands the document on as it came in.
pub proof fn lemma_nothing_added_passes_through(
    document: Seq<GroupContent>,
    added: Seq<GroupContent>,
)
    requires
        added.len() == 0,
    ensures
        document + added == document,
{
    assert(document + added =~= document);
}

/// Two stages in a row: the second hands on everything that the first
/// handed on, group by group and in the same places, followed by its own
/// groups.
pub proof fn lemma_stages_add_up(
    document: Seq<GroupContent>,
    first: Seq<GroupContent>,
    second: Seq<GroupContent>,
)
    ensures
        ((document + first) + second).len() == document.len() + first.len() + second.len(),
        ((document + first) + second).subrange(0, (document + first).len() as int) == document
            + first,
        ((document + first) + second).subrange(
            (document + first).len() as int,
            ((document + first) + second).len() as int,
        ) == second,
        forall|i: int|
            0 <= i < document.len() ==> #[trigger] ((document + first) + second)[i] == document[i],
        forall|i: int|
            0 <= i < first.len() ==> #[trigger] ((document + first) + second)[document.len() + i]
                == first[i],
        (document + first) + second == document + (first + second),
{
    let mid = document + first;
    let all = mid + second;
    assert(all.subrange(0, mid.len() as int) =~= mid);
    assert(all.subrange(mid.len() as int, all.len() as int) =~= second);
    assert(all =~= document + (first + second));
}

} // verus!
