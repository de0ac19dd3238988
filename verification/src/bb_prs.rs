//! The generator that lists the pull requests that a service reported.

use crate::bb_prs::model::{PullRequest, Response};
use crate::plugin::JustListAction;
use crate::serialization::{
    items_content, GroupContent, Groups, ItemContent, ListGroup, SelectableItem,
};
use vstd::prelude::*;

pub mod model;

verus! {

/// The options of the pull request generator.
pub struct Options {
    pub url: String,
    pub token: String,
    pub command_template: String,
}

/// The pull request generator with what the fetch brought: the answer of
/// the service, or nothing where the fetch failed.
pub struct ListPullRequests {
    pub fetched: Option<Response>,
}

/// The label of a pull request: its state in square brackets, a space, and
/// its title.
pub open spec fn pr_label(state: Seq<char>, title: Seq<char>) -> Seq<char> {
    "["@ + state + "] "@ + title
}

/// The entry of a pull request: its label, and the link to its page as
/// parameter.
pub open spec fn pr_item(pull_request: PullRequest) -> ItemContent {
    ItemContent {
        label: pr_label(pull_request.state@, pull_request.title@),
        param: pull_request.links.selfs@[0].href@,
    }
}

/// The group of the pull requests of an answer: named `PR`, one entry for
/// each in the order of the answer, launched by `command` outside the
/// current terminal.
pub open spec fn pr_group(response: Response, command: Seq<char>) -> GroupContent {
    GroupContent {
        label: "PR"@,
        items: Seq::new(response.values@.len(), |i: int| pr_item(response.values@[i])),
        command_template: Some(command),
        is_terminal: Some(false),
    }
}

/// Writes the label of a pull request.
pub fn label_of(state: &str, title: &str) -> (label: String)
    ensures
        label@ == pr_label(state@, title@),
{
    let mut label = "[".to_owned();
    label.append(state);
    label.append("] ");
    label.append(title);
    label
}

impl ListPullRequests {
    /// The group of the pull requests of an answer.
    pub fn process_response(response: &Response, command: &str) -> (group: ListGroup)
        requires
            response.linked(),
        ensures
            group@ == pr_group(*response, command@),
    {
        let mut items: Vec<SelectableItem> = Vec::new();
        let mut i: usize = 0;
        while i < response.values.len()
            invariant
                i <= response.values.len(),
                response.linked(),
                items@.len() == i,
                forall|k: int|
                    0 <= k < i ==> (#[trigger] items@[k])@ == pr_item(response.values@[k]),
            decreases response.values.len() - i,
        {
            let pull_request = &response.values[i];
            let label = label_of(pull_request.state.as_str(), pull_request.title.as_str());
            items.push(SelectableItem { label, param: pull_request.link().to_owned() });
            i += 1;
        }
        assert(items_content(items@) =~= pr_group(*response, command@).items);
        ListGroup {
            label: "PR".to_owned(),
            items,
            command_template: Some(command.to_owned()),
            is_terminal: Some(false),
        }
    }
}

impl JustListAction<Options> for ListPullRequests {
    open spec fn ready(&self, options: &Options) -> bool {
        match self.fetched {
            Some(response) => response.linked(),
            None => true,
        }
    }

    open spec fn added(&self, options: &Options) -> Seq<GroupContent> {
        match self.fetched {
            Some(response) => seq![pr_group(response, options.command_template@)],
            None => Seq::empty(),
        }
    }

    fn execute(&self, groups: &mut Groups, options: &Options) {
        match &self.fetched {
            Some(response) => {
                let prs_group = ListPullRequests::process_response(
                    response,
                    options.command_template.as_str(),
                );
                groups.push_group(prs_group);
                assert(groups@ =~= old(groups)@ + self.added(options));
            },
            None => {
                assert(groups@ =~= old(groups)@ + self.added(options));
            },
        }
    }
}

/// A failed fetch contributes nothing, so the document goes on as it came
/// in.
pub proof fn lemma_failed_fetch_passes_through(
    action: ListPullRequests,
    options: Options,
    document: Seq<GroupContent>,
)
    requires
        action.fetched is None,
    ensures
        action.added(&options) == Seq::<GroupContent>::empty(),
        document + action.added(&options) == document,
{
    assert(document + action.added(&options) =~= document);
}

} // verus!
