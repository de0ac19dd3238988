//! The catalog document that generators exchange and the picker loads.

use vstd::prelude::*;

verus! {

/// One selectable entry of the document.
pub struct SelectableItem {
    pub label: String,
    pub param: String,
}

/// A named collection of entries with the command they launch.
pub struct ListGroup {
    pub label: String,
    pub items: Vec<SelectableItem>,
    pub command_template: Option<String>,
    pub is_terminal: Option<bool>,
}

/// The whole document.
pub struct Groups {
    pub groups: Vec<ListGroup>,
}

/// What an entry says.
pub struct ItemContent {
    pub label: Seq<char>,
    pub param: Seq<char>,
}

/// What a group says.
pub struct GroupContent {
    pub label: Seq<char>,
    pub items: Seq<ItemContent>,
    pub command_template: Option<Seq<char>>,
    pub is_terminal: Option<bool>,
}

/// The text of an optional string.
pub open spec fn text_of(value: Option<String>) -> Option<Seq<char>> {
    match value {
        Some(s) => Some(s@),
        None => None,
    }
}

/// What a list of entries says, in order.
pub open spec fn items_content(items: Seq<SelectableItem>) -> Seq<ItemContent> {
    Seq::new(items.len(), |i: int| items[i]@)
}

/// What a list of groups says, in order.
pub open spec fn groups_content(groups: Seq<ListGroup>) -> Seq<GroupContent> {
    Seq::new(groups.len(), |i: int| groups[i]@)
}

impl View for SelectableItem {
    type V = ItemContent;

    open spec fn view(&self) -> ItemContent {
        ItemContent { label: self.label@, param: self.param@ }
    }
}

impl View for ListGroup {
    type V = GroupContent;

    open spec fn view(&self) -> GroupContent {
        GroupContent {
            label: self.label@,
            items: items_content(self.items@),
            command_template: text_of(self.command_template),
            is_terminal: self.is_terminal,
        }
    }
}

impl View for Groups {
    type V = Seq<GroupContent>;

    open spec fn view(&self) -> Seq<GroupContent> {
        groups_content(self.groups@)
    }
}

/// Appending an entry appends what it says.
pub proof fn lemma_items_content_push(items: Seq<SelectableItem>, item: SelectableItem)
    ensures
        items_content(items.push(item)) == items_content(items).push(item@),
{
    assert(items_content(items.push(item)) =~= items_content(items).push(item@));
}

/// A copy of an optional string.
pub fn copy_text(value: &Option<String>) -> (copy: Option<String>)
    ensures
        copy == *value,
{
    match value {
        Some(s) => Some(s.clone()),
        None => None,
    }
}

impl SelectableItem {
    /// A copy that says the same.
    pub fn duplicate(&self) -> (copy: SelectableItem)
        ensures
            copy@ == self@,
    {
        SelectableItem { label: self.label.clone(), param: self.param.clone() }
    }
}

impl ListGroup {
    /// A copy that says the same.
    pub fn duplicate(&self) -> (copy: ListGroup)
        ensures
            copy@ == self@,
    {
        let mut items: Vec<SelectableItem> = Vec::new();
        let mut i: usize = 0;
        while i < self.items.len()
            invariant
                i <= self.items.len(),
                items.len() == i,
                forall|j: int| 0 <= j < i ==> (#[trigger] items[j])@ == self.items[j]@,
            decreases self.items.len() - i,
        {
            items.push(self.items[i].duplicate());
            i += 1;
        }
        assert(items_content(items@) =~= items_content(self.items@));
        ListGroup {
            label: self.label.clone(),
            items,
            command_template: copy_text(&self.command_template),
            is_terminal: self.is_terminal,
        }
    }
}

impl Groups {
    /// The document without any group.
    pub fn empty() -> (doc: Groups)
        ensures
            doc@ == Seq::<GroupContent>::empty(),
    {
        let doc = Groups { groups: Vec::new() };
        assert(doc@ =~= Seq::<GroupContent>::empty());
        doc
    }

    /// Appends one group; the groups already present stay as they are.
    pub fn push_group(&mut self, group: ListGroup)
        ensures
            final(self)@ == old(self)@.push(group@),
            final(self).groups@ == old(self).groups@.push(group),
    {
        self.groups.push(group);
        assert(self@ =~= old(self)@.push(group@));
    }
}

} // verus!
