//! The selection state: which group is active, where the cursor stands in
//! each group, and the filter text, with the map from visible positions to
//! positions in the active group.

use crate::domain::GroupModel;
use crate::filter::{filter, lemma_visible_exact, visible_indices};
use crate::stateful::{cycle_next, cycle_prev, ListState, StatefulList};
use crate::text::{clear_text, pop_char, push_char};
use std::collections::HashMap;
use vstd::prelude::*;

verus! {

broadcast use vstd::std_specs::hash::group_hash_axioms;

/// The selection state of the picker.
pub struct State {
    pub lists: Vec<StatefulList>,
    pub groups: StatefulList,
    pub index_map: HashMap<usize, usize>,
    pub input: String,
    pub input_changed: bool,
}

/// The map that sends each visible position to the position it stands for.
pub open spec fn index_map_of(local_to_global: Seq<usize>) -> Map<usize, usize> {
    Map::new(|k: usize| k < local_to_global.len(), |k: usize| local_to_global[k as int])
}

impl State {
    /// The filter text.
    pub open spec fn filter_text(&self) -> Seq<char> {
        self.input@
    }

    /// Whether the filter text was edited since the cursor was last evaluated.
    pub open spec fn dirty(&self) -> bool {
        self.input_changed
    }

    /// The map from visible positions to positions in the active group.
    pub open spec fn index_map(&self) -> Map<usize, usize> {
        self.index_map@
    }

    /// The state has one cursor for each group of the catalog, and its
    /// active group is one of them.
    pub open spec fn fits(&self, groups: Seq<GroupModel>) -> bool {
        &&& self.lists@.len() == groups.len()
        &&& self.groups.len == groups.len()
        &&& self.groups.wf()
    }

    /// The index of the active group.
    pub open spec fn active(&self) -> int {
        self.groups.state.selected->0 as int
    }

    /// The positions in group `g` that the filter text leaves visible.
    pub open spec fn visible_in(&self, groups: Seq<GroupModel>, g: int) -> Seq<usize> {
        visible_indices(groups[g].items@, self.filter_text())
    }

    /// The cursor of group `g` as its next evaluation finds it: the first
    /// visible position where the filter text was edited or the recorded
    /// position is no visible one, else the recorded position.
    pub open spec fn cursor_in(&self, groups: Seq<GroupModel>, g: int) -> usize {
        match self.lists@[g].state.selected {
            Some(i) => if self.dirty() || i >= self.visible_in(groups, g).len() {
                0
            } else {
                i
            },
            None => 0,
        }
    }

    /// `post` is `pre` with `picker` as its group cursor and with the cursor
    /// of the group that `picker` selects evaluated to `cursor`: that group's
    /// list ranges over its visible entries, the index map is the one of
    /// those entries, and the filter text is no longer marked as edited.
    pub open spec fn evaluated(
        post: State,
        pre: State,
        groups: Seq<GroupModel>,
        picker: StatefulList,
        cursor: usize,
    ) -> bool {
        &&& post.groups == picker
        &&& post.filter_text() == pre.filter_text()
        &&& !post.dirty()
        &&& if groups.len() == 0 {
            post.lists@ == pre.lists@ && post.index_map() == Map::<usize, usize>::empty()
        } else {
            let g = picker.state.selected->0 as int;
            &&& post.lists@ == pre.lists@.update(
                g,
                StatefulList {
                    state: ListState { selected: Some(cursor) },
                    len: pre.visible_in(groups, g).len() as usize,
                },
            )
            &&& post.index_map() == index_map_of(pre.visible_in(groups, g))
        }
    }

    /// `post` is `pre` after a move to the group that `picker` selects: the
    /// cursor of the group that was active is evaluated, then the one of
    /// the group that is active now, which keeps its recorded position
    /// where that is a visible one; the index map is the one of the visible
    /// entries of the group that is active now.
    pub open spec fn switched(
        post: State,
        pre: State,
        groups: Seq<GroupModel>,
        picker: StatefulList,
    ) -> bool {
        &&& post.groups == picker
        &&& post.filter_text() == pre.filter_text()
        &&& !post.dirty()
        &&& if groups.len() == 0 {
            post.lists@ == pre.lists@ && post.index_map() == Map::<usize, usize>::empty()
        } else {
            let from = pre.active();
            let to = picker.state.selected->0 as int;
            let settled = pre.lists@.update(
                from,
                StatefulList {
                    state: ListState { selected: Some(pre.cursor_in(groups, from)) },
                    len: pre.visible_in(groups, from).len() as usize,
                },
            );
            let count = pre.visible_in(groups, to).len();
            let cursor: usize = match settled[to].state.selected {
                Some(i) => if i >= count {
                    0
                } else {
                    i
                },
                None => 0,
            };
            &&& post.lists@ == settled.update(
                to,
                StatefulList { state: ListState { selected: Some(cursor) }, len: count as usize },
            )
            &&& post.index_map() == index_map_of(pre.visible_in(groups, to))
        }
    }

    /// `post` is `pre` after an edit that left `text` as the filter text:
    /// the edit is recorded and nothing else has changed.
    pub open spec fn edited(post: State, pre: State, text: Seq<char>) -> bool {
        &&& post.filter_text() == text
        &&& post.dirty()
        &&& post.lists == pre.lists
        &&& post.groups == pre.groups
        &&& post.index_map() == pre.index_map()
    }

    /// The initial state for a catalog: the first group is active, every
    /// cursor stands on the first entry, and the filter text is empty.
    pub fn new(items: &Vec<GroupModel>) -> (state: State)
        ensures
            state.fits(items@),
            state.groups.state.selected == Some(0usize),
            forall|g: int|
                0 <= g < items@.len() ==> (#[trigger] state.lists@[g]).state.selected == Some(
                    0usize,
                ) && state.lists@[g].len == items@[g].items@.len(),
            state.filter_text() == Seq::<char>::empty(),
            !state.dirty(),
            state.index_map() == Map::<usize, usize>::empty(),
    {
        let mut lists: Vec<StatefulList> = Vec::new();
        let mut g: usize = 0;
        while g < items.len()
            invariant
                g <= items.len(),
                lists@.len() == g,
                forall|k: int|
                    0 <= k < g ==> (#[trigger] lists@[k]).state.selected == Some(0usize)
                        && lists@[k].len == items@[k].items@.len(),
            decreases items.len() - g,
        {
            lists.push(StatefulList::from(&items[g].items));
            g += 1;
        }
        State {
            lists,
            groups: StatefulList::from(items),
            index_map: HashMap::new(),
            input: String::new(),
            input_changed: false,
        }
    }

    /// Whether the state has one cursor for each group of the catalog and
    /// an active group among them.
    pub fn is_fit(&self, groups: &Vec<GroupModel>) -> (fit: bool)
        ensures
            fit == self.fits(groups@),
    {
        let active = match self.groups.state.selected() {
            Some(i) => i < self.groups.len || (self.groups.len == 0 && i == 0),
            None => false,
        };
        self.lists.len() == groups.len() && self.groups.len == groups.len() && active
    }

    /// Evaluates the cursor of the active group against the current filter
    /// text and rebuilds the index map for it.
    pub fn refresh(&mut self, groups: &Vec<GroupModel>)
        requires
            old(self).fits(groups@),
        ensures
            final(self).fits(groups@),
            State::evaluated(
                *final(self),
                *old(self),
                groups@,
                old(self).groups,
                old(self).cursor_in(groups@, old(self).active()),
            ),
    {
        let changed = self.was_input_changed();
        self.reset();
        if groups.len() == 0 {
            return ;
        }
        let g = self.get_selected_group();
        let found = filter(&groups[g], self.input.as_str());
        let count = found.local_to_global.len();
        let ghost pre = *self;
        let mut local: usize = 0;
        while local < count
            invariant
                local <= count,
                count == found.local_to_global@.len(),
                self.index_map@ == index_map_of(found.local_to_global@.subrange(0, local as int)),
                self.lists == pre.lists,
                self.groups == pre.groups,
                self.input@ == pre.input@,
                self.input_changed == pre.input_changed,
            decreases count - local,
        {
            self.map_index(found.local_to_global[local], local);
            local += 1;
            assert(self.index_map@ =~= index_map_of(
                found.local_to_global@.subrange(0, local as int),
            ));
        }
        assert(found.local_to_global@.subrange(0, local as int) =~= found.local_to_global@);
        let cursor: usize = match self.lists[g].state.selected() {
            Some(i) => if changed || i >= count {
                0
            } else {
                i
            },
            None => 0,
        };
        self.lists.set(g, StatefulList::at(cursor, count));
    }

    /// Moves the cursor of the active group one step forward through its
    /// visible entries, from the last to the first. Without a visible entry
    /// the cursor stays.
    pub fn select_item_next(&mut self, groups: &Vec<GroupModel>)
        requires
            old(self).fits(groups@),
        ensures
            final(self).fits(groups@),
            State::evaluated(
                *final(self),
                *old(self),
                groups@,
                old(self).groups,
                cycle_next(
                    old(self).cursor_in(groups@, old(self).active()),
                    old(self).visible_in(groups@, old(self).active()).len() as usize,
                ),
            ),
    {
        self.refresh(groups);
        if groups.len() == 0 {
            return ;
        }
        let g = self.get_selected_group();
        let ghost mid = self.lists@;
        let mut list = self.lists[g];
        list.next();
        self.lists.set(g, list);
        assert(self.lists@ =~= old(self).lists@.update(g as int, list));
    }

    /// Moves the cursor of the active group one step backward through its
    /// visible entries, from the first to the last. Without a visible entry
    /// the cursor stays.
    pub fn select_item_prev(&mut self, groups: &Vec<GroupModel>)
        requires
            old(self).fits(groups@),
        ensures
            final(self).fits(groups@),
            State::evaluated(
                *final(self),
                *old(self),
                groups@,
                old(self).groups,
                cycle_prev(
                    old(self).cursor_in(groups@, old(self).active()),
                    old(self).visible_in(groups@, old(self).active()).len() as usize,
                ),
            ),
    {
        self.refresh(groups);
        if groups.len() == 0 {
            return ;
        }
        let g = self.get_selected_group();
        let mut list = self.lists[g];
        list.previous();
        self.lists.set(g, list);
        assert(self.lists@ =~= old(self).lists@.update(g as int, list));
    }

    /// Makes the next group active, the first after the last. The cursor of
    /// the group that was active is evaluated first, then the one of the
    /// group that becomes active. The filter text stays. Without groups
    /// nothing moves.
    pub fn select_group_next(&mut self, groups: &Vec<GroupModel>)
        requires
            old(self).fits(groups@),
        ensures
            final(self).fits(groups@),
            State::switched(*final(self), *old(self), groups@, old(self).groups.after_next()),
    {
        self.refresh(groups);
        self.groups.next();
        self.refresh(groups);
    }

    /// Makes the previous group active, the last before the first. The
    /// cursor of the group that was active is evaluated first, then the one
    /// of the group that becomes active. The filter text stays. Without
    /// groups nothing moves.
    pub fn select_group_prev(&mut self, groups: &Vec<GroupModel>)
        requires
            old(self).fits(groups@),
        ensures
            final(self).fits(groups@),
            State::switched(*final(self), *old(self), groups@, old(self).groups.after_previous()),
    {
        self.refresh(groups);
        self.groups.previous();
        self.refresh(groups);
    }

    /// The index of the active group.
    pub fn get_selected_group(&self) -> (g: usize)
        requires
            self.groups.state.selected is Some,
        ensures
            g == self.active(),
    {
        self.groups.get_selected()
    }

    /// Appends a character to the filter text.
    pub fn handle_char(&mut self, c: char)
        ensures
            State::edited(*final(self), *old(self), old(self).filter_text().push(c)),
    {
        push_char(&mut self.input, c);
        self.input_changed = true;
    }

    /// The filter text.
    pub fn dump_input(&self) -> (text: &str)
        ensures
            text@ == self.filter_text(),
    {
        self.input.as_str()
    }

    /// Removes the last character of the filter text, if there is one.
    pub fn handle_backspace(&mut self)
        ensures
            State::edited(
                *final(self),
                *old(self),
                if old(self).filter_text().len() > 0 {
                    old(self).filter_text().drop_last()
                } else {
                    old(self).filter_text()
                },
            ),
    {
        let _ = pop_char(&mut self.input);
        self.input_changed = true;
    }

    /// Empties the filter text.
    pub fn handle_escape(&mut self)
        ensures
            State::edited(*final(self), *old(self), Seq::<char>::empty()),
    {
        clear_text(&mut self.input);
        self.input_changed = true;
    }

    /// Whether the filter text was edited since the cursor was last evaluated.
    pub fn was_input_changed(&self) -> (changed: bool)
        ensures
            changed == self.dirty(),
    {
        self.input_changed
    }

    /// Forgets that the filter text was edited, and empties the index map.
    pub fn reset(&mut self)
        ensures
            !final(self).dirty(),
            final(self).index_map() == Map::<usize, usize>::empty(),
            final(self).filter_text() == old(self).filter_text(),
            final(self).lists == old(self).lists,
            final(self).groups == old(self).groups,
    {
        self.input_changed = false;
        self.index_map.clear();
    }

    /// Records that the visible position `index_local` stands for the
    /// position `index_global` of the active group.
    pub fn map_index(&mut self, index_global: usize, index_local: usize)
        ensures
            final(self).index_map() == old(self).index_map().insert(index_local, index_global),
            final(self).filter_text() == old(self).filter_text(),
            final(self).dirty() == old(self).dirty(),
            final(self).lists == old(self).lists,
            final(self).groups == old(self).groups,
    {
        let _ = self.index_map.insert(index_local, index_global);
    }

    /// Whether the index map knows the visible position `index_local`.
    pub fn has_local_index(&self, index_local: usize) -> (known: bool)
        ensures
            known == self.index_map().contains_key(index_local),
    {
        self.index_map.contains_key(&index_local)
    }

    /// The position in the active group that the visible position
    /// `index_local` stands for.
    pub fn get_by_local_index(&self, index_local: usize) -> (index_global: usize)
        requires
            self.index_map().contains_key(index_local),
        ensures
            index_global == self.index_map()[index_local],
    {
        match self.index_map.get(&index_local) {
            Some(global) => *global,
            None => 0,
        }
    }

    /// Whether the filter text is empty.
    pub fn is_empty(&self) -> (empty: bool)
        ensures
            empty == (self.filter_text().len() == 0),
    {
        self.input.as_str().is_empty()
    }
}

/// After an edit of the filter text, the next evaluation finds the cursor
/// of every group on the first visible entry.
pub proof fn lemma_edit_resets_cursor(
    post: State,
    pre: State,
    text: Seq<char>,
    groups: Seq<GroupModel>,
    g: int,
)
    requires
        State::edited(post, pre, text),
    ensures
        post.cursor_in(groups, g) == 0,
{
}

/// Once evaluated, the active group's list is well-formed with the cursor
/// where the evaluation put it, and another evaluation leaves it there.
pub proof fn lemma_evaluation_settles(
    post: State,
    pre: State,
    groups: Seq<GroupModel>,
    cursor: usize,
)
    requires
        pre.fits(groups),
        groups.len() > 0,
        groups[pre.active()].items@.len() <= usize::MAX,
        State::evaluated(post, pre, groups, pre.groups, cursor),
        cursor < pre.visible_in(groups, pre.active()).len() || cursor == 0,
    ensures
        post.fits(groups),
        post.lists@[post.active()].wf(),
        post.cursor_in(groups, post.active()) == cursor,
        State::evaluated(post, post, groups, post.groups, cursor),
{
    lemma_visible_exact(groups[pre.active()].items@, pre.filter_text());
    assert(post.lists@ =~= post.lists@.update(post.active(), post.lists@[post.active()]));
}

/// An evaluated cursor stands on a visible entry whenever there is one, and
/// the index map then sends it to the position of that entry in the group.
pub proof fn lemma_evaluated_cursor_visible(state: State, groups: Seq<GroupModel>, g: int)
    requires
        0 <= g < groups.len(),
        groups[g].items@.len() <= usize::MAX,
        state.visible_in(groups, g).len() > 0,
    ensures
        state.cursor_in(groups, g) < state.visible_in(groups, g).len(),
        index_map_of(state.visible_in(groups, g)).contains_key(state.cursor_in(groups, g)),
        index_map_of(state.visible_in(groups, g))[state.cursor_in(groups, g)]
            < groups[g].items@.len(),
{
    lemma_visible_exact(groups[g].items@, state.filter_text());
}

} // verus!
