//! The picker's catalog, how a catalog document becomes one, and what each
//! key does to the selection.

use crate::domain::{launches, resolve_launch, GroupModel, LaunchModel, SelectableItemModel};
use crate::filter::lemma_visible_exact;
use crate::serialization::{copy_text, text_of, Groups, ListGroup, SelectableItem};
use crate::state::State;
use crate::stateful::{cycle_next, cycle_prev};
use crate::text::{lowercase, to_lowercase};
use vstd::prelude::*;

verus! {

/// The catalog that the picker shows.
pub struct AppModel {
    pub groups: Vec<GroupModel>,
}

/// A key of the picker.
#[derive(Clone, Copy, Debug)]
pub enum Key {
    Char(char),
    Left,
    Right,
    Up,
    Down,
    Backspace,
    Esc,
    Enter,
    Other,
}

/// What the picker does after a key.
pub enum Step {
    /// It waits for the next key.
    Continue,
    /// It ends, and hands the launch description on.
    Exit(LaunchModel),
}

/// `model` is the entry that the picker holds for `source` at position
/// `index`: the label in lowercase, the parameter as it was.
pub open spec fn item_models(
    source: SelectableItem,
    index: int,
    model: SelectableItemModel,
) -> bool {
    &&& model.index == index
    &&& model.label@ == lowercase(source.label@)
    &&& model.param@ == source.param@
}

/// `model` is the group that the picker holds for `source`: the same label,
/// command and terminal flag, and the same entries in the same order.
pub open spec fn group_models(source: ListGroup, model: GroupModel) -> bool {
    &&& model.label@ == source.label@
    &&& text_of(model.command_template) == text_of(source.command_template)
    &&& model.is_terminal == source.is_terminal
    &&& model.items@.len() == source.items@.len()
    &&& forall|j: int|
        0 <= j < source.items@.len() ==> item_models(
            source.items@[j],
            j,
            #[trigger] model.items@[j],
        )
}

/// The step that ends the picker without a launch.
pub open spec fn is_quit(step: Step) -> bool {
    match step {
        Step::Exit(launch) => launch.executable is None && launch.param is None
            && !launch.is_terminal,
        Step::Continue => false,
    }
}

impl AppModel {
    /// The catalog of a document: its groups in order, every label of an
    /// entry in lowercase, every entry with its position in its group.
    pub fn new(content: &Groups) -> (model: AppModel)
        ensures
            model.groups@.len() == content.groups@.len(),
            forall|g: int|
                0 <= g < content.groups@.len() ==> group_models(
                    content.groups@[g],
                    #[trigger] model.groups@[g],
                ),
            forall|g: int| 0 <= g < model.groups@.len() ==> (#[trigger] model.groups@[g]).wf(),
    {
        let mut groups: Vec<GroupModel> = Vec::new();
        let mut g: usize = 0;
        while g < content.groups.len()
            invariant
                g <= content.groups.len(),
                groups@.len() == g,
                forall|k: int|
                    0 <= k < g ==> group_models(content.groups@[k], #[trigger] groups@[k])
                        && groups@[k].wf(),
            decreases content.groups.len() - g,
        {
            let source = &content.groups[g];
            let mut items: Vec<SelectableItemModel> = Vec::new();
            let mut j: usize = 0;
            while j < source.items.len()
                invariant
                    j <= source.items.len(),
                    items@.len() == j,
                    forall|k: int|
                        0 <= k < j ==> item_models(source.items@[k], k, #[trigger] items@[k]),
                decreases source.items.len() - j,
            {
                let entry = &source.items[j];
                items.push(
                    SelectableItemModel::new(
                        j,
                        to_lowercase(entry.label.as_str()),
                        entry.param.clone(),
                    ),
                );
                j += 1;
            }
            groups.push(
                GroupModel {
                    label: source.label.clone(),
                    items,
                    command_template: copy_text(&source.command_template),
                    is_terminal: source.is_terminal,
                },
            );
            g += 1;
        }
        AppModel { groups }
    }

    /// The selection that a state stands for: the active group and the
    /// position in it of the entry under the evaluated cursor. There is none
    /// without groups or without a visible entry.
    pub open spec fn selection(&self, state: State) -> Option<(usize, usize)> {
        let g = state.active();
        if self.groups@.len() == 0 || state.visible_in(self.groups@, g).len() == 0 {
            None
        } else {
            Some(
                (
                    g as usize,
                    state.visible_in(self.groups@, g)[state.cursor_in(self.groups@, g) as int],
                ),
            )
        }
    }

    /// `post` and `step` are what `key` makes of the state `pre`.
    pub open spec fn steps(&self, pre: State, key: Key, post: State, step: Step) -> bool {
        let groups = self.groups@;
        let g = pre.active();
        match key {
            Key::Char(c) => if c == 'q' {
                post == pre && is_quit(step)
            } else {
                State::edited(post, pre, pre.filter_text().push(c)) && step is Continue
            },
            Key::Backspace => State::edited(
                post,
                pre,
                if pre.filter_text().len() > 0 {
                    pre.filter_text().drop_last()
                } else {
                    pre.filter_text()
                },
            ) && step is Continue,
            Key::Esc => State::edited(post, pre, Seq::<char>::empty()) && step is Continue,
            Key::Left => State::switched(post, pre, groups, pre.groups.after_previous())
                && step is Continue,
            Key::Right => State::switched(post, pre, groups, pre.groups.after_next())
                && step is Continue,
            Key::Down => State::evaluated(
                post,
                pre,
                groups,
                pre.groups,
                cycle_next(pre.cursor_in(groups, g), pre.visible_in(groups, g).len() as usize),
            ) && step is Continue,
            Key::Up => State::evaluated(
                post,
                pre,
                groups,
                pre.groups,
                cycle_prev(pre.cursor_in(groups, g), pre.visible_in(groups, g).len() as usize),
            ) && step is Continue,
            Key::Enter => State::evaluated(post, pre, groups, pre.groups, pre.cursor_in(groups, g))
                && match self.selection(pre) {
                Some((group, item)) => match step {
                    Step::Exit(launch) => launches(
                        groups[group as int],
                        groups[group as int].items@[item as int],
                        launch,
                    ),
                    Step::Continue => false,
                },
                None => step is Continue,
            },
            Key::Other => post == pre && is_quit(step),
        }
    }

    /// Evaluates the cursor and finds the selected entry: the active group
    /// and the entry's position in it, or nothing where no entry is visible.
    pub fn resolve(&self, state: &mut State) -> (found: Option<(usize, usize)>)
        requires
            old(state).fits(self.groups@),
        ensures
            final(state).fits(self.groups@),
            State::evaluated(
                *final(state),
                *old(state),
                self.groups@,
                old(state).groups,
                old(state).cursor_in(self.groups@, old(state).active()),
            ),
            found == self.selection(*old(state)),
            match found {
                Some((group, item)) => group < self.groups@.len() && item
                    < self.groups@[group as int].items@.len(),
                None => true,
            },
    {
        state.refresh(&self.groups);
        if self.groups.len() == 0 {
            return None;
        }
        let selected_group_index = state.get_selected_group();
        let selected_list = &state.lists[selected_group_index];
        proof {
            let items = self.groups@[selected_group_index as int].items;
            assert(items@.len() == items.len());
            lemma_visible_exact(items@, old(state).filter_text());
        }
        if selected_list.len == 0 {
            return None;
        }
        let selected_item_index = selected_list.get_selected();
        let global_index = state.get_by_local_index(selected_item_index);
        Some((selected_group_index, global_index))
    }

    /// Confirms the selection: the launch description of the selected entry,
    /// or nothing where no entry is visible.
    pub fn handle_enter(&self, state: &mut State) -> (launch: Option<LaunchModel>)
        requires
            old(state).fits(self.groups@),
        ensures
            final(state).fits(self.groups@),
            State::evaluated(
                *final(state),
                *old(state),
                self.groups@,
                old(state).groups,
                old(state).cursor_in(self.groups@, old(state).active()),
            ),
            match self.selection(*old(state)) {
                Some((group, item)) => launch is Some && launches(
                    self.groups@[group as int],
                    self.groups@[group as int].items@[item as int],
                    launch->0,
                ),
                None => launch is None,
            },
    {
        match self.resolve(state) {
            Some((selected_group_index, global_index)) => {
                let group = &self.groups[selected_group_index];
                let selected_item_model = &group.items[global_index];
                Some(resolve_launch(group, selected_item_model))
            },
            None => None,
        }
    }

    /// Applies one key to the selection state. The arrow keys move between
    /// groups and visible entries, characters edit the filter text, enter
    /// confirms the selection, and `q` or any other key ends the picker
    /// without a launch.
    pub fn handle_key(&self, state: &mut State, key: Key) -> (step: Step)
        requires
            old(state).fits(self.groups@),
        ensures
            final(state).fits(self.groups@),
            self.steps(*old(state), key, *final(state), step),
    {
        match key {
            Key::Char(c) => {
                if c == 'q' {
                    return Step::Exit(LaunchModel::default());
                }
                state.handle_char(c);
                Step::Continue
            },
            Key::Left => {
                state.select_group_prev(&self.groups);
                Step::Continue
            },
            Key::Right => {
                state.select_group_next(&self.groups);
                Step::Continue
            },
            Key::Down => {
                state.select_item_next(&self.groups);
                Step::Continue
            },
            Key::Up => {
                state.select_item_prev(&self.groups);
                Step::Continue
            },
            Key::Backspace => {
                state.handle_backspace();
                Step::Continue
            },
            Key::Esc => {
                state.handle_escape();
                Step::Continue
            },
            Key::Enter => match self.handle_enter(state) {
                Some(launch) => Step::Exit(launch),
                None => Step::Continue,
            },
            Key::Other => Step::Exit(LaunchModel::default()),
        }
    }
}

} // verus!
