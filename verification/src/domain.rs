//! The picker's in-memory catalog and the launch description.

use vstd::prelude::*;

verus! {

/// One selectable entry, with its position in the group it belongs to.
/// `label` is held in lowercase.
pub struct SelectableItemModel {
    pub index: usize,
    pub label: String,
    pub param: String,
}

/// A named, ordered collection of entries that share a launch command.
pub struct GroupModel {
    pub label: String,
    pub items: Vec<SelectableItemModel>,
    pub command_template: Option<String>,
    pub is_terminal: Option<bool>,
}

/// What to launch. No executable means: launch nothing.
pub struct LaunchModel {
    pub executable: Option<String>,
    pub param: Option<String>,
    pub is_terminal: bool,
}

/// How a launch description is to be carried out.
#[derive(Clone, Copy, Debug, PartialEq, Eq, Structural)]
pub enum LaunchMode {
    /// Nothing is launched.
    Skip,
    /// The command runs in the current terminal and is waited for.
    Synchronous,
    /// The command is started in a session of its own.
    Detached,
}

impl SelectableItemModel {
    /// The entry at position `index` with a label that is already in
    /// lowercase.
    pub fn new(index: usize, label: String, param: String) -> (item: SelectableItemModel)
        ensures
            item.index == index,
            item.label == label,
            item.param == param,
    {
        SelectableItemModel { index, label, param }
    }
}

impl GroupModel {
    /// Every entry records its own position.
    pub open spec fn wf(&self) -> bool {
        forall|i: int| 0 <= i < self.items@.len() ==> (#[trigger] self.items@[i]).index == i
    }
}

impl LaunchModel {
    /// The description that launches nothing.
    pub fn default() -> (launch: LaunchModel)
        ensures
            launch.executable is None,
            launch.param is None,
            !launch.is_terminal,
    {
        LaunchModel { executable: None, param: None, is_terminal: false }
    }

    /// The mode that this description calls for, given whether the platform
    /// can start a detached process.
    pub open spec fn mode(&self, detached_supported: bool) -> LaunchMode {
        if self.executable is None {
            LaunchMode::Skip
        } else if !detached_supported || self.is_terminal {
            LaunchMode::Synchronous
        } else {
            LaunchMode::Detached
        }
    }

    /// Decides how to carry the description out: nothing without an
    /// executable; in place where detaching is unsupported or the current
    /// terminal is asked for; detached otherwise.
    pub fn launch_mode(&self, detached_supported: bool) -> (mode: LaunchMode)
        ensures
            mode == self.mode(detached_supported),
    {
        if self.executable.is_none() {
            LaunchMode::Skip
        } else if !detached_supported || self.is_terminal {
            LaunchMode::Synchronous
        } else {
            LaunchMode::Detached
        }
    }
}

/// The terminal flag of a group, `false` where it is unset.
pub open spec fn terminal_flag(flag: Option<bool>) -> bool {
    match flag {
        Some(b) => b,
        None => false,
    }
}

/// `launch` is the launch description of `item` in `group`: the group's
/// command, the entry's parameter, and the group's terminal flag.
pub open spec fn launches(
    group: GroupModel,
    item: SelectableItemModel,
    launch: LaunchModel,
) -> bool {
    &&& launch.executable == group.command_template
    &&& launch.param == Some(item.param)
    &&& launch.is_terminal == terminal_flag(group.is_terminal)
}

/// The launch description of an entry of a group. A group without a
/// command gives a description without an executable.
pub fn resolve_launch(group: &GroupModel, item: &SelectableItemModel) -> (launch: LaunchModel)
    ensures
        launches(*group, *item, launch),
{
    let executable = match &group.command_template {
        Some(command) => Some(command.clone()),
        None => None,
    };
    let is_terminal = match group.is_terminal {
        Some(flag) => flag,
        None => false,
    };
    LaunchModel { executable, param: Some(item.param.clone()), is_terminal }
}

} // verus!
