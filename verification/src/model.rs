//! The launch spec model: groups of executable entries, supplied fully
//! formed by a config loader before the selection controller starts.

use vstd::prelude::*;

verus! {

/// One process to start: a display name, the program to run, its arguments,
/// and whether a shell interprets it.
pub struct AppCommand {
    /// Name shown in the list and in error reports; need not be unique.
    pub name: String,
    /// Program to invoke when no shell is involved.
    pub command: String,
    /// Arguments, in order. With `use_shell` they form the shell's `-c` input.
    pub args: Vec<String>,
    /// When true the command runs through `sh -c`, enabling pipes and
    /// compound commands.
    pub use_shell: bool,
}

/// Mathematical image of an [`AppCommand`].
pub ghost struct AppCommandView {
    pub name: Seq<char>,
    pub command: Seq<char>,
    pub args: Seq<Seq<char>>,
    pub use_shell: bool,
}

impl View for AppCommand {
    type V = AppCommandView;

    open spec fn view(&self) -> AppCommandView {
        AppCommandView {
            name: self.name@,
            command: self.command@,
            args: self.args.deep_view(),
            use_shell: self.use_shell,
        }
    }
}

impl DeepView for AppCommand {
    type V = AppCommandView;

    open spec fn deep_view(&self) -> AppCommandView {
        self.view()
    }
}

/// A named group of commands that are launched together.
pub struct Group {
    /// Name shown in the selection list.
    pub name: String,
    /// The group's entries, in launch order; may be empty.
    pub apps: Vec<AppCommand>,
}

/// Mathematical image of a [`Group`].
pub ghost struct GroupView {
    pub name: Seq<char>,
    pub apps: Seq<AppCommandView>,
}

impl View for Group {
    type V = GroupView;

    open spec fn view(&self) -> GroupView {
        GroupView { name: self.name@, apps: self.apps.deep_view() }
    }
}

impl DeepView for Group {
    type V = GroupView;

    open spec fn deep_view(&self) -> GroupView {
        self.view()
    }
}

/// The whole configuration: an ordered list of groups. Immutable once the
/// controller holds it.
pub struct Config {
    pub groups: Vec<Group>,
}

/// Mathematical image of a [`Config`].
pub ghost struct ConfigView {
    pub groups: Seq<GroupView>,
}

impl View for Config {
    type V = ConfigView;

    open spec fn view(&self) -> ConfigView {
        ConfigView { groups: self.groups.deep_view() }
    }
}

/// The display names of a sequence of groups, in order.
pub open spec fn group_names(groups: Seq<GroupView>) -> Seq<Seq<char>> {
    groups.map_values(|g: GroupView| g.name)
}

/// Copy a list of strings, element for element.
pub(crate) fn clone_strings(v: &Vec<String>) -> (r: Vec<String>)
    ensures
        r@ == v@,
{
    let r = v.clone();
    proof {
        assert forall|i: int| 0 <= i < v@.len() implies r@[i] == v@[i] by {
            assert(cloned::<String>(v@[i], r@[i]));
        }
        assert(r@ =~= v@);
    }
    r
}

} // verus!
