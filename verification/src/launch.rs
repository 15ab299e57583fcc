//! The process launcher's decision logic. What to invoke for a command,
//! and how a group's launches are attempted one by one, in order, with
//! every failure recorded and none allowed to stop its siblings. The host
//! performs the actual process creation and reports each outcome back.

use crate::model::{AppCommand, AppCommandView, clone_strings};
use vstd::prelude::*;

verus! {

/// A launch that could not be started: the failing entry's display name
/// and the underlying cause.
pub struct LaunchError {
    pub name: String,
    pub cause: String,
}

/// Mathematical image of a [`LaunchError`].
pub ghost struct LaunchErrorView {
    pub name: Seq<char>,
    pub cause: Seq<char>,
}

impl View for LaunchError {
    type V = LaunchErrorView;

    open spec fn view(&self) -> LaunchErrorView {
        LaunchErrorView { name: self.name@, cause: self.cause@ }
    }
}

impl DeepView for LaunchError {
    type V = LaunchErrorView;

    open spec fn deep_view(&self) -> LaunchErrorView {
        self.view()
    }
}

/// What the operating system is asked to run for one command: a program
/// and its argument list. The host starts it in a session of its own, so
/// the process outlives the launcher and its terminal.
pub struct Invocation {
    pub program: String,
    pub args: Vec<String>,
}

/// Mathematical image of an [`Invocation`].
pub ghost struct InvocationView {
    pub program: Seq<char>,
    pub args: Seq<Seq<char>>,
}

impl View for Invocation {
    type V = InvocationView;

    open spec fn view(&self) -> InvocationView {
        InvocationView { program: self.program@, args: self.args.deep_view() }
    }
}

/// The invocation a command calls for: the command itself with its
/// arguments, or — when a shell is wanted — `sh -c` with the arguments
/// as the script.
pub open spec fn invocation_of(c: AppCommandView) -> InvocationView {
    if c.use_shell {
        InvocationView { program: "sh"@, args: seq!["-c"@] + c.args }
    } else {
        InvocationView { program: c.command, args: c.args }
    }
}

/// Build the invocation for one command.
pub fn invocation(cmd: &AppCommand) -> (inv: Invocation)
    ensures
        inv@ == invocation_of(cmd@),
{
    if cmd.use_shell {
        let mut args: Vec<String> = Vec::new();
        args.push("-c".to_owned());
        let mut rest = clone_strings(&cmd.args);
        args.append(&mut rest);
        let inv = Invocation { program: "sh".to_owned(), args };
        proof {
            assert(inv@.args =~= seq!["-c"@] + cmd@.args);
        }
        inv
    } else {
        Invocation { program: cmd.command.clone(), args: clone_strings(&cmd.args) }
    }
}

/// The errors accumulated after the first `outcomes.len()` commands of
/// `apps` have been attempted: one entry per failed outcome, in attempt
/// order, each carrying the failing command's name and the reported cause.
pub open spec fn errors_after(
    apps: Seq<AppCommandView>,
    outcomes: Seq<Option<Seq<char>>>,
) -> Seq<LaunchErrorView>
    recommends
        outcomes.len() <= apps.len(),
    decreases outcomes.len(),
{
    if outcomes.len() == 0 {
        Seq::empty()
    } else {
        let rest = errors_after(apps, outcomes.drop_last());
        match outcomes.last() {
            Option::None => rest,
            Option::Some(cause) => rest.push(
                LaunchErrorView { name: apps[outcomes.len() - 1].name, cause },
            ),
        }
    }
}

/// One group launch in progress: which commands are being attempted, how
/// many have been attempted so far, and the errors collected. The host
/// asks for the current command, starts it, and records the outcome
/// (`None` for success, `Some(cause)` for a failure); a failure never
/// stops the commands after it.
pub struct GroupLaunch<'a> {
    /// The commands to attempt, in order.
    pub apps: &'a Vec<AppCommand>,
    /// How many commands have been attempted.
    pub pos: usize,
    /// The failures seen so far, in attempt order.
    pub errors: Vec<LaunchError>,
}

impl<'a> GroupLaunch<'a> {
    /// Well-formedness: never past the end of the command list.
    pub open spec fn wf(self) -> bool {
        self.pos <= self.apps@.len()
    }

    /// Begin a launch over `apps`: nothing attempted, no errors.
    pub fn start(apps: &'a Vec<AppCommand>) -> (s: GroupLaunch<'a>)
        ensures
            s.wf(),
            s.apps == apps,
            s.pos == 0,
            s.errors@ == Seq::<LaunchError>::empty(),
    {
        GroupLaunch { apps, pos: 0, errors: Vec::new() }
    }

    /// Whether every command has been attempted.
    pub fn done(&self) -> (b: bool)
        ensures
            b == (self.pos == self.apps@.len()),
    {
        self.pos == self.apps.len()
    }

    /// The command to attempt now.
    pub fn current(&self) -> (c: &'a AppCommand)
        requires
            self.wf(),
            (self.pos as nat) < self.apps@.len(),
        ensures
            *c == self.apps@[self.pos as int],
    {
        let apps: &'a Vec<AppCommand> = self.apps;
        &apps[self.pos]
    }

    /// Record the outcome of the current command and move to the next one.
    /// A failure appends one error, made of the command's name and the
    /// cause; a success appends nothing. Either way the attempt count
    /// advances, so no outcome can stop the commands after it.
    pub fn record(&mut self, outcome: Option<String>)
        requires
            old(self).wf(),
            (old(self).pos as nat) < old(self).apps@.len(),
        ensures
            final(self).wf(),
            final(self).apps == old(self).apps,
            final(self).pos == old(self).pos + 1,
            outcome matches Option::None ==> final(self).errors@ == old(self).errors@,
            outcome matches Option::Some(cause) ==> final(self).errors.deep_view()
                == old(self).errors.deep_view().push(
                    LaunchErrorView {
                        name: old(self).apps@[old(self).pos as int]@.name,
                        cause: cause@,
                    },
                ),
    {
        // The list's length bounds `pos`, so the increment below cannot
        // overflow.
        let len: usize = self.apps.len();
        match outcome {
            Option::Some(cause) => {
                let name = self.apps[self.pos].name.clone();
                self.errors.push(LaunchError { name, cause });
                proof {
                    assert(self.errors.deep_view() =~= old(self).errors.deep_view().push(
                        LaunchErrorView {
                            name: old(self).apps@[old(self).pos as int]@.name,
                            cause: self.errors@.last().cause@,
                        },
                    ));
                }
            },
            Option::None => {},
        }
        self.pos = self.pos + 1;
    }
}

/// Copy one outcome, element for element.
fn clone_outcome(o: &Option<String>) -> (r: Option<String>)
    ensures
        r == *o,
{
    match o {
        Option::Some(s) => Option::Some(s.clone()),
        Option::None => Option::None,
    }
}

/// The group-level accumulation: given one outcome per command, attempt
/// them all in order and collect exactly the failures. This is the launch
/// loop with the process creation factored out; for every outcome pattern
/// all commands are attempted and the result is `errors_after`.
pub fn collect_errors(apps: &Vec<AppCommand>, outcomes: &Vec<Option<String>>) -> (errs: Vec<
    LaunchError,
>)
    requires
        outcomes@.len() == apps@.len(),
    ensures
        errs.deep_view() == errors_after(apps.deep_view(), outcomes.deep_view()),
{
    let mut s = GroupLaunch::start(apps);
    let mut i: usize = 0;
    while i < outcomes.len()
        invariant
            outcomes@.len() == apps@.len(),
            s.wf(),
            s.apps == apps,
            s.pos == i,
            i <= outcomes@.len(),
            s.errors.deep_view() == errors_after(
                apps.deep_view(),
                outcomes.deep_view().take(i as int),
            ),
        decreases outcomes@.len() - i,
    {
        let outcome = clone_outcome(&outcomes[i]);
        s.record(outcome);
        i = i + 1;
        proof {
            let taken = outcomes.deep_view().take(i as int);
            assert(taken.drop_last() =~= outcomes.deep_view().take(i as int - 1));
            assert(taken.last() == outcomes.deep_view()[i - 1]);
        }
    }
    proof {
        assert(outcomes.deep_view().take(outcomes@.len() as int) =~= outcomes.deep_view());
    }
    s.errors
}

} // verus!
