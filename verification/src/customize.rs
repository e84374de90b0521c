//! The customization child: what runs inside the mounted image.
//!
//! Customization happens in a child process, because a process that changes
//! its root cannot go back. The host forks; in the child it follows a
//! [`SetupChild`], which never hands control back: it changes the root, runs
//! the commands in order, and exits. A command that exits with a failure does
//! not stop the run. A command that cannot be launched does, and so does a
//! root that cannot be changed.

use vstd::prelude::*;
use crate::utils::{command_views, SetupCommand, SetupCommandView};

verus! {

/// The exit code of a child that ran every command.
pub const EXIT_SUCCESS: i32 = 0;

/// The exit code of a child that could not change its root or could not
/// launch a command.
pub const EXIT_FAILURE: i32 = 1;

/// One operation for the child to perform.
#[derive(Debug, PartialEq, Eq)]
pub enum ChildAction {
    /// Make `root` the root of this process.
    Chroot { root: String },
    /// Launch the command and wait for it.
    Launch { command: SetupCommand },
    /// Exit with `code`, now.
    Exit { code: i32 },
}

/// A [`ChildAction`] as text.
pub enum ChildActionView {
    Chroot { root: Seq<char> },
    Launch { command: SetupCommandView },
    Exit { code: i32 },
}

impl View for ChildAction {
    type V = ChildActionView;

    open spec fn view(&self) -> ChildActionView {
        match self {
            ChildAction::Chroot { root } => ChildActionView::Chroot { root: root@ },
            ChildAction::Launch { command } => ChildActionView::Launch { command: command@ },
            ChildAction::Exit { code } => ChildActionView::Exit { code: *code },
        }
    }
}

/// The child's account of the operation it was asked to perform.
#[derive(Debug, Clone, Copy, PartialEq, Eq, Structural)]
pub enum ChildEvent {
    /// The root was changed.
    RootChanged,
    /// The command was launched and has ended, with this exit code if it
    /// exited with one.
    Launched { status: Option<i32> },
    /// The operation could not be carried out.
    Failed,
}

/// Where the child stands: the operation it is about to perform.
#[derive(Debug, Clone, Copy, PartialEq, Eq, Structural)]
pub enum ChildPhase {
    /// Changing the root.
    Chroot,
    /// Launching the command with this index.
    Launch(usize),
    /// Exiting with this code.
    Exit(i32),
}

/// A child as text.
pub struct ChildView {
    pub root: Seq<char>,
    pub commands: Seq<SetupCommandView>,
    pub phase: ChildPhase,
}

impl ChildView {
    /// The list of commands is one that a machine can hold, and a command
    /// that is about to be launched is one of the list.
    pub open spec fn wf(self) -> bool {
        &&& self.commands.len() <= usize::MAX
        &&& self.phase matches ChildPhase::Launch(index) ==> index < self.commands.len()
    }

    /// The same child in another phase.
    pub open spec fn at(self, phase: ChildPhase) -> ChildView {
        ChildView { phase, ..self }
    }

    /// The phase in which the commands from `index` on are still to run:
    /// the launch of that command, or the successful exit after the last.
    pub open spec fn from_command(self, index: int) -> ChildPhase {
        if 0 <= index < self.commands.len() {
            ChildPhase::Launch(index as usize)
        } else {
            ChildPhase::Exit(EXIT_SUCCESS)
        }
    }

    /// The operation that the child is about to perform.
    pub open spec fn pending(self) -> ChildActionView {
        match self.phase {
            ChildPhase::Chroot => ChildActionView::Chroot { root: self.root },
            ChildPhase::Launch(index) => ChildActionView::Launch {
                command: self.commands[index as int],
            },
            ChildPhase::Exit(code) => ChildActionView::Exit { code },
        }
    }

    /// The child after an event.
    ///
    /// A failure leads to the failing exit. The changed root leads to the
    /// first command, a command that has ended leads to the next one,
    /// whatever its exit code, and the last one to the successful exit. An
    /// event that is no answer to the pending operation changes nothing, and
    /// nothing leads away from an exit.
    pub open spec fn next(self, event: ChildEvent) -> ChildView {
        match (self.phase, event) {
            (ChildPhase::Exit(_), _) => self,
            (_, ChildEvent::Failed) => self.at(ChildPhase::Exit(EXIT_FAILURE)),
            (ChildPhase::Chroot, ChildEvent::RootChanged) => self.at(self.from_command(0)),
            (ChildPhase::Launch(index), ChildEvent::Launched { .. }) => self.at(
                self.from_command(index + 1),
            ),
            _ => self,
        }
    }

    /// The child after a run of events.
    pub open spec fn after(self, events: Seq<ChildEvent>) -> ChildView
        decreases events.len(),
    {
        if events.len() == 0 {
            self
        } else {
            self.next(events[0]).after(events.drop_first())
        }
    }
}

/// A list of commands in memory is no longer than a machine can count.
proof fn lemma_commands_fit(commands: &Vec<SetupCommand>)
    ensures
        command_views(commands@).len() == commands@.len(),
        commands@.len() <= usize::MAX,
{
    assert(commands@.len() == commands.len());
}

/// The customization child of one build.
#[derive(Debug)]
pub struct SetupChild {
    root: String,
    commands: Vec<SetupCommand>,
    phase: ChildPhase,
}

impl View for SetupChild {
    type V = ChildView;

    closed spec fn view(&self) -> ChildView {
        ChildView { root: self.root@, commands: command_views(self.commands@), phase: self.phase }
    }
}

impl SetupChild {
    #[verifier::type_invariant]
    spec fn launches_listed_commands(self) -> bool {
        self.phase matches ChildPhase::Launch(index) ==> index < self.commands.len()
    }

    /// The child that will run `commands` with `root` as its root.
    pub fn new(root: String, commands: Vec<SetupCommand>) -> (child: SetupChild)
        ensures
            child@ == (ChildView {
                root: root@,
                commands: command_views(commands@),
                phase: ChildPhase::Chroot,
            }),
            child@.wf(),
    {
        proof {
            lemma_commands_fit(&commands);
        }
        SetupChild { root, commands, phase: ChildPhase::Chroot }
    }

    /// Where the child stands.
    pub fn phase(&self) -> (phase: ChildPhase)
        ensures
            phase == self@.phase,
    {
        self.phase
    }

    /// The operation that the child has to perform now.
    pub fn pending(&self) -> (action: ChildAction)
        ensures
            self@.wf(),
            action@ == self@.pending(),
    {
        proof {
            use_type_invariant(self);
            lemma_commands_fit(&self.commands);
        }
        match self.phase {
            ChildPhase::Chroot => ChildAction::Chroot { root: self.root.clone() },
            ChildPhase::Launch(index) => ChildAction::Launch {
                command: self.commands[index].duplicate(),
            },
            ChildPhase::Exit(code) => ChildAction::Exit { code },
        }
    }

    /// The phase in which the commands from `index` on are still to run.
    fn from_command(&self, index: usize) -> (phase: ChildPhase)
        ensures
            phase == self@.from_command(index as int),
            phase matches ChildPhase::Launch(launched) ==> launched < self.commands.len(),
    {
        if index < self.commands.len() {
            ChildPhase::Launch(index)
        } else {
            ChildPhase::Exit(EXIT_SUCCESS)
        }
    }

    /// Takes the account of the pending operation and moves on.
    pub fn advance(self, event: ChildEvent) -> (child: SetupChild)
        ensures
            child@ == self@.next(event),
            child@.wf(),
    {
        proof {
            use_type_invariant(&self);
            lemma_commands_fit(&self.commands);
        }
        let phase = match (self.phase, event) {
            (ChildPhase::Exit(code), _) => ChildPhase::Exit(code),
            (_, ChildEvent::Failed) => ChildPhase::Exit(EXIT_FAILURE),
            (ChildPhase::Chroot, ChildEvent::RootChanged) => self.from_command(0),
            (ChildPhase::Launch(index), ChildEvent::Launched { .. }) => self.from_command(
                index + 1,
            ),
            (phase, _) => phase,
        };
        SetupChild { root: self.root, commands: self.commands, phase }
    }
}

/// A step keeps the child well formed and leaves its root and its commands
/// alone.
pub proof fn lemma_child_step_is_sound(child: ChildView, event: ChildEvent)
    requires
        child.wf(),
    ensures
        child.next(event).wf(),
        child.next(event).root == child.root,
        child.next(event).commands == child.commands,
{
}

/// Commands run strictly in order: before any command the root is changed,
/// the first command is the first to be launched, and after a command comes
/// the next one or the exit, never an earlier or a later one.
pub proof fn lemma_commands_run_in_order(child: ChildView, event: ChildEvent)
    requires
        child.wf(),
        child.next(event).phase is Launch,
        child.next(event) != child,
    ensures
        match child.phase {
            ChildPhase::Chroot => event == ChildEvent::RootChanged && child.next(event).phase
                == ChildPhase::Launch(0),
            ChildPhase::Launch(index) => event is Launched && child.next(event).phase
                == ChildPhase::Launch((index + 1) as usize),
            ChildPhase::Exit(_) => false,
        },
{
}

/// How a command ended is not consulted: whatever its exit code, the child
/// goes on in the same way.
pub proof fn lemma_exit_code_is_not_consulted(
    child: ChildView,
    first: Option<i32>,
    second: Option<i32>,
)
    ensures
        child.next(ChildEvent::Launched { status: first }) == child.next(
            ChildEvent::Launched { status: second },
        ),
{
}

/// What cannot be carried out ends the child: the next operation is the
/// failing exit, and no further command is launched.
pub proof fn lemma_failure_ends_child(child: ChildView)
    requires
        !(child.phase is Exit),
    ensures
        child.next(ChildEvent::Failed).pending() == (ChildActionView::Exit { code: EXIT_FAILURE }),
{
}

/// The child exits with success exactly after its last command, or after the
/// change of root where there is no command.
pub proof fn lemma_success_after_last_command(child: ChildView, event: ChildEvent)
    requires
        child.wf(),
        !(child.phase is Exit),
    ensures
        child.next(event).phase == ChildPhase::Exit(EXIT_SUCCESS) <==> {
            ||| child.phase is Chroot && event is RootChanged && child.commands.len() == 0
            ||| child.phase matches ChildPhase::Launch(index) && event is Launched && index + 1
                == child.commands.len()
        },
{
}

/// An exit is final: no event leads away from it.
pub proof fn lemma_exit_is_final(child: ChildView, events: Seq<ChildEvent>)
    requires
        child.phase is Exit,
    ensures
        child.after(events) == child,
    decreases events.len(),
{
    if events.len() > 0 {
        lemma_exit_is_final(child, events.drop_first());
    }
}

/// A child whose commands from `index` on all launch runs them all and exits
/// with success, however they end.
pub proof fn lemma_commands_all_run(child: ChildView, index: int, events: Seq<ChildEvent>)
    requires
        child.wf(),
        0 <= index <= child.commands.len(),
        child.phase == child.from_command(index),
        events.len() == child.commands.len() - index,
        forall|i: int| 0 <= i < events.len() ==> events[i] is Launched,
    ensures
        child.after(events).phase == ChildPhase::Exit(EXIT_SUCCESS),
    decreases events.len(),
{
    if events.len() > 0 {
        let next = child.next(events[0]);
        assert(next.phase == next.from_command(index + 1));
        assert forall|i: int| 0 <= i < events.drop_first().len() implies events.drop_first()[i]
            is Launched by {
            assert(events.drop_first()[i] == events[i + 1]);
        }
        lemma_commands_all_run(next, index + 1, events.drop_first());
    }
}

} // verus!
