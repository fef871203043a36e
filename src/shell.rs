use vstd::prelude::*;

use crate::command::{greet, greet_command, greeting, is_greet_command};
use crate::lifecycle::{next_action, next_state, step, trace, Action, HostEvent, Lifecycle};

verus! {

/// A capability plugin that the bootstrap attaches to the application.
#[derive(Clone, Copy, Debug, PartialEq, Eq, Structural)]
pub enum Plugin {
    /// Opens files and URLs with the system's handlers.
    Opener,
    /// Checks for and installs updates of the application.
    Updater,
}

/// The plugins that the bootstrap attaches, in order.
pub open spec fn plugin_list() -> Seq<Plugin> {
    seq![Plugin::Opener, Plugin::Updater]
}

/// The plugins to attach, in the order in which they are attached.
pub fn plugins() -> (r: Vec<Plugin>)
    ensures
        r@ == plugin_list(),
{
    let mut r: Vec<Plugin> = Vec::new();
    r.push(Plugin::Opener);
    r.push(Plugin::Updater);
    assert(r@ =~= plugin_list());
    r
}

/// The answer to invoking `command` with argument `name` in state `s`: only a
/// running application dispatches, and only the greeting command is known.
pub open spec fn dispatch_result(s: Lifecycle, command: Seq<char>, name: Seq<char>) -> Option<
    Seq<char>,
> {
    if s == Lifecycle::Running && command == greet_command() {
        Some(greeting(name))
    } else {
        None
    }
}

/// The diagnostic with which the process ends when the run loop fails.
pub open spec fn fatal_diagnostic() -> Seq<char> {
    "error while running tauri application"@
}

/// The process-wide application state, owned by the entry point.
pub struct App {
    pub lifecycle: Lifecycle,
}

impl App {
    /// A freshly assembled application whose run loop has not come up.
    pub fn new() -> (r: App)
        ensures
            r.lifecycle == Lifecycle::NotRunning,
    {
        App { lifecycle: Lifecycle::NotRunning }
    }

    /// Takes in what the host reports and returns what the entry point must do.
    pub fn handle(&mut self, event: HostEvent) -> (r: Action)
        ensures
            final(self).lifecycle == next_state(old(self).lifecycle, event),
            r == next_action(old(self).lifecycle, event),
    {
        let (s, a) = step(self.lifecycle, event);
        self.lifecycle = s;
        a
    }

    /// Routes an invocation from the front end by command name. Reads the
    /// state and changes nothing.
    pub fn dispatch(&self, command: &str, name: &str) -> (r: Option<String>)
        ensures
            match r {
                Some(g) => dispatch_result(self.lifecycle, command@, name@) == Some(g@),
                None => dispatch_result(self.lifecycle, command@, name@) is None,
            },
    {
        if self.lifecycle == Lifecycle::Running && is_greet_command(command) {
            Some(greet(name))
        } else {
            None
        }
    }
}

/// The diagnostic with which the process ends when the run loop fails.
pub fn fatal_message() -> (r: String)
    ensures
        r@ == fatal_diagnostic(),
{
    String::from_str("error while running tauri application")
}

/// The handler is a function of its input alone: two invocations with the same
/// command and argument in the same state give the same answer, and in a
/// running application the greeting command answers with the greeting.
pub proof fn lemma_dispatch_deterministic(
    s: Lifecycle,
    command: Seq<char>,
    name: Seq<char>,
    r1: Option<Seq<char>>,
    r2: Option<Seq<char>>,
)
    requires
        r1 == dispatch_result(s, command, name),
        r2 == dispatch_result(s, command, name),
    ensures
        r1 == r2,
        s == Lifecycle::Running && command == greet_command() ==> r1 == Some(greeting(name)),
{
}

/// When the host cannot bring the run loop up, the process is told to abort
/// at once, without changing state: its trace ends after that first event,
/// never reaches `Running`, and no invocation is ever dispatched.
pub proof fn lemma_failed_start_aborts(events: Seq<HostEvent>)
    requires
        events.len() > 0,
        events[0] == HostEvent::Failed,
    ensures
        next_action(Lifecycle::NotRunning, HostEvent::Failed) == Action::Abort,
        next_state(Lifecycle::NotRunning, HostEvent::Failed) == Lifecycle::NotRunning,
        trace(Lifecycle::NotRunning, events) == seq![Lifecycle::NotRunning, Lifecycle::NotRunning],
        forall|i: int, command: Seq<char>, name: Seq<char>|
            0 <= i < trace(Lifecycle::NotRunning, events).len() ==> #[trigger] dispatch_result(
                trace(Lifecycle::NotRunning, events)[i],
                command,
                name,
            ) is None,
{
}

} // verus!
