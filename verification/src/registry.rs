//! The declarative table of invocable commands.
//!
//! The application bootstrap constructs this table once, before the event
//! loop starts, and never mutates it afterwards. Dispatch looks a command up
//! by the name under which the front end invokes it and runs the matching
//! handler on the window capability supplied with the invocation.

use crate::window::{set_result_spec, set_state_spec, CommandError, WindowState};
use vstd::prelude::*;
use vstd::string::StringExecFns;

verus! {

/// The handlers a command name can be bound to. The shell exposes exactly one
/// operation.
#[derive(Clone, Copy, Debug, PartialEq, Eq, Structural)]
pub enum Command {
    /// Set or clear a window's always-on-top attribute.
    SetAlwaysOnTop,
}

/// One row of the table: an invocation name bound to a handler.
#[derive(Debug)]
pub struct CommandEntry {
    /// The name under which the front end invokes the command.
    pub name: String,
    /// The handler the name is bound to.
    pub command: Command,
}

/// What a table of entries binds `name` to: the handler of the first entry
/// carrying that name, if any.
pub open spec fn table_lookup(t: Seq<CommandEntry>, name: Seq<char>) -> Option<Command>
    decreases t.len(),
{
    if t.len() == 0 {
        None
    } else if t[0].name@ == name {
        Some(t[0].command)
    } else {
        table_lookup(t.subrange(1, t.len() as int), name)
    }
}

/// The table of commands the application exposes to the front end.
pub struct CommandRegistry {
    entries: Vec<CommandEntry>,
}

impl View for CommandRegistry {
    type V = Seq<CommandEntry>;

    closed spec fn view(&self) -> Seq<CommandEntry> {
        self.entries@
    }
}

/// Run `command` on the window capability `w`. With a single exposed
/// operation, dispatch reduces to the one handler.
pub fn run_command(command: Command, w: &mut WindowState, value: bool) -> (r: Result<
    (),
    CommandError,
>)
    ensures
        *final(w) == set_state_spec(*old(w), value),
        r == set_result_spec(*old(w), value),
{
    match command {
        Command::SetAlwaysOnTop => w.set_always_on_top(value),
    }
}

impl CommandRegistry {
    /// An empty table.
    pub fn new() -> (r: CommandRegistry)
        ensures
            r@ == Seq::<CommandEntry>::empty(),
    {
        CommandRegistry { entries: Vec::new() }
    }

    /// Bind `name` to `command` by appending a row to the table.
    pub fn register(&mut self, name: String, command: Command)
        ensures
            final(self)@ == old(self)@.push((CommandEntry { name, command })),
    {
        self.entries.push(CommandEntry { name, command });
    }

    /// The handler registered under `name`, if any: the first row whose name
    /// matches.
    pub fn lookup(&self, name: &String) -> (r: Option<Command>)
        ensures
            r == table_lookup(self@, name@),
    {
        let n = self.entries.len();
        let mut i: usize = 0;
        proof {
            assert(self@.subrange(0, n as int) =~= self@);
        }
        while i < n
            invariant
                n == self@.len(),
                0 <= i <= n,
                table_lookup(self@, name@) == table_lookup(
                    self@.subrange(i as int, n as int),
                    name@,
                ),
            decreases n - i,
        {
            let entry = &self.entries[i];
            if entry.name == *name {
                return Some(entry.command);
            }
            proof {
                assert(self@.subrange(i as int, n as int).subrange(
                    1,
                    (n - i) as int,
                ) =~= self@.subrange(i + 1, n as int));
            }
            i = i + 1;
        }
        proof {
            assert(self@.subrange(n as int, n as int) =~= Seq::<CommandEntry>::empty());
        }
        None
    }

    /// Dispatch an invocation: look `name` up and run the bound handler on
    /// `w` with the argument `value`. An unregistered name touches nothing
    /// and yields no result for the framework to deliver.
    pub fn dispatch(&self, name: &String, w: &mut WindowState, value: bool) -> (r: Option<
        Result<(), CommandError>,
    >)
        ensures
            table_lookup(self@, name@) is None ==> r is None && *final(w) == *old(w),
            table_lookup(self@, name@) == Some(Command::SetAlwaysOnTop) ==> {
                &&& r == Some(set_result_spec(*old(w), value))
                &&& *final(w) == set_state_spec(*old(w), value)
            },
    {
        match self.lookup(name) {
            Some(command) => Some(run_command(command, w, value)),
            None => None,
        }
    }

    /// The table the application bootstrap registers: exactly one command,
    /// `set_always_on_top`, bound to its handler.
    pub fn bootstrap() -> (r: CommandRegistry)
        ensures
            r@.len() == 1,
            table_lookup(r@, "set_always_on_top"@) == Some(Command::SetAlwaysOnTop),
            forall|n: Seq<char>|
                n != "set_always_on_top"@ ==> #[trigger] table_lookup(r@, n) is None,
    {
        let mut r = CommandRegistry::new();
        let name = String::from_str("set_always_on_top");
        r.register(name, Command::SetAlwaysOnTop);
        proof {
            assert(r@[0].name@ == "set_always_on_top"@);
            assert forall|n: Seq<char>|
                n != "set_always_on_top"@ implies #[trigger] table_lookup(r@, n) is None by {
                assert(r@.subrange(1, 1) =~= Seq::<CommandEntry>::empty());
                assert(table_lookup(r@.subrange(1, 1), n) is None);
            }
        }
        r
    }
}

} // verus!
