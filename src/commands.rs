use vstd::prelude::*;
use vstd::string::StringExecFns;

verus! {

/// What a command does when it is invoked.
#[derive(Debug, Clone, Copy, PartialEq, Eq, Structural)]
pub enum Handler {
    /// Answers with a greeting.
    Hello,
}

impl Handler {
    /// The text that the handler answers with.
    pub open spec fn reply_text(self) -> Seq<char> {
        match self {
            Handler::Hello => "hello"@,
        }
    }

    /// Runs the handler; it answers with exactly one text.
    pub fn reply(&self) -> (r: String)
        ensures
            r@ == self.reply_text(),
    {
        match self {
            Handler::Hello => String::from_str("hello"),
        }
    }
}

/// A command that the bot declares: its name, its description and its handler.
#[derive(Debug)]
pub struct CommandDescriptor {
    pub name: String,
    pub description: String,
    pub handler: Handler,
}

/// A command descriptor as a mathematical value.
pub struct CommandView {
    pub name: Seq<char>,
    pub description: Seq<char>,
    pub handler: Handler,
}

impl View for CommandDescriptor {
    type V = CommandView;

    open spec fn view(&self) -> CommandView {
        CommandView { name: self.name@, description: self.description@, handler: self.handler }
    }
}

/// No two commands share a name.
pub open spec fn names_unique(cmds: Seq<CommandView>) -> bool {
    forall|i: int, j: int|
        0 <= i < cmds.len() && 0 <= j < cmds.len() && i != j ==> cmds[i].name != cmds[j].name
}

/// Some command is named `name`.
pub open spec fn has_command(cmds: Seq<CommandView>, name: Seq<char>) -> bool {
    exists|i: int| 0 <= i < cmds.len() && cmds[i].name == name
}

/// The handler of the command named `name`, if there is one.
pub open spec fn handler_for(cmds: Seq<CommandView>, name: Seq<char>) -> Option<Handler> {
    if has_command(cmds, name) {
        Some(cmds[choose|i: int| 0 <= i < cmds.len() && cmds[i].name == name].handler)
    } else {
        None
    }
}

/// The commands that the bot declares at startup.
pub open spec fn standard_commands() -> Seq<CommandView> {
    seq![CommandView { name: "hello"@, description: "Say hello"@, handler: Handler::Hello }]
}

/// The set of commands, each name bound to one handler.
///
/// A name is registered once: a second registration under the same name is
/// rejected and leaves the registry as it was.
pub struct CommandRegistry {
    commands: Vec<CommandDescriptor>,
}

impl View for CommandRegistry {
    type V = Seq<CommandView>;

    closed spec fn view(&self) -> Seq<CommandView> {
        self.commands@.map_values(|c: CommandDescriptor| c@)
    }
}

impl CommandRegistry {
    #[verifier::type_invariant]
    spec fn inv(self) -> bool {
        names_unique(self@)
    }

    /// A registry with no commands.
    pub fn new() -> (r: CommandRegistry)
        ensures
            r@ == Seq::<CommandView>::empty(),
    {
        let r = CommandRegistry { commands: Vec::new() };
        assert(r@ =~= Seq::<CommandView>::empty());
        r
    }

    /// Whether a command named `name` is registered.
    pub fn contains(&self, name: &String) -> (r: bool)
        ensures
            r == has_command(self@, name@),
    {
        self.lookup_handler(name).is_some()
    }

    /// Registers a command, unless one of that name is registered already.
    ///
    /// Returns the registry that results, and whether the command was added.
    /// A rejected registration leaves the registry as it was.
    pub fn register(self, name: String, description: String, handler: Handler) -> (r: (
        CommandRegistry,
        bool,
    ))
        ensures
            r.1 == !has_command(self@, name@),
            r.1 ==> r.0@ == self@.push(CommandView { name: name@, description: description@, handler }),
            !r.1 ==> r.0@ == self@,
    {
        proof {
            use_type_invariant(&self);
        }
        if self.contains(&name) {
            return (self, false);
        }
        let ghost before = self@;
        let cmd = CommandDescriptor { name, description, handler };
        let mut commands = self.commands;
        commands.push(cmd);
        assert(commands@.map_values(|c: CommandDescriptor| c@) =~= before.push(cmd@));
        (CommandRegistry { commands }, true)
    }

    /// The handler of the command named `name`, if there is one.
    pub fn lookup_handler(&self, name: &String) -> (r: Option<Handler>)
        ensures
            r == handler_for(self@, name@),
    {
        proof {
            use_type_invariant(self);
        }
        let mut i: usize = 0;
        while i < self.commands.len()
            invariant
                i <= self.commands@.len(),
                names_unique(self@),
                forall|j: int| 0 <= j < i ==> self@[j].name != name@,
            decreases self.commands@.len() - i,
        {
            if self.commands[i].name == *name {
                assert(self@[i as int].name == name@);
                proof {
                    assert(has_command(self@, name@));
                    let k = choose|k: int| 0 <= k < self@.len() && self@[k].name == name@;
                    assert(k == i);
                }
                return Some(self.commands[i].handler);
            }
            i = i + 1;
        }
        None
    }

    /// The registered commands, in the order of their registration.
    pub fn commands(&self) -> (r: &Vec<CommandDescriptor>)
        ensures
            r@.map_values(|c: CommandDescriptor| c@) == self@,
    {
        &self.commands
    }

    /// The registry of the commands that the bot declares at startup.
    pub fn standard() -> (r: CommandRegistry)
        ensures
            r@ == standard_commands(),
    {
        let (r, _) = CommandRegistry::new().register(
            String::from_str("hello"),
            String::from_str("Say hello"),
            Handler::Hello,
        );
        assert(r@ =~= standard_commands());
        r
    }
}

/// What the dispatcher does with one interaction.
///
/// Either exactly one response is sent, or none is: a `Reply` never asks for
/// two.
#[derive(Debug)]
pub enum Reply {
    /// Send this text as the interaction's only response.
    Respond(String),
    /// No command of this name is registered: report it, invoke nothing and
    /// send nothing.
    UnknownCommand(String),
}

/// Matches an interaction to its command by name and runs the command's handler.
pub fn dispatch(registry: &CommandRegistry, name: &str) -> (r: Reply)
    ensures
        match handler_for(registry@, name@) {
            Some(h) => r is Respond && r->Respond_0@ == h.reply_text(),
            None => r is UnknownCommand && r->UnknownCommand_0@ == name@,
        },
{
    let name = String::from_str(name);
    match registry.lookup_handler(&name) {
        Some(handler) => Reply::Respond(handler.reply()),
        None => Reply::UnknownCommand(name),
    }
}

/// With the standard commands, the command `hello` is always answered with
/// the text `hello`.
pub proof fn hello_answers_hello(cmds: Seq<CommandView>)
    requires
        cmds == standard_commands(),
    ensures
        handler_for(cmds, "hello"@) == Some(Handler::Hello),
        Handler::Hello.reply_text() == "hello"@,
{
    assert(cmds[0].name == "hello"@);
    assert(has_command(cmds, "hello"@));
    let k = choose|k: int| 0 <= k < cmds.len() && cmds[k].name == "hello"@;
    assert(k == 0);
}

} // verus!
