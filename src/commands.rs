//! The command schema the bot offers, and when a registered command has to
//! be registered again.
use vstd::prelude::*;

use crate::text::same_text;

verus! {

/// One option of a command: its name, description, kind (the platform's
/// numeric option type) and whether it is required.
#[derive(Clone, Debug)]
pub struct CommandOption {
    pub name: String,
    pub description: String,
    pub kind: u8,
    pub required: bool,
}

/// A command: its name, description and options.
#[derive(Clone, Debug)]
pub struct CommandConfig {
    pub name: String,
    pub description: String,
    pub options: Vec<CommandOption>,
}

/// The first of `options` named `name`.
pub open spec fn option_named(options: Seq<CommandOption>, name: Seq<char>) -> Option<CommandOption>
    decreases options.len(),
{
    if options.len() == 0 {
        None
    } else if options[0].name@ == name {
        Some(options[0])
    } else {
        option_named(options.drop_first(), name)
    }
}

/// Whether a registered option agrees with the configured option of its name.
pub open spec fn option_agrees(registered: CommandOption, configured: Seq<CommandOption>) -> bool {
    match option_named(configured, registered.name@) {
        Some(c) => c.description@ == registered.description@ && c.kind == registered.kind
            && c.required == registered.required,
        None => false,
    }
}

/// Whether the registered `command` is what `config` describes.
pub open spec fn equivalent(config: CommandConfig, command: CommandConfig) -> bool {
    &&& command.name@ == config.name@
    &&& command.description@ == config.description@
    &&& command.options@.len() == config.options@.len()
    &&& forall|i: int|
        0 <= i < command.options@.len() ==> option_agrees(
            #[trigger] command.options@[i],
            config.options@,
        )
}

/// The first of `commands` named `name`.
pub open spec fn command_named(commands: Seq<CommandConfig>, name: Seq<char>) -> Option<CommandConfig>
    decreases commands.len(),
{
    if commands.len() == 0 {
        None
    } else if commands[0].name@ == name {
        Some(commands[0])
    } else {
        command_named(commands.drop_first(), name)
    }
}

fn find_option(options: &Vec<CommandOption>, name: &str) -> (r: Option<usize>)
    ensures
        match r {
            Some(i) => i < options@.len() && option_named(options@, name@) == Some(options@[i as int]),
            None => option_named(options@, name@) is None,
        },
{
    let mut i: usize = 0;
    assert(options@.subrange(0, options@.len() as int) =~= options@);
    while i < options.len()
        invariant
            i <= options@.len(),
            option_named(options@, name@) == option_named(
                options@.subrange(i as int, options@.len() as int),
                name@,
            ),
        decreases options@.len() - i,
    {
        let ghost rest = options@.subrange(i as int, options@.len() as int);
        assert(rest.drop_first() =~= options@.subrange(i + 1, options@.len() as int));
        if same_text(options[i].name.as_str(), name) {
            return Some(i);
        }
        i = i + 1;
    }
    None
}

impl CommandConfig {
    /// Whether the registered `command` is what this configuration describes:
    /// same name, description and number of options, and each registered
    /// option agrees with the configured option of its name.
    pub fn is_equivalent(&self, command: &CommandConfig) -> (r: bool)
        ensures
            r == equivalent(*self, *command),
    {
        if !same_text(command.name.as_str(), self.name.as_str()) || !same_text(
            command.description.as_str(),
            self.description.as_str(),
        ) || command.options.len() != self.options.len() {
            return false;
        }
        let mut i: usize = 0;
        while i < command.options.len()
            invariant
                i <= command.options@.len(),
                forall|j: int|
                    0 <= j < i ==> option_agrees(#[trigger] command.options@[j], self.options@),
            decreases command.options@.len() - i,
        {
            let option = &command.options[i];
            match find_option(&self.options, option.name.as_str()) {
                Some(k) => {
                    let config = &self.options[k];
                    if !same_text(option.description.as_str(), config.description.as_str())
                        || option.kind != config.kind || option.required != config.required {
                        return false;
                    }
                },
                None => {
                    return false;
                },
            }
            i = i + 1;
        }
        true
    }

    /// Whether this configuration must be registered, given the commands
    /// already registered: when none has its name, or the first that has
    /// differs from it.
    pub fn needs_registration(&self, registered: &Vec<CommandConfig>) -> (r: bool)
        ensures
            r == match command_named(registered@, self.name@) {
                Some(c) => !equivalent(*self, c),
                None => true,
            },
    {
        let mut i: usize = 0;
        assert(registered@.subrange(0, registered@.len() as int) =~= registered@);
        while i < registered.len()
            invariant
                i <= registered@.len(),
                command_named(registered@, self.name@) == command_named(
                    registered@.subrange(i as int, registered@.len() as int),
                    self.name@,
                ),
            decreases registered@.len() - i,
        {
            let ghost rest = registered@.subrange(i as int, registered@.len() as int);
            assert(rest.drop_first() =~= registered@.subrange(i + 1, registered@.len() as int));
            if same_text(registered[i].name.as_str(), self.name.as_str()) {
                return !self.is_equivalent(&registered[i]);
            }
            i = i + 1;
        }
        true
    }
}

} // verus!
