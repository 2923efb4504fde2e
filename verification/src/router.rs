//! Routing of CLI commands to their handlers: each command name maps to a
//! handler, which turns the command's arguments into a command result.

use vstd::prelude::*;
use crate::components::ComponentHandle;
use crate::named_map::{entry_names, lookup, NamedMap};
use crate::orchestrator::{result_view, CommandResult, CommandView};
use crate::outside::{elapsed_micros, instant_now};
use crate::sarif::texts;
use crate::sarif_roles::{first_key_index, upsert};
use crate::text::{decimal_string, decimal_text, str_eq};

verus! {

/// The handlers the router knows.
#[derive(Debug, Clone, Copy, PartialEq, Eq, Structural)]
pub enum CommandKind {
    /// Build a hook
    Build,
    /// Generate a Lefthook configuration
    Generate,
    /// Manage worktrees
    Worktree,
    /// Validate a configuration
    Validate,
    /// List components and hooks
    List,
    /// Install hooks
    Install,
    /// Test the CLI
    Test,
}

/// A successful result with some output.
pub open spec fn ok_view(output: Seq<char>) -> CommandView {
    (true, output, None, 0)
}

/// A failed result with an error.
pub open spec fn failed_view(error: Seq<char>) -> CommandView {
    (false, Seq::empty(), Some(error), 0)
}

/// The first argument, or a default.
pub open spec fn arg_or(args: Seq<Seq<char>>, default: Seq<char>) -> Seq<char> {
    if args.len() > 0 {
        args[0]
    } else {
        default
    }
}

/// What the build handler gives for its arguments.
pub open spec fn build_view(args: Seq<Seq<char>>) -> CommandView {
    if args.len() == 0 {
        failed_view("Hook name is required"@)
    } else {
        let out = if args.len() > 1 {
            args[1]
        } else {
            "target/hooks"@
        };
        ok_view("Built hook '"@ + args[0] + "' to '"@ + out + "'"@)
    }
}

/// What the generate handler gives for its arguments.
pub open spec fn generate_view(args: Seq<Seq<char>>) -> CommandView {
    ok_view("Generated Lefthook configuration: "@ + arg_or(args, "lefthook.yml"@))
}

/// What the worktree handler gives for its arguments.
pub open spec fn worktree_view(args: Seq<Seq<char>>) -> CommandView {
    if args.len() == 0 {
        failed_view("Worktree operation is required"@)
    } else {
        let op = args[0];
        let rest = args.drop_first();
        if op == "create"@ {
            if rest.len() == 0 {
                failed_view("Branch name is required for create operation"@)
            } else {
                ok_view("Created worktree for branch: "@ + rest[0])
            }
        } else if op == "list"@ {
            ok_view("Available worktrees:\n- main\n- feature/new-feature"@)
        } else if op == "switch"@ {
            if rest.len() == 0 {
                failed_view("Worktree name is required for switch operation"@)
            } else {
                ok_view("Switched to worktree: "@ + rest[0])
            }
        } else if op == "remove"@ {
            if rest.len() == 0 {
                failed_view("Worktree name is required for remove operation"@)
            } else {
                let with_branch = rest.len() > 1 && rest[1] == "--with-branch"@;
                ok_view(
                    "Removed worktree: "@ + rest[0] + " (with_branch: "@ + (if with_branch {
                        "true"@
                    } else {
                        "false"@
                    }) + ")"@,
                )
            }
        } else {
            failed_view("Unknown worktree operation: "@ + op)
        }
    }
}

/// What the validate handler gives for its arguments.
pub open spec fn validate_view(args: Seq<Seq<char>>) -> CommandView {
    ok_view("Configuration validated successfully: "@ + arg_or(args, "lefthook.yml"@))
}

/// One line per component: its name and number of functions.
pub open spec fn component_lines(cs: Seq<(Seq<char>, ComponentHandle)>) -> Seq<char>
    decreases cs.len(),
{
    if cs.len() == 0 {
        Seq::empty()
    } else {
        component_lines(cs.drop_last()) + "- "@ + cs.last().0 + " ("@ + decimal_text(cs.last().1.meta().functions@.len())
            + " functions)\n"@
    }
}

/// What the list handler gives for the loaded components.
pub open spec fn list_view(cs: Seq<(Seq<char>, ComponentHandle)>) -> CommandView {
    ok_view(
        "Available components:\n"@ + component_lines(cs) + "\nAvailable hooks:\n"@ + "- pre-commit\n"@ + "- pre-push\n"@
            + "- post-commit\n"@,
    )
}

/// One line per hook.
pub open spec fn hook_lines(hooks: Seq<Seq<char>>) -> Seq<char>
    decreases hooks.len(),
{
    if hooks.len() == 0 {
        Seq::empty()
    } else {
        hook_lines(hooks.drop_last()) + "- "@ + hooks.last() + "\n"@
    }
}

/// What the install handler gives for its arguments.
pub open spec fn install_view(args: Seq<Seq<char>>) -> CommandView {
    let hooks = if args.len() == 0 {
        seq!["pre-commit"@, "pre-push"@]
    } else {
        args
    };
    ok_view("Installing hooks:\n"@ + hook_lines(hooks))
}

/// What the test handler gives for its arguments.
pub open spec fn test_view(args: Seq<Seq<char>>) -> CommandView {
    ok_view("Test successful: "@ + arg_or(args, "Hello from Hooksmith"@))
}

/// What a handler gives for arguments and loaded components.
pub open spec fn handler_view(kind: CommandKind, args: Seq<Seq<char>>, cs: Seq<(Seq<char>, ComponentHandle)>) -> CommandView {
    match kind {
        CommandKind::Build => build_view(args),
        CommandKind::Generate => generate_view(args),
        CommandKind::Worktree => worktree_view(args),
        CommandKind::Validate => validate_view(args),
        CommandKind::List => list_view(cs),
        CommandKind::Install => install_view(args),
        CommandKind::Test => test_view(args),
    }
}

/// The commands every router starts with, in order.
pub open spec fn default_handlers() -> Seq<(Seq<char>, CommandKind)> {
    seq![
        ("build"@, CommandKind::Build),
        ("generate"@, CommandKind::Generate),
        ("worktree"@, CommandKind::Worktree),
        ("validate"@, CommandKind::Validate),
        ("list"@, CommandKind::List),
        ("install"@, CommandKind::Install),
        ("test"@, CommandKind::Test),
    ]
}

/// The help text of a command.
pub open spec fn help_text(command: Seq<char>) -> Option<Seq<char>> {
    if command == "build"@ {
        Some("Build a hook from source: build <hook-name> [output-dir]"@)
    } else if command == "generate"@ {
        Some("Generate Lefthook configuration: generate [output-file]"@)
    } else if command == "worktree"@ {
        Some("Manage worktrees: worktree <operation> [args...]"@)
    } else if command == "validate"@ {
        Some("Validate configuration: validate [config-path]"@)
    } else if command == "list"@ {
        Some("List available components and hooks: list"@)
    } else if command == "install"@ {
        Some("Install hooks: install [hook-names...]"@)
    } else if command == "test"@ {
        Some("Test the CLI: test [message]"@)
    } else {
        None
    }
}

/// A successful result.
fn ok(output: String) -> (r: CommandResult)
    ensures
        result_view(r) == ok_view(output@),
{
    CommandResult { success: true, output, error: None, duration_ms: 0 }
}

/// A failed result.
fn failed(error: &str) -> (r: CommandResult)
    ensures
        result_view(r) == failed_view(error@),
{
    CommandResult { success: false, output: String::new(), error: Some(error.to_owned()), duration_ms: 0 }
}

/// The first argument, or a default.
fn first_or(args: &Vec<String>, default: &str) -> (r: String)
    ensures
        r@ == arg_or(texts(args@), default@),
{
    if args.len() > 0 {
        args[0].clone()
    } else {
        default.to_owned()
    }
}

/// Routes commands to handlers.
pub struct CommandRouter {
    handlers: NamedMap<CommandKind>,
}

impl CommandRouter {
    /// The handler of each command.
    pub closed spec fn handlers(&self) -> Seq<(Seq<char>, CommandKind)> {
        self.handlers.entries()
    }

    /// A router with the default commands.
    pub fn new() -> (r: Self)
        ensures
            r.handlers() == default_handlers(),
    {
        let mut router = CommandRouter { handlers: NamedMap::new() };
        router.register_default_handlers();
        router
    }

    /// Register the default commands on an empty router.
    fn register_default_handlers(&mut self)
        requires
            old(self).handlers().len() == 0,
        ensures
            final(self).handlers() == default_handlers(),
    {
        proof {
            reveal_strlit("build");
            reveal_strlit("generate");
            reveal_strlit("worktree");
            reveal_strlit("validate");
            reveal_strlit("list");
            reveal_strlit("install");
            reveal_strlit("test");
        }
        let ghost p0 = self.handlers();
        assert(p0 == Seq::<(Seq<char>, CommandKind)>::empty());
        proof {
            crate::sarif_roles::lemma_first_key_found(p0, "build"@);
            assert(crate::sarif_roles::first_key_index(p0, "build"@) is None);
        }
        self.handlers.insert("build".to_owned(), CommandKind::Build);
        let ghost s0 = Seq::<(Seq<char>, CommandKind)>::empty().push(("build"@, CommandKind::Build));
        assert(self.handlers() =~= s0);
        let ghost p1 = self.handlers();
        assert(p1 == s0);
        proof {
            crate::sarif_roles::lemma_first_key_found(p1, "generate"@);
            assert(p1[0].0 == "build"@);
            assert("build"@.len() != "generate"@.len() || "build"@[0] != "generate"@[0]);
            assert(crate::sarif_roles::first_key_index(p1, "generate"@) is None);
        }
        self.handlers.insert("generate".to_owned(), CommandKind::Generate);
        let ghost s1 = s0.push(("generate"@, CommandKind::Generate));
        assert(self.handlers() =~= s1);
        let ghost p2 = self.handlers();
        assert(p2 == s1);
        proof {
            crate::sarif_roles::lemma_first_key_found(p2, "worktree"@);
            assert(p2[0].0 == "build"@);
            assert("build"@.len() != "worktree"@.len() || "build"@[0] != "worktree"@[0]);
            assert(p2[1].0 == "generate"@);
            assert("generate"@.len() != "worktree"@.len() || "generate"@[0] != "worktree"@[0]);
            assert(crate::sarif_roles::first_key_index(p2, "worktree"@) is None);
        }
        self.handlers.insert("worktree".to_owned(), CommandKind::Worktree);
        let ghost s2 = s1.push(("worktree"@, CommandKind::Worktree));
        assert(self.handlers() =~= s2);
        let ghost p3 = self.handlers();
        assert(p3 == s2);
        proof {
            crate::sarif_roles::lemma_first_key_found(p3, "validate"@);
            assert(p3[0].0 == "build"@);
            assert("build"@.len() != "validate"@.len() || "build"@[0] != "validate"@[0]);
            assert(p3[1].0 == "generate"@);
            assert("generate"@.len() != "validate"@.len() || "generate"@[0] != "validate"@[0]);
            assert(p3[2].0 == "worktree"@);
            assert("worktree"@.len() != "validate"@.len() || "worktree"@[0] != "validate"@[0]);
            assert(crate::sarif_roles::first_key_index(p3, "validate"@) is None);
        }
        self.handlers.insert("validate".to_owned(), CommandKind::Validate);
        let ghost s3 = s2.push(("validate"@, CommandKind::Validate));
        assert(self.handlers() =~= s3);
        let ghost p4 = self.handlers();
        assert(p4 == s3);
        proof {
            crate::sarif_roles::lemma_first_key_found(p4, "list"@);
            assert(p4[0].0 == "build"@);
            assert("build"@.len() != "list"@.len() || "build"@[0] != "list"@[0]);
            assert(p4[1].0 == "generate"@);
            assert("generate"@.len() != "list"@.len() || "generate"@[0] != "list"@[0]);
            assert(p4[2].0 == "worktree"@);
            assert("worktree"@.len() != "list"@.len() || "worktree"@[0] != "list"@[0]);
            assert(p4[3].0 == "validate"@);
            assert("validate"@.len() != "list"@.len() || "validate"@[0] != "list"@[0]);
            assert(crate::sarif_roles::first_key_index(p4, "list"@) is None);
        }
        self.handlers.insert("list".to_owned(), CommandKind::List);
        let ghost s4 = s3.push(("list"@, CommandKind::List));
        assert(self.handlers() =~= s4);
        let ghost p5 = self.handlers();
        assert(p5 == s4);
        proof {
            crate::sarif_roles::lemma_first_key_found(p5, "install"@);
            assert(p5[0].0 == "build"@);
            assert("build"@.len() != "install"@.len() || "build"@[0] != "install"@[0]);
            assert(p5[1].0 == "generate"@);
            assert("generate"@.len() != "install"@.len() || "generate"@[0] != "install"@[0]);
            assert(p5[2].0 == "worktree"@);
            assert("worktree"@.len() != "install"@.len() || "worktree"@[0] != "install"@[0]);
            assert(p5[3].0 == "validate"@);
            assert("validate"@.len() != "install"@.len() || "validate"@[0] != "install"@[0]);
            assert(p5[4].0 == "list"@);
            assert("list"@.len() != "install"@.len() || "list"@[0] != "install"@[0]);
            assert(crate::sarif_roles::first_key_index(p5, "install"@) is None);
        }
        self.handlers.insert("install".to_owned(), CommandKind::Install);
        let ghost s5 = s4.push(("install"@, CommandKind::Install));
        assert(self.handlers() =~= s5);
        let ghost p6 = self.handlers();
        assert(p6 == s5);
        proof {
            crate::sarif_roles::lemma_first_key_found(p6, "test"@);
            assert(p6[0].0 == "build"@);
            assert("build"@.len() != "test"@.len() || "build"@[0] != "test"@[0]);
            assert(p6[1].0 == "generate"@);
            assert("generate"@.len() != "test"@.len() || "generate"@[0] != "test"@[0]);
            assert(p6[2].0 == "worktree"@);
            assert("worktree"@.len() != "test"@.len() || "worktree"@[0] != "test"@[0]);
            assert(p6[3].0 == "validate"@);
            assert("validate"@.len() != "test"@.len() || "validate"@[0] != "test"@[0]);
            assert(p6[4].0 == "list"@);
            assert("list"@.len() != "test"@.len() || "list"@[0] != "test"@[0]);
            assert(p6[5].0 == "install"@);
            assert("install"@.len() != "test"@.len() || "install"@[0] != "test"@[0]);
            assert(crate::sarif_roles::first_key_index(p6, "test"@) is None);
        }
        self.handlers.insert("test".to_owned(), CommandKind::Test);
        let ghost s6 = s5.push(("test"@, CommandKind::Test));
        assert(self.handlers() =~= s6);
        assert(s6 =~= default_handlers());
    }

    /// Register a handler for a command, replacing any handler it had.
    pub fn register_handler(&mut self, command: &str, handler: CommandKind)
        ensures
            final(self).handlers() == upsert(old(self).handlers(), command@, handler),
    {
        self.handlers.insert(command.to_owned(), handler);
    }

    /// Execute a command: an error for a command with no handler, else
    /// what its handler gives, with the time it took.
    pub fn execute(&self, command: &str, args: Vec<String>, components: &NamedMap<ComponentHandle>) -> (r: Result<
        CommandResult,
        String,
    >)
        ensures
            match lookup(self.handlers(), command@) {
                None => r matches Err(e) && e@ == "Unknown command: "@ + command@,
                Some(kind) => r matches Ok(c) && {
                    let v = handler_view(kind, texts(args@), components.entries());
                    &&& c.success == v.0
                    &&& c.output@ == v.1
                    &&& crate::components::opt_text(c.error) == v.2
                },
            },
    {
        let start = instant_now();
        let kind = match self.handlers.get(command) {
            Some(k) => *k,
            None => {
                let mut e = "Unknown command: ".to_owned();
                e.append(command);
                return Err(e);
            },
        };
        let result = match Self::dispatch(kind, args, components) {
            Ok(c) => c,
            Err(e) => {
                return Err(e);
            },
        };
        let duration_ms = elapsed_micros(&start) / 1000;
        Ok(CommandResult { duration_ms, ..result })
    }

    /// Run the handler of a kind.
    fn dispatch(kind: CommandKind, args: Vec<String>, components: &NamedMap<ComponentHandle>) -> (r: Result<CommandResult, String>)
        ensures
            r matches Ok(c) && result_view(c) == handler_view(kind, texts(args@), components.entries()),
    {
        match kind {
            CommandKind::Build => Self::handle_build(args, components),
            CommandKind::Generate => Self::handle_generate(args, components),
            CommandKind::Worktree => Self::handle_worktree(args, components),
            CommandKind::Validate => Self::handle_validate(args, components),
            CommandKind::List => Self::handle_list(args, components),
            CommandKind::Install => Self::handle_install(args, components),
            CommandKind::Test => Self::handle_test(args, components),
        }
    }

    /// Build a hook: the hook name, then an optional output directory.
    pub fn handle_build(args: Vec<String>, components: &NamedMap<ComponentHandle>) -> (r: Result<CommandResult, String>)
        ensures
            r matches Ok(c) && result_view(c) == build_view(texts(args@)),
    {
        if args.len() == 0 {
            return Ok(failed("Hook name is required"));
        }
        let output_dir = if args.len() > 1 {
            args[1].clone()
        } else {
            "target/hooks".to_owned()
        };
        let mut out = "Built hook '".to_owned();
        out.append(args[0].as_str());
        out.append("' to '");
        out.append(output_dir.as_str());
        out.append("'");
        Ok(ok(out))
    }

    /// Generate a Lefthook configuration: an optional output file.
    pub fn handle_generate(args: Vec<String>, components: &NamedMap<ComponentHandle>) -> (r: Result<CommandResult, String>)
        ensures
            r matches Ok(c) && result_view(c) == generate_view(texts(args@)),
    {
        let output_file = first_or(&args, "lefthook.yml");
        let mut out = "Generated Lefthook configuration: ".to_owned();
        out.append(output_file.as_str());
        Ok(ok(out))
    }

    /// Manage worktrees: an operation (`create`, `list`, `switch`,
    /// `remove`) and its arguments.
    pub fn handle_worktree(args: Vec<String>, components: &NamedMap<ComponentHandle>) -> (r: Result<CommandResult, String>)
        ensures
            r matches Ok(c) && result_view(c) == worktree_view(texts(args@)),
    {
        if args.len() == 0 {
            return Ok(failed("Worktree operation is required"));
        }
        let ghost a = texts(args@);
        let ghost rest = a.drop_first();
        assert(forall|j: int| 0 <= j < rest.len() ==> #[trigger] rest[j] == args@[j + 1]@);
        let op = args[0].as_str();
        if str_eq(op, "create") {
            if args.len() < 2 {
                return Ok(failed("Branch name is required for create operation"));
            }
            let mut out = "Created worktree for branch: ".to_owned();
            out.append(args[1].as_str());
            Ok(ok(out))
        } else if str_eq(op, "list") {
            Ok(ok("Available worktrees:\n- main\n- feature/new-feature".to_owned()))
        } else if str_eq(op, "switch") {
            if args.len() < 2 {
                return Ok(failed("Worktree name is required for switch operation"));
            }
            let mut out = "Switched to worktree: ".to_owned();
            out.append(args[1].as_str());
            Ok(ok(out))
        } else if str_eq(op, "remove") {
            if args.len() < 2 {
                return Ok(failed("Worktree name is required for remove operation"));
            }
            let with_branch = args.len() > 2 && str_eq(args[2].as_str(), "--with-branch");
            let mut out = "Removed worktree: ".to_owned();
            out.append(args[1].as_str());
            out.append(" (with_branch: ");
            out.append(if with_branch { "true" } else { "false" });
            out.append(")");
            Ok(ok(out))
        } else {
            let mut e = "Unknown worktree operation: ".to_owned();
            e.append(op);
            Ok(failed(e.as_str()))
        }
    }

    /// Validate a configuration: an optional configuration path.
    pub fn handle_validate(args: Vec<String>, components: &NamedMap<ComponentHandle>) -> (r: Result<CommandResult, String>)
        ensures
            r matches Ok(c) && result_view(c) == validate_view(texts(args@)),
    {
        let config_path = first_or(&args, "lefthook.yml");
        let mut out = "Configuration validated successfully: ".to_owned();
        out.append(config_path.as_str());
        Ok(ok(out))
    }

    /// List the loaded components, with their number of functions, and the
    /// available hooks.
    pub fn handle_list(args: Vec<String>, components: &NamedMap<ComponentHandle>) -> (r: Result<CommandResult, String>)
        ensures
            r matches Ok(c) && result_view(c) == list_view(components.entries()),
    {
        let ghost cs = components.entries();
        let mut output = "Available components:\n".to_owned();
        let mut i: usize = 0;
        while i < components.len()
            invariant
                i <= cs.len(),
                cs == components.entries(),
                output@ == "Available components:\n"@ + component_lines(cs.take(i as int)),
            decreases cs.len() - i,
        {
            let (name, c) = components.entry_at(i);
            let fs = c.available_functions();
            let n = fs.len();
            assert(texts(fs@).len() == n);
            assert(crate::components::function_names(c.meta().functions@).len() == c.meta().functions@.len());
            output.append("- ");
            output.append(name.as_str());
            output.append(" (");
            let count = decimal_string(n as u64);
            output.append(count.as_str());
            output.append(" functions)\n");
            assert(cs.take(i + 1).drop_last() =~= cs.take(i as int));
            i = i + 1;
        }
        assert(cs.take(cs.len() as int) =~= cs);
        output.append("\nAvailable hooks:\n");
        output.append("- pre-commit\n");
        output.append("- pre-push\n");
        output.append("- post-commit\n");
        Ok(ok(output))
    }

    /// Install hooks: the hooks named, or the pre-commit and pre-push hooks.
    pub fn handle_install(args: Vec<String>, components: &NamedMap<ComponentHandle>) -> (r: Result<CommandResult, String>)
        ensures
            r matches Ok(c) && result_view(c) == install_view(texts(args@)),
    {
        let hooks = if args.len() == 0 {
            vec!["pre-commit".to_owned(), "pre-push".to_owned()]
        } else {
            args
        };
        let ghost hs = texts(hooks@);
        assert(hs == if texts(args@).len() == 0 {
            seq!["pre-commit"@, "pre-push"@]
        } else {
            texts(args@)
        });
        let mut output = "Installing hooks:\n".to_owned();
        let mut i: usize = 0;
        while i < hooks.len()
            invariant
                i <= hooks@.len(),
                hs == texts(hooks@),
                output@ == "Installing hooks:\n"@ + hook_lines(hs.take(i as int)),
            decreases hooks@.len() - i,
        {
            output.append("- ");
            output.append(hooks[i].as_str());
            output.append("\n");
            assert(hs.take(i + 1).drop_last() =~= hs.take(i as int));
            i = i + 1;
        }
        assert(hs.take(hs.len() as int) =~= hs);
        Ok(ok(output))
    }

    /// Test the CLI: an optional message.
    pub fn handle_test(args: Vec<String>, components: &NamedMap<ComponentHandle>) -> (r: Result<CommandResult, String>)
        ensures
            r matches Ok(c) && result_view(c) == test_view(texts(args@)),
    {
        let message = first_or(&args, "Hello from Hooksmith");
        let mut out = "Test successful: ".to_owned();
        out.append(message.as_str());
        Ok(ok(out))
    }

    /// The commands with a handler, in order.
    pub fn list_commands(&self) -> (r: Vec<String>)
        ensures
            texts(r@) == entry_names(self.handlers()),
    {
        self.handlers.names()
    }

    /// Whether a command has a handler.
    pub fn has_command(&self, command: &str) -> (r: bool)
        ensures
            r == lookup(self.handlers(), command@) is Some,
    {
        self.handlers.contains_key(command)
    }

    /// The help text of a command.
    pub fn get_command_help(&self, command: &str) -> (r: Option<String>)
        ensures
            match help_text(command@) {
                Some(h) => r matches Some(s) && s@ == h,
                None => r is None,
            },
    {
        if str_eq(command, "build") {
            Some("Build a hook from source: build <hook-name> [output-dir]".to_owned())
        } else if str_eq(command, "generate") {
            Some("Generate Lefthook configuration: generate [output-file]".to_owned())
        } else if str_eq(command, "worktree") {
            Some("Manage worktrees: worktree <operation> [args...]".to_owned())
        } else if str_eq(command, "validate") {
            Some("Validate configuration: validate [config-path]".to_owned())
        } else if str_eq(command, "list") {
            Some("List available components and hooks: list".to_owned())
        } else if str_eq(command, "install") {
            Some("Install hooks: install [hook-names...]".to_owned())
        } else if str_eq(command, "test") {
            Some("Test the CLI: test [message]".to_owned())
        } else {
            None
        }
    }
}

/// Output format for command results.
#[derive(Debug, Clone, Copy, PartialEq, Eq, Structural)]
pub enum OutputFormat {
    /// Text output format
    Text,
    /// JSON output format
    Json,
    /// YAML output format
    Yaml,
}

/// Command execution options.
#[derive(Debug, Clone)]
pub struct CommandOptions {
    /// Whether to enable verbose output
    pub verbose: bool,
    /// Whether to enable dry run mode
    pub dry_run: bool,
    /// Output format
    pub output_format: OutputFormat,
}

impl Default for CommandOptions {
    fn default() -> (r: Self)
        ensures
            !r.verbose,
            !r.dry_run,
            r.output_format == OutputFormat::Text,
    {
        CommandOptions { verbose: false, dry_run: false, output_format: OutputFormat::Text }
    }
}

/// Command execution context.
#[derive(Clone)]
pub struct CommandContext {
    /// Command name
    pub command: String,
    /// Command arguments
    pub args: Vec<String>,
    /// Available components
    pub components: NamedMap<ComponentHandle>,
    /// Execution options
    pub options: CommandOptions,
}

} // verus!
