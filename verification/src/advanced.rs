//! Typed options and commands of advanced tmux command families: shell
//! commands, key bindings, prompts, menus, popups, messages, clients and hooks.

use vstd::prelude::*;
use vstd::utf8::encode_utf8;
use crate::command::{
    command_with, env_args, env_view, flag_if, hidden_opt, number_bytes, number_opt, number_text, option_pair, plain,
    plain_bytes, text_opt, with_args, Command, CommandView,
};
use crate::error::{invalid_argument, invalid_argument_error, Error, ErrorView};
use crate::numeric::decimal;
use crate::options::{option_bytes, OptionValue};
use crate::pane::{pane_bytes, pane_target_args, widen};
use crate::server::{client_opt, client_text, env_inserted, insert_env, invalid_name, pane_opt, str_opt, valid_name, validate_name};
use crate::strmap::StrMap;
use crate::target::{ClientName, PaneId};
use crate::text::{lemma_map_push, TmuxText};
use crate::version::{gate, gate_passes, release_of, unsupported, TmuxVersion, TmuxVersionView};

verus! {

/// A `wait-for` action.
#[derive(Clone, Copy, Debug, Eq, Hash, PartialEq, Structural)]
pub enum WaitAction {
    /// Wait for a signal.
    Wait,
    /// Signal waiters (`-S`).
    Signal,
    /// Lock the channel (`-L`).
    Lock,
    /// Unlock the channel (`-U`).
    Unlock,
}

impl Default for WaitAction {
    fn default() -> (r: Self)
        ensures
            r == WaitAction::Wait,
    {
        WaitAction::Wait
    }
}

/// The flag of a wait action, if it has one.
pub open spec fn wait_args(a: WaitAction) -> Seq<(Seq<u8>, bool)> {
    match a {
        WaitAction::Wait => seq![],
        WaitAction::Signal => seq![plain("-S")],
        WaitAction::Lock => seq![plain("-L")],
        WaitAction::Unlock => seq![plain("-U")],
    }
}

/// A client permission for `server-access`.
#[derive(Clone, Copy, Debug, Eq, Hash, PartialEq, Structural)]
pub enum ClientPermission {
    /// Read-only access.
    ReadOnly,
    /// Read-write access.
    ReadWrite,
}

/// A `server-access` operation.
#[derive(Clone, Debug)]
pub enum ServerAccess {
    /// Allow a user with a permission.
    Allow {
        /// The user name.
        user: String,
        /// The granted permission.
        permission: ClientPermission,
    },
    /// Deny a user.
    Deny {
        /// The user name.
        user: String,
    },
    /// List the access table.
    List,
}

impl PartialEq for ServerAccess {
    fn eq(&self, other: &Self) -> (r: bool) {
        match (self, other) {
            (ServerAccess::Allow { user: a, permission: p }, ServerAccess::Allow { user: b, permission: q }) => *a == *b && *p == *q,
            (ServerAccess::Deny { user: a }, ServerAccess::Deny { user: b }) => *a == *b,
            (ServerAccess::List, ServerAccess::List) => true,
            _ => false,
        }
    }
}

impl vstd::std_specs::cmp::PartialEqSpecImpl for ServerAccess {
    open spec fn obeys_eq_spec() -> bool {
        true
    }

    open spec fn eq_spec(&self, other: &Self) -> bool {
        match (self, other) {
            (ServerAccess::Allow { user: a, permission: p }, ServerAccess::Allow { user: b, permission: q }) => a@ == b@ && p == q,
            (ServerAccess::Deny { user: a }, ServerAccess::Deny { user: b }) => a@ == b@,
            (ServerAccess::List, ServerAccess::List) => true,
            _ => false,
        }
    }
}

impl Eq for ServerAccess {}


/// A prompt type for prompt history and `command-prompt`.
#[derive(Clone, Copy, Debug, Eq, Hash, PartialEq, Structural)]
pub enum PromptType {
    /// Command prompts.
    Command,
    /// Search prompts.
    Search,
    /// Target prompts.
    Target,
    /// Window-target prompts.
    WindowTarget,
}

/// The name of a prompt type.
pub open spec fn prompt_type_name(p: PromptType) -> &'static str {
    match p {
        PromptType::Command => "command",
        PromptType::Search => "search",
        PromptType::Target => "target",
        PromptType::WindowTarget => "window-target",
    }
}

impl PromptType {
    /// The name of this prompt type.
    pub fn as_str(self) -> (r: &'static str)
        ensures
            r == prompt_type_name(self),
    {
        match self {
            PromptType::Command => "command",
            PromptType::Search => "search",
            PromptType::Target => "target",
            PromptType::WindowTarget => "window-target",
        }
    }
}

/// `-T TYPE` for an optional prompt type.
pub open spec fn prompt_type_args(p: Option<PromptType>) -> Seq<(Seq<u8>, bool)> {
    match p {
        Some(t) => seq![plain("-T"), plain(prompt_type_name(t))],
        None => seq![],
    }
}

fn push_prompt_type(command: Command, p: Option<PromptType>) -> (r: Command)
    ensures
        r@ == with_args(command@, prompt_type_args(p)),
{
    let r = match p {
        Some(t) => command.arg("-T").arg(t.as_str()),
        None => command,
    };
    assert(r@.arguments =~= command@.arguments + prompt_type_args(p));
    r
}

/// One item of a menu.
#[derive(Clone, Debug)]
pub enum MenuItem {
    /// A selectable entry.
    Entry {
        /// The displayed label.
        label: TmuxText,
        /// The shortcut key.
        key: TmuxText,
        /// The command to run.
        command: TmuxText,
    },
    /// A separator line.
    Separator,
}

/// The mathematical content of a [`MenuItem`].
pub enum MenuItemView {
    Entry { label: Seq<u8>, key: Seq<u8>, command: Seq<u8> },
    Separator,
}

impl PartialEq for MenuItem {
    fn eq(&self, other: &Self) -> (r: bool) {
        match (self, other) {
            (MenuItem::Entry { label: a, key: b, command: c }, MenuItem::Entry { label: x, key: y, command: z }) => {
                *a == *x && *b == *y && *c == *z
            },
            (MenuItem::Separator, MenuItem::Separator) => true,
            _ => false,
        }
    }
}

impl vstd::std_specs::cmp::PartialEqSpecImpl for MenuItem {
    open spec fn obeys_eq_spec() -> bool {
        true
    }

    open spec fn eq_spec(&self, other: &Self) -> bool {
        self@ == other@
    }
}

impl Eq for MenuItem {}

impl View for MenuItem {
    type V = MenuItemView;

    open spec fn view(&self) -> MenuItemView {
        match self {
            MenuItem::Entry { label, key, command } => MenuItemView::Entry { label: label@, key: key@, command: command@ },
            MenuItem::Separator => MenuItemView::Separator,
        }
    }
}

impl MenuItem {
    /// Creates a selectable entry.
    pub fn entry(label: TmuxText, key: TmuxText, command: TmuxText) -> (r: Self)
        ensures
            r@ == (MenuItemView::Entry { label: label@, key: key@, command: command@ }),
    {
        MenuItem::Entry { label, key, command }
    }
}

/// The scope of a hook command.
#[derive(Clone, Copy, Debug, Eq, Hash, PartialEq, Structural)]
pub enum HookScope {
    /// Global hooks (`-g`).
    Global,
    /// Session hooks.
    Session,
    /// Window hooks (`-w`).
    Window,
    /// Pane hooks (`-p`).
    Pane,
}

/// The flag of a hook scope, if it has one.
pub open spec fn hook_scope_args(s: HookScope) -> Seq<(Seq<u8>, bool)> {
    match s {
        HookScope::Global => seq![plain("-g")],
        HookScope::Session => seq![],
        HookScope::Window => seq![plain("-w")],
        HookScope::Pane => seq![plain("-p")],
    }
}

fn push_hook_scope(command: Command, s: HookScope) -> (r: Command)
    ensures
        r@ == with_args(command@, hook_scope_args(s)),
{
    let r = match s {
        HookScope::Global => command.arg("-g"),
        HookScope::Session => command,
        HookScope::Window => command.arg("-w"),
        HookScope::Pane => command.arg("-p"),
    };
    assert(r@.arguments =~= command@.arguments + hook_scope_args(s));
    r
}

/// Options for `run-shell`.
#[derive(Clone, Debug)]
pub struct RunShell {
    command: TmuxText,
    background: bool,
    delay: Option<TmuxText>,
    as_tmux_command: bool,
    target: Option<PaneId>,
    cwd: Option<TmuxText>,
    show_stderr: bool,
    arguments: Vec<TmuxText>,
}

/// The mathematical content of [`RunShell`].
pub struct RunShellView {
    pub command: Seq<u8>,
    pub background: bool,
    pub delay: Option<Seq<u8>>,
    pub as_tmux_command: bool,
    pub target: Option<u64>,
    pub cwd: Option<Seq<u8>>,
    pub show_stderr: bool,
    pub arguments: Seq<Seq<u8>>,
}

impl View for RunShell {
    type V = RunShellView;

    closed spec fn view(&self) -> RunShellView {
        RunShellView {
            command: self.command@,
            background: self.background,
            delay: text_opt(self.delay),
            as_tmux_command: self.as_tmux_command,
            target: pane_opt(self.target),
            cwd: text_opt(self.cwd),
            show_stderr: self.show_stderr,
            arguments: self.arguments@.map_values(|t: TmuxText| t@),
        }
    }
}

impl RunShell {
    /// Creates options for a shell command.
    pub fn new(command: TmuxText) -> (r: Self)
        ensures
            r@ == (RunShellView { command: command@, background: false, delay: None, as_tmux_command: false, target: None, cwd: None, show_stderr: false, arguments: Seq::empty() }),
    {
        let r = RunShell { command: command, background: false, delay: None, as_tmux_command: false, target: None, cwd: None, show_stderr: false, arguments: Vec::new() };
        assert(r@.arguments =~= Seq::empty());
        r
    }

    /// Runs the command in the background.
    pub fn background(self, enabled: bool) -> (r: Self)
        ensures
            r@ == (RunShellView { background: enabled, ..self@ }),
    {
        let mut s = self;
        s.background = enabled;
        s
    }

    /// Whether the job runs in the background, returning no output.
    pub fn is_background(&self) -> (r: bool)
        ensures
            r == self@.background,
    {
        self.background
    }

    /// Sets the delay before running, as tmux reads seconds (`-d`).
    pub fn delay_text(self, value: TmuxText) -> (r: Self)
        ensures
            r@ == (RunShellView { delay: Some(value@), ..self@ }),
    {
        let mut s = self;
        s.delay = Some(value);
        s
    }

    /// Runs a tmux command instead of a shell command.
    pub fn as_tmux_command(self, enabled: bool) -> (r: Self)
        ensures
            r@ == (RunShellView { as_tmux_command: enabled, ..self@ }),
    {
        let mut s = self;
        s.as_tmux_command = enabled;
        s
    }

    /// Sets the target pane.
    pub fn target(self, pane: PaneId) -> (r: Self)
        ensures
            r@ == (RunShellView { target: Some(pane@), ..self@ }),
    {
        let mut s = self;
        s.target = Some(pane);
        s
    }

    /// Sets the working directory (tmux 3.4+).
    pub fn cwd(self, value: TmuxText) -> (r: Self)
        ensures
            r@ == (RunShellView { cwd: Some(value@), ..self@ }),
    {
        let mut s = self;
        s.cwd = Some(value);
        s
    }

    /// Forwards standard error (tmux 3.6+).
    pub fn show_stderr(self, enabled: bool) -> (r: Self)
        ensures
            r@ == (RunShellView { show_stderr: enabled, ..self@ }),
    {
        let mut s = self;
        s.show_stderr = enabled;
        s
    }

    /// Appends positional arguments (tmux 3.7+).
    pub fn arguments(self, arguments: Vec<TmuxText>) -> (r: Self)
        ensures
            r@ == (RunShellView { arguments: self@.arguments + arguments@.map_values(|t: TmuxText| t@), ..self@ }),
    {
        let mut s = self;
        let ghost start = s.arguments@.map_values(|t: TmuxText| t@);
        let mut k: usize = 0;
        while k < arguments.len()
            invariant
                k <= arguments@.len(),
                s.arguments@.map_values(|t: TmuxText| t@) == start + arguments@.take(k as int).map_values(|t: TmuxText| t@),
                start == self@.arguments,
                s@ == (RunShellView { arguments: s@.arguments, ..self@ }),
            decreases arguments.len() - k,
        {
            let a = arguments[k].clone();
            proof {
                lemma_map_push(s.arguments@, a, |t: TmuxText| t@);
                assert(arguments@.take(k + 1).map_values(|t: TmuxText| t@) =~= arguments@.take(k as int).map_values(|t: TmuxText| t@).push(a@));
            }
            s.arguments.push(a);
            k = k + 1;
        }
        assert(arguments@.take(arguments@.len() as int) =~= arguments@);
        s
    }
}

/// Arguments for `bind-key`.
#[derive(Clone, Debug)]
pub struct KeyBinding {
    key: TmuxText,
    command: TmuxText,
    table: Option<TmuxText>,
    note: Option<TmuxText>,
    repeat: bool,
    root: bool,
}

/// The mathematical content of [`KeyBinding`].
pub struct KeyBindingView {
    pub key: Seq<u8>,
    pub command: Seq<u8>,
    pub table: Option<Seq<u8>>,
    pub note: Option<Seq<u8>>,
    pub repeat: bool,
    pub root: bool,
}

impl View for KeyBinding {
    type V = KeyBindingView;

    closed spec fn view(&self) -> KeyBindingView {
        KeyBindingView {
            key: self.key@,
            command: self.command@,
            table: text_opt(self.table),
            note: text_opt(self.note),
            repeat: self.repeat,
            root: self.root,
        }
    }
}

impl KeyBinding {
    /// Creates a binding of a key to a command.
    pub fn new(key: TmuxText, command: TmuxText) -> (r: Self)
        ensures
            r@ == (KeyBindingView { key: key@, command: command@, table: None, note: None, repeat: false, root: false }),
    {
        let r = KeyBinding { key: key, command: command, table: None, note: None, repeat: false, root: false };
        r
    }

    /// Sets the key table.
    pub fn table(self, value: TmuxText) -> (r: Self)
        ensures
            r@ == (KeyBindingView { table: Some(value@), ..self@ }),
    {
        let mut s = self;
        s.table = Some(value);
        s
    }

    /// Sets a note.
    pub fn note(self, value: TmuxText) -> (r: Self)
        ensures
            r@ == (KeyBindingView { note: Some(value@), ..self@ }),
    {
        let mut s = self;
        s.note = Some(value);
        s
    }

    /// Makes the binding repeatable.
    pub fn repeat(self, enabled: bool) -> (r: Self)
        ensures
            r@ == (KeyBindingView { repeat: enabled, ..self@ }),
    {
        let mut s = self;
        s.repeat = enabled;
        s
    }

    /// Binds in the root table.
    pub fn root(self, enabled: bool) -> (r: Self)
        ensures
            r@ == (KeyBindingView { root: enabled, ..self@ }),
    {
        let mut s = self;
        s.root = enabled;
        s
    }

}

/// Arguments for `unbind-key`.
#[derive(Clone, Debug)]
pub struct UnbindKey {
    key: Option<TmuxText>,
    table: Option<TmuxText>,
    all: bool,
    quiet: bool,
}

/// The mathematical content of [`UnbindKey`].
pub struct UnbindKeyView {
    pub key: Option<Seq<u8>>,
    pub table: Option<Seq<u8>>,
    pub all: bool,
    pub quiet: bool,
}

impl View for UnbindKey {
    type V = UnbindKeyView;

    closed spec fn view(&self) -> UnbindKeyView {
        UnbindKeyView {
            key: text_opt(self.key),
            table: text_opt(self.table),
            all: self.all,
            quiet: self.quiet,
        }
    }
}

impl Default for UnbindKey {
    /// The same value as `UnbindKey::new()`.
    fn default() -> (r: Self)
        ensures
            r@ == (UnbindKeyView { key: None, table: None, all: false, quiet: false }),
    {
        UnbindKey::new()
    }
}

impl UnbindKey {
    /// Creates empty unbinding arguments.
    pub fn new() -> (r: Self)
        ensures
            r@ == (UnbindKeyView { key: None, table: None, all: false, quiet: false }),
    {
        let r = UnbindKey { key: None, table: None, all: false, quiet: false };
        r
    }

    /// Selects the key.
    pub fn key(self, value: TmuxText) -> (r: Self)
        ensures
            r@ == (UnbindKeyView { key: Some(value@), ..self@ }),
    {
        let mut s = self;
        s.key = Some(value);
        s
    }

    /// Selects the key table.
    pub fn table(self, value: TmuxText) -> (r: Self)
        ensures
            r@ == (UnbindKeyView { table: Some(value@), ..self@ }),
    {
        let mut s = self;
        s.table = Some(value);
        s
    }

    /// Removes every binding in the table.
    pub fn all(self, enabled: bool) -> (r: Self)
        ensures
            r@ == (UnbindKeyView { all: enabled, ..self@ }),
    {
        let mut s = self;
        s.all = enabled;
        s
    }

    /// Suppresses errors.
    pub fn quiet(self, enabled: bool) -> (r: Self)
        ensures
            r@ == (UnbindKeyView { quiet: enabled, ..self@ }),
    {
        let mut s = self;
        s.quiet = enabled;
        s
    }

}

/// Options for `confirm-before`.
#[derive(Clone, Debug)]
pub struct ConfirmBefore {
    command: TmuxText,
    prompt: Option<TmuxText>,
    confirm_key: Option<TmuxText>,
    default_yes: bool,
    target_client: Option<ClientName>,
}

/// The mathematical content of [`ConfirmBefore`].
pub struct ConfirmBeforeView {
    pub command: Seq<u8>,
    pub prompt: Option<Seq<u8>>,
    pub confirm_key: Option<Seq<u8>>,
    pub default_yes: bool,
    pub target_client: Option<Seq<u8>>,
}

impl View for ConfirmBefore {
    type V = ConfirmBeforeView;

    closed spec fn view(&self) -> ConfirmBeforeView {
        ConfirmBeforeView {
            command: self.command@,
            prompt: text_opt(self.prompt),
            confirm_key: text_opt(self.confirm_key),
            default_yes: self.default_yes,
            target_client: client_opt(self.target_client),
        }
    }
}

impl ConfirmBefore {
    /// Creates a confirmation for a command.
    pub fn new(command: TmuxText) -> (r: Self)
        ensures
            r@ == (ConfirmBeforeView { command: command@, prompt: None, confirm_key: None, default_yes: false, target_client: None }),
    {
        let r = ConfirmBefore { command: command, prompt: None, confirm_key: None, default_yes: false, target_client: None };
        r
    }

    /// Sets the prompt.
    pub fn prompt(self, value: TmuxText) -> (r: Self)
        ensures
            r@ == (ConfirmBeforeView { prompt: Some(value@), ..self@ }),
    {
        let mut s = self;
        s.prompt = Some(value);
        s
    }

    /// Sets the confirmation key (tmux 3.4+).
    pub fn confirm_key(self, value: TmuxText) -> (r: Self)
        ensures
            r@ == (ConfirmBeforeView { confirm_key: Some(value@), ..self@ }),
    {
        let mut s = self;
        s.confirm_key = Some(value);
        s
    }

    /// Makes Enter confirm (tmux 3.4+).
    pub fn default_yes(self, enabled: bool) -> (r: Self)
        ensures
            r@ == (ConfirmBeforeView { default_yes: enabled, ..self@ }),
    {
        let mut s = self;
        s.default_yes = enabled;
        s
    }

    /// Targets a client.
    pub fn target_client(self, client: ClientName) -> (r: Self)
        ensures
            r@ == (ConfirmBeforeView { target_client: Some(client@), ..self@ }),
    {
        let mut s = self;
        s.target_client = Some(client);
        s
    }

}

/// Options for `command-prompt`.
#[derive(Clone, Debug)]
pub struct CommandPrompt {
    template: TmuxText,
    prompt: Option<TmuxText>,
    inputs: Option<TmuxText>,
    target_client: Option<ClientName>,
    one_key: bool,
    key_only: bool,
    on_input_change: bool,
    numeric: bool,
    prompt_type: Option<PromptType>,
    expand_format: bool,
    literal: bool,
    backspace_exit: bool,
    no_freeze: bool,
}

/// The mathematical content of [`CommandPrompt`].
pub struct CommandPromptView {
    pub template: Seq<u8>,
    pub prompt: Option<Seq<u8>>,
    pub inputs: Option<Seq<u8>>,
    pub target_client: Option<Seq<u8>>,
    pub one_key: bool,
    pub key_only: bool,
    pub on_input_change: bool,
    pub numeric: bool,
    pub prompt_type: Option<PromptType>,
    pub expand_format: bool,
    pub literal: bool,
    pub backspace_exit: bool,
    pub no_freeze: bool,
}

impl View for CommandPrompt {
    type V = CommandPromptView;

    closed spec fn view(&self) -> CommandPromptView {
        CommandPromptView {
            template: self.template@,
            prompt: text_opt(self.prompt),
            inputs: text_opt(self.inputs),
            target_client: client_opt(self.target_client),
            one_key: self.one_key,
            key_only: self.key_only,
            on_input_change: self.on_input_change,
            numeric: self.numeric,
            prompt_type: self.prompt_type,
            expand_format: self.expand_format,
            literal: self.literal,
            backspace_exit: self.backspace_exit,
            no_freeze: self.no_freeze,
        }
    }
}

impl CommandPrompt {
    /// Creates a prompt for a command template.
    pub fn new(template: TmuxText) -> (r: Self)
        ensures
            r@ == (CommandPromptView { template: template@, prompt: None, inputs: None, target_client: None, one_key: false, key_only: false, on_input_change: false, numeric: false, prompt_type: None, expand_format: false, literal: false, backspace_exit: false, no_freeze: false }),
    {
        let r = CommandPrompt { template: template, prompt: None, inputs: None, target_client: None, one_key: false, key_only: false, on_input_change: false, numeric: false, prompt_type: None, expand_format: false, literal: false, backspace_exit: false, no_freeze: false };
        r
    }

    /// Sets prompts.
    pub fn prompt(self, value: TmuxText) -> (r: Self)
        ensures
            r@ == (CommandPromptView { prompt: Some(value@), ..self@ }),
    {
        let mut s = self;
        s.prompt = Some(value);
        s
    }

    /// Sets initial inputs.
    pub fn inputs(self, value: TmuxText) -> (r: Self)
        ensures
            r@ == (CommandPromptView { inputs: Some(value@), ..self@ }),
    {
        let mut s = self;
        s.inputs = Some(value);
        s
    }

    /// Targets a client.
    pub fn target_client(self, client: ClientName) -> (r: Self)
        ensures
            r@ == (CommandPromptView { target_client: Some(client@), ..self@ }),
    {
        let mut s = self;
        s.target_client = Some(client);
        s
    }

    /// Accepts one key.
    pub fn one_key(self, enabled: bool) -> (r: Self)
        ensures
            r@ == (CommandPromptView { one_key: enabled, ..self@ }),
    {
        let mut s = self;
        s.one_key = enabled;
        s
    }

    /// Accepts only keys.
    pub fn key_only(self, enabled: bool) -> (r: Self)
        ensures
            r@ == (CommandPromptView { key_only: enabled, ..self@ }),
    {
        let mut s = self;
        s.key_only = enabled;
        s
    }

    /// Runs the template when input changes.
    pub fn on_input_change(self, enabled: bool) -> (r: Self)
        ensures
            r@ == (CommandPromptView { on_input_change: enabled, ..self@ }),
    {
        let mut s = self;
        s.on_input_change = enabled;
        s
    }

    /// Accepts only numbers.
    pub fn numeric(self, enabled: bool) -> (r: Self)
        ensures
            r@ == (CommandPromptView { numeric: enabled, ..self@ }),
    {
        let mut s = self;
        s.numeric = enabled;
        s
    }

    /// Sets the prompt type.
    pub fn prompt_type(self, value: PromptType) -> (r: Self)
        ensures
            r@ == (CommandPromptView { prompt_type: Some(value), ..self@ }),
    {
        let mut s = self;
        s.prompt_type = Some(value);
        s
    }

    /// Expands the template as a format.
    pub fn expand_format(self, enabled: bool) -> (r: Self)
        ensures
            r@ == (CommandPromptView { expand_format: enabled, ..self@ }),
    {
        let mut s = self;
        s.expand_format = enabled;
        s
    }

    /// Treats the template literally (tmux 3.6+).
    pub fn literal(self, enabled: bool) -> (r: Self)
        ensures
            r@ == (CommandPromptView { literal: enabled, ..self@ }),
    {
        let mut s = self;
        s.literal = enabled;
        s
    }

    /// Exits on backspace in an empty prompt (tmux 3.7+).
    pub fn backspace_exit(self, enabled: bool) -> (r: Self)
        ensures
            r@ == (CommandPromptView { backspace_exit: enabled, ..self@ }),
    {
        let mut s = self;
        s.backspace_exit = enabled;
        s
    }

    /// Does not freeze the pane (tmux 3.7+).
    pub fn no_freeze(self, enabled: bool) -> (r: Self)
        ensures
            r@ == (CommandPromptView { no_freeze: enabled, ..self@ }),
    {
        let mut s = self;
        s.no_freeze = enabled;
        s
    }

}

/// Options for `display-menu`.
#[derive(Clone, Debug)]
pub struct Menu {
    items: Vec<MenuItem>,
    title: Option<TmuxText>,
    target_pane: Option<PaneId>,
    target_client: Option<ClientName>,
    x: Option<TmuxText>,
    y: Option<TmuxText>,
    starting_choice: Option<TmuxText>,
    border_lines: Option<TmuxText>,
    style: Option<TmuxText>,
    border_style: Option<TmuxText>,
    selected_style: Option<TmuxText>,
    mouse: bool,
    stay_open: bool,
}

/// The mathematical content of [`Menu`].
pub struct MenuView {
    pub items: Seq<MenuItemView>,
    pub title: Option<Seq<u8>>,
    pub target_pane: Option<u64>,
    pub target_client: Option<Seq<u8>>,
    pub x: Option<Seq<u8>>,
    pub y: Option<Seq<u8>>,
    pub starting_choice: Option<Seq<u8>>,
    pub border_lines: Option<Seq<u8>>,
    pub style: Option<Seq<u8>>,
    pub border_style: Option<Seq<u8>>,
    pub selected_style: Option<Seq<u8>>,
    pub mouse: bool,
    pub stay_open: bool,
}

impl View for Menu {
    type V = MenuView;

    closed spec fn view(&self) -> MenuView {
        MenuView {
            items: self.items@.map_values(|i: MenuItem| i@),
            title: text_opt(self.title),
            target_pane: pane_opt(self.target_pane),
            target_client: client_opt(self.target_client),
            x: text_opt(self.x),
            y: text_opt(self.y),
            starting_choice: text_opt(self.starting_choice),
            border_lines: text_opt(self.border_lines),
            style: text_opt(self.style),
            border_style: text_opt(self.border_style),
            selected_style: text_opt(self.selected_style),
            mouse: self.mouse,
            stay_open: self.stay_open,
        }
    }
}

impl Default for Menu {
    /// The same value as `Menu::new()`.
    fn default() -> (r: Self)
        ensures
            r@ == (MenuView { items: Seq::empty(), title: None, target_pane: None, target_client: None, x: None, y: None, starting_choice: None, border_lines: None, style: None, border_style: None, selected_style: None, mouse: false, stay_open: false }),
    {
        Menu::new()
    }
}

impl Menu {
    /// Creates an empty menu.
    pub fn new() -> (r: Self)
        ensures
            r@ == (MenuView { items: Seq::empty(), title: None, target_pane: None, target_client: None, x: None, y: None, starting_choice: None, border_lines: None, style: None, border_style: None, selected_style: None, mouse: false, stay_open: false }),
    {
        let r = Menu { items: Vec::new(), title: None, target_pane: None, target_client: None, x: None, y: None, starting_choice: None, border_lines: None, style: None, border_style: None, selected_style: None, mouse: false, stay_open: false };
        assert(r@.items =~= Seq::empty());
        r
    }

    /// Sets the title.
    pub fn title(self, value: TmuxText) -> (r: Self)
        ensures
            r@ == (MenuView { title: Some(value@), ..self@ }),
    {
        let mut s = self;
        s.title = Some(value);
        s
    }

    /// Sets the target pane.
    pub fn target_pane(self, pane: PaneId) -> (r: Self)
        ensures
            r@ == (MenuView { target_pane: Some(pane@), ..self@ }),
    {
        let mut s = self;
        s.target_pane = Some(pane);
        s
    }

    /// Targets a client.
    pub fn target_client(self, client: ClientName) -> (r: Self)
        ensures
            r@ == (MenuView { target_client: Some(client@), ..self@ }),
    {
        let mut s = self;
        s.target_client = Some(client);
        s
    }

    /// Sets the x position.
    pub fn x(self, value: TmuxText) -> (r: Self)
        ensures
            r@ == (MenuView { x: Some(value@), ..self@ }),
    {
        let mut s = self;
        s.x = Some(value);
        s
    }

    /// Sets the y position.
    pub fn y(self, value: TmuxText) -> (r: Self)
        ensures
            r@ == (MenuView { y: Some(value@), ..self@ }),
    {
        let mut s = self;
        s.y = Some(value);
        s
    }

    /// Sets the initially selected item (tmux 3.4+).
    pub fn starting_choice(self, value: TmuxText) -> (r: Self)
        ensures
            r@ == (MenuView { starting_choice: Some(value@), ..self@ }),
    {
        let mut s = self;
        s.starting_choice = Some(value);
        s
    }

    /// Sets border lines (tmux 3.4+).
    pub fn border_lines(self, value: TmuxText) -> (r: Self)
        ensures
            r@ == (MenuView { border_lines: Some(value@), ..self@ }),
    {
        let mut s = self;
        s.border_lines = Some(value);
        s
    }

    /// Sets the menu style (tmux 3.4+).
    pub fn style(self, value: TmuxText) -> (r: Self)
        ensures
            r@ == (MenuView { style: Some(value@), ..self@ }),
    {
        let mut s = self;
        s.style = Some(value);
        s
    }

    /// Sets the border style (tmux 3.4+).
    pub fn border_style(self, value: TmuxText) -> (r: Self)
        ensures
            r@ == (MenuView { border_style: Some(value@), ..self@ }),
    {
        let mut s = self;
        s.border_style = Some(value);
        s
    }

    /// Sets the selected-item style (tmux 3.4+).
    pub fn selected_style(self, value: TmuxText) -> (r: Self)
        ensures
            r@ == (MenuView { selected_style: Some(value@), ..self@ }),
    {
        let mut s = self;
        s.selected_style = Some(value);
        s
    }

    /// Enables mouse mode (tmux 3.5+).
    pub fn mouse(self, enabled: bool) -> (r: Self)
        ensures
            r@ == (MenuView { mouse: enabled, ..self@ }),
    {
        let mut s = self;
        s.mouse = enabled;
        s
    }

    /// Keeps the menu open after a mouse release.
    pub fn stay_open(self, enabled: bool) -> (r: Self)
        ensures
            r@ == (MenuView { stay_open: enabled, ..self@ }),
    {
        let mut s = self;
        s.stay_open = enabled;
        s
    }

    /// Appends an item.
    pub fn item(self, item: MenuItem) -> (r: Self)
        ensures
            r@ == (MenuView { items: self@.items.push(item@), ..self@ }),
    {
        let mut s = self;
        proof { lemma_map_push(s.items@, item, |i: MenuItem| i@); }
        s.items.push(item);
        s
    }
}

/// Options for `display-popup`.
#[derive(Clone, Debug)]
pub struct Popup {
    command: Option<TmuxText>,
    close_on_exit: bool,
    close_on_success: bool,
    close_existing: bool,
    target_client: Option<ClientName>,
    width: Option<TmuxText>,
    height: Option<TmuxText>,
    x: Option<TmuxText>,
    y: Option<TmuxText>,
    cwd: Option<TmuxText>,
    title: Option<TmuxText>,
    border_lines: Option<TmuxText>,
    style: Option<TmuxText>,
    border_style: Option<TmuxText>,
    environment: StrMap<TmuxText>,
    no_border: bool,
    close_on_any_key: bool,
    no_keys: bool,
}

/// The mathematical content of [`Popup`].
pub struct PopupView {
    pub command: Option<Seq<u8>>,
    pub close_on_exit: bool,
    pub close_on_success: bool,
    pub close_existing: bool,
    pub target_client: Option<Seq<u8>>,
    pub width: Option<Seq<u8>>,
    pub height: Option<Seq<u8>>,
    pub x: Option<Seq<u8>>,
    pub y: Option<Seq<u8>>,
    pub cwd: Option<Seq<u8>>,
    pub title: Option<Seq<u8>>,
    pub border_lines: Option<Seq<u8>>,
    pub style: Option<Seq<u8>>,
    pub border_style: Option<Seq<u8>>,
    pub environment: Seq<(Seq<char>, Seq<u8>)>,
    pub no_border: bool,
    pub close_on_any_key: bool,
    pub no_keys: bool,
}

impl View for Popup {
    type V = PopupView;

    closed spec fn view(&self) -> PopupView {
        PopupView {
            command: text_opt(self.command),
            close_on_exit: self.close_on_exit,
            close_on_success: self.close_on_success,
            close_existing: self.close_existing,
            target_client: client_opt(self.target_client),
            width: text_opt(self.width),
            height: text_opt(self.height),
            x: text_opt(self.x),
            y: text_opt(self.y),
            cwd: text_opt(self.cwd),
            title: text_opt(self.title),
            border_lines: text_opt(self.border_lines),
            style: text_opt(self.style),
            border_style: text_opt(self.border_style),
            environment: env_view(self.environment),
            no_border: self.no_border,
            close_on_any_key: self.close_on_any_key,
            no_keys: self.no_keys,
        }
    }
}

impl Default for Popup {
    /// The same value as `Popup::new()`.
    fn default() -> (r: Self)
        ensures
            r@ == (PopupView { command: None, close_on_exit: false, close_on_success: false, close_existing: false, target_client: None, width: None, height: None, x: None, y: None, cwd: None, title: None, border_lines: None, style: None, border_style: None, environment: Seq::empty(), no_border: false, close_on_any_key: false, no_keys: false }),
    {
        Popup::new()
    }
}

impl Popup {
    /// Creates default popup options.
    pub fn new() -> (r: Self)
        ensures
            r@ == (PopupView { command: None, close_on_exit: false, close_on_success: false, close_existing: false, target_client: None, width: None, height: None, x: None, y: None, cwd: None, title: None, border_lines: None, style: None, border_style: None, environment: Seq::empty(), no_border: false, close_on_any_key: false, no_keys: false }),
    {
        let r = Popup { command: None, close_on_exit: false, close_on_success: false, close_existing: false, target_client: None, width: None, height: None, x: None, y: None, cwd: None, title: None, border_lines: None, style: None, border_style: None, environment: StrMap::new(), no_border: false, close_on_any_key: false, no_keys: false };
        assert(r@.environment =~= Seq::empty());
        r
    }

    /// Sets the popup command.
    pub fn command(self, value: TmuxText) -> (r: Self)
        ensures
            r@ == (PopupView { command: Some(value@), ..self@ }),
    {
        let mut s = self;
        s.command = Some(value);
        s
    }

    /// Closes when the command exits.
    pub fn close_on_exit(self, enabled: bool) -> (r: Self)
        ensures
            r@ == (PopupView { close_on_exit: enabled, ..self@ }),
    {
        let mut s = self;
        s.close_on_exit = enabled;
        s
    }

    /// Closes only when the command succeeds.
    pub fn close_on_success(self, enabled: bool) -> (r: Self)
        ensures
            r@ == (PopupView { close_on_success: enabled, ..self@ }),
    {
        let mut s = self;
        s.close_on_success = enabled;
        s
    }

    /// Closes an existing popup.
    pub fn close_existing(self, enabled: bool) -> (r: Self)
        ensures
            r@ == (PopupView { close_existing: enabled, ..self@ }),
    {
        let mut s = self;
        s.close_existing = enabled;
        s
    }

    /// Targets a client.
    pub fn target_client(self, client: ClientName) -> (r: Self)
        ensures
            r@ == (PopupView { target_client: Some(client@), ..self@ }),
    {
        let mut s = self;
        s.target_client = Some(client);
        s
    }

    /// Sets the width.
    pub fn width(self, value: TmuxText) -> (r: Self)
        ensures
            r@ == (PopupView { width: Some(value@), ..self@ }),
    {
        let mut s = self;
        s.width = Some(value);
        s
    }

    /// Sets the height.
    pub fn height(self, value: TmuxText) -> (r: Self)
        ensures
            r@ == (PopupView { height: Some(value@), ..self@ }),
    {
        let mut s = self;
        s.height = Some(value);
        s
    }

    /// Sets the x position.
    pub fn x(self, value: TmuxText) -> (r: Self)
        ensures
            r@ == (PopupView { x: Some(value@), ..self@ }),
    {
        let mut s = self;
        s.x = Some(value);
        s
    }

    /// Sets the y position.
    pub fn y(self, value: TmuxText) -> (r: Self)
        ensures
            r@ == (PopupView { y: Some(value@), ..self@ }),
    {
        let mut s = self;
        s.y = Some(value);
        s
    }

    /// Sets the working directory.
    pub fn cwd(self, value: TmuxText) -> (r: Self)
        ensures
            r@ == (PopupView { cwd: Some(value@), ..self@ }),
    {
        let mut s = self;
        s.cwd = Some(value);
        s
    }

    /// Sets the title (tmux 3.3+).
    pub fn title(self, value: TmuxText) -> (r: Self)
        ensures
            r@ == (PopupView { title: Some(value@), ..self@ }),
    {
        let mut s = self;
        s.title = Some(value);
        s
    }

    /// Sets border lines (tmux 3.3+).
    pub fn border_lines(self, value: TmuxText) -> (r: Self)
        ensures
            r@ == (PopupView { border_lines: Some(value@), ..self@ }),
    {
        let mut s = self;
        s.border_lines = Some(value);
        s
    }

    /// Sets the popup style (tmux 3.3+).
    pub fn style(self, value: TmuxText) -> (r: Self)
        ensures
            r@ == (PopupView { style: Some(value@), ..self@ }),
    {
        let mut s = self;
        s.style = Some(value);
        s
    }

    /// Sets the border style (tmux 3.3+).
    pub fn border_style(self, value: TmuxText) -> (r: Self)
        ensures
            r@ == (PopupView { border_style: Some(value@), ..self@ }),
    {
        let mut s = self;
        s.border_style = Some(value);
        s
    }

    /// Adds an environment entry (tmux 3.3+).
    pub fn environment(self, name: String, value: TmuxText) -> (r: Result<Self, Error>)
        ensures
            valid_name(name@) ==> (r matches Ok(x) && x@ == (PopupView { environment: x@.environment, ..self@ })
                && env_inserted(self@.environment, x@.environment, name@, value@)),
            !valid_name(name@) ==> (r matches Err(e) && e@ == invalid_name("environment name")),
    {
        let mut s = self;
        match insert_env(&mut s.environment, name, value) {
            Ok(()) => Ok(s),
            Err(e) => Err(e),
        }
    }

    /// Removes the border (tmux 3.3+).
    pub fn no_border(self, enabled: bool) -> (r: Self)
        ensures
            r@ == (PopupView { no_border: enabled, ..self@ }),
    {
        let mut s = self;
        s.no_border = enabled;
        s
    }

    /// Closes on any key (tmux 3.6+).
    pub fn close_on_any_key(self, enabled: bool) -> (r: Self)
        ensures
            r@ == (PopupView { close_on_any_key: enabled, ..self@ }),
    {
        let mut s = self;
        s.close_on_any_key = enabled;
        s
    }

    /// Ignores keys (tmux 3.6+).
    pub fn no_keys(self, enabled: bool) -> (r: Self)
        ensures
            r@ == (PopupView { no_keys: enabled, ..self@ }),
    {
        let mut s = self;
        s.no_keys = enabled;
        s
    }

}

/// Options for `display-message`.
#[derive(Clone, Debug)]
pub struct DisplayMessage {
    message: Option<TmuxText>,
    print: bool,
    all_formats: bool,
    verbose: bool,
    literal: bool,
    notify: bool,
    client: Option<ClientName>,
    delay_millis: Option<u32>,
    format: Option<TmuxText>,
}

/// The mathematical content of [`DisplayMessage`].
pub struct DisplayMessageView {
    pub message: Option<Seq<u8>>,
    pub print: bool,
    pub all_formats: bool,
    pub verbose: bool,
    pub literal: bool,
    pub notify: bool,
    pub client: Option<Seq<u8>>,
    pub delay_millis: Option<u32>,
    pub format: Option<Seq<u8>>,
}

impl View for DisplayMessage {
    type V = DisplayMessageView;

    closed spec fn view(&self) -> DisplayMessageView {
        DisplayMessageView {
            message: text_opt(self.message),
            print: self.print,
            all_formats: self.all_formats,
            verbose: self.verbose,
            literal: self.literal,
            notify: self.notify,
            client: client_opt(self.client),
            delay_millis: self.delay_millis,
            format: text_opt(self.format),
        }
    }
}

impl Default for DisplayMessage {
    /// The same value as `DisplayMessage::new()`.
    fn default() -> (r: Self)
        ensures
            r@ == (DisplayMessageView { message: None, print: false, all_formats: false, verbose: false, literal: false, notify: false, client: None, delay_millis: None, format: None }),
    {
        DisplayMessage::new()
    }
}

impl DisplayMessage {
    /// Creates default display options.
    pub fn new() -> (r: Self)
        ensures
            r@ == (DisplayMessageView { message: None, print: false, all_formats: false, verbose: false, literal: false, notify: false, client: None, delay_millis: None, format: None }),
    {
        let r = DisplayMessage { message: None, print: false, all_formats: false, verbose: false, literal: false, notify: false, client: None, delay_millis: None, format: None };
        r
    }

    /// Sets the message.
    pub fn message(self, value: TmuxText) -> (r: Self)
        ensures
            r@ == (DisplayMessageView { message: Some(value@), ..self@ }),
    {
        let mut s = self;
        s.message = Some(value);
        s
    }

    /// Prints instead of displaying.
    pub fn print(self, enabled: bool) -> (r: Self)
        ensures
            r@ == (DisplayMessageView { print: enabled, ..self@ }),
    {
        let mut s = self;
        s.print = enabled;
        s
    }

    /// Whether the message is printed to standard output instead of shown.
    pub fn is_print(&self) -> (r: bool)
        ensures
            r == self@.print,
    {
        self.print
    }

    /// Lists all formats.
    pub fn all_formats(self, enabled: bool) -> (r: Self)
        ensures
            r@ == (DisplayMessageView { all_formats: enabled, ..self@ }),
    {
        let mut s = self;
        s.all_formats = enabled;
        s
    }

    /// Shows verbose format expansion.
    pub fn verbose(self, enabled: bool) -> (r: Self)
        ensures
            r@ == (DisplayMessageView { verbose: enabled, ..self@ }),
    {
        let mut s = self;
        s.verbose = enabled;
        s
    }

    /// Does not expand formats (tmux 3.4+).
    pub fn literal(self, enabled: bool) -> (r: Self)
        ensures
            r@ == (DisplayMessageView { literal: enabled, ..self@ }),
    {
        let mut s = self;
        s.literal = enabled;
        s
    }

    /// Does not wait for a key.
    pub fn notify(self, enabled: bool) -> (r: Self)
        ensures
            r@ == (DisplayMessageView { notify: enabled, ..self@ }),
    {
        let mut s = self;
        s.notify = enabled;
        s
    }

    /// Targets a client.
    pub fn client(self, client: ClientName) -> (r: Self)
        ensures
            r@ == (DisplayMessageView { client: Some(client@), ..self@ }),
    {
        let mut s = self;
        s.client = Some(client);
        s
    }

    /// Sets the display duration in milliseconds.
    pub fn delay_millis(self, value: u32) -> (r: Self)
        ensures
            r@ == (DisplayMessageView { delay_millis: Some(value), ..self@ }),
    {
        let mut s = self;
        s.delay_millis = Some(value);
        s
    }

    /// Sets a format.
    pub fn format(self, value: TmuxText) -> (r: Self)
        ensures
            r@ == (DisplayMessageView { format: Some(value@), ..self@ }),
    {
        let mut s = self;
        s.format = Some(value);
        s
    }

}

/// Options for `if-shell`.
#[derive(Clone, Debug)]
pub struct IfShell {
    condition: TmuxText,
    if_command: TmuxText,
    else_command: Option<TmuxText>,
    background: bool,
    format: bool,
    target: Option<PaneId>,
}

/// The mathematical content of [`IfShell`].
pub struct IfShellView {
    pub condition: Seq<u8>,
    pub if_command: Seq<u8>,
    pub else_command: Option<Seq<u8>>,
    pub background: bool,
    pub format: bool,
    pub target: Option<u64>,
}

impl View for IfShell {
    type V = IfShellView;

    closed spec fn view(&self) -> IfShellView {
        IfShellView {
            condition: self.condition@,
            if_command: self.if_command@,
            else_command: text_opt(self.else_command),
            background: self.background,
            format: self.format,
            target: pane_opt(self.target),
        }
    }
}

impl IfShell {
    /// Creates a conditional with its command for a true condition.
    pub fn new(condition: TmuxText, if_command: TmuxText) -> (r: Self)
        ensures
            r@ == (IfShellView { condition: condition@, if_command: if_command@, else_command: None, background: false, format: false, target: None }),
    {
        let r = IfShell { condition: condition, if_command: if_command, else_command: None, background: false, format: false, target: None };
        r
    }

    /// Sets the command for a false condition.
    pub fn else_command(self, value: TmuxText) -> (r: Self)
        ensures
            r@ == (IfShellView { else_command: Some(value@), ..self@ }),
    {
        let mut s = self;
        s.else_command = Some(value);
        s
    }

    /// Runs the condition in the background.
    pub fn background(self, enabled: bool) -> (r: Self)
        ensures
            r@ == (IfShellView { background: enabled, ..self@ }),
    {
        let mut s = self;
        s.background = enabled;
        s
    }

    /// Treats the condition as a format.
    pub fn format(self, enabled: bool) -> (r: Self)
        ensures
            r@ == (IfShellView { format: enabled, ..self@ }),
    {
        let mut s = self;
        s.format = enabled;
        s
    }

    /// Sets the target pane.
    pub fn target(self, pane: PaneId) -> (r: Self)
        ensures
            r@ == (IfShellView { target: Some(pane@), ..self@ }),
    {
        let mut s = self;
        s.target = Some(pane);
        s
    }

}

/// Visible arguments holding each text.
pub open spec fn plain_each(v: Seq<Seq<u8>>) -> Seq<(Seq<u8>, bool)> {
    v.map_values(|t: Seq<u8>| plain_bytes(t))
}

fn push_plain_each(command: Command, texts: &Vec<TmuxText>) -> (r: Command)
    ensures
        r@ == with_args(command@, plain_each(texts@.map_values(|t: TmuxText| t@))),
{
    let r = command.args(texts);
    assert(r@.arguments =~= command@.arguments + plain_each(texts@.map_values(|t: TmuxText| t@)));
    r
}

/// The target arguments of an optional pane.
pub open spec fn pane_opt_args(p: Option<u64>) -> Seq<(Seq<u8>, bool)> {
    match p {
        Some(n) => pane_target_args(n),
        None => seq![],
    }
}

fn push_pane_opt(command: Command, p: Option<PaneId>) -> (r: Command)
    ensures
        r@ == with_args(command@, pane_opt_args(pane_opt(p))),
{
    let r = match p {
        Some(n) => command.target(n.to_text()),
        None => command,
    };
    assert(r@.arguments =~= command@.arguments + pane_opt_args(pane_opt(p)));
    r
}

/// Whether the connected version supplies the `run-shell` options that are asked for.
pub open spec fn run_shell_gates(o: RunShellView, v: TmuxVersionView) -> Option<ErrorView> {
    if !gate_passes(v, o.cwd is Some, release_of(3, 4)) {
        Some(unsupported("run-shell working directory", release_of(3, 4), v))
    } else if !gate_passes(v, o.show_stderr, release_of(3, 6)) {
        Some(unsupported("run-shell stderr forwarding", release_of(3, 6), v))
    } else if !gate_passes(v, o.arguments.len() > 0, release_of(3, 7)) {
        Some(unsupported("run-shell positional arguments", release_of(3, 7), v))
    } else {
        None
    }
}

/// `run-shell` with its options; the shell command is hidden in diagnostics.
pub open spec fn run_shell_spec(o: RunShellView) -> CommandView {
    command_with("run-shell", flag_if(o.background, "-b") + option_pair("-d", o.delay) + flag_if(o.as_tmux_command, "-C")
        + pane_opt_args(o.target) + option_pair("-c", o.cwd) + flag_if(o.show_stderr, "-E")
        + seq![(o.command, true)] + plain_each(o.arguments))
}

/// Builds the `run-shell` command after checking the version for its options.
pub fn run_shell_command(options: &RunShell, version: &TmuxVersion) -> (r: Result<Command, Error>)
    ensures
        run_shell_gates(options@, version@) matches Some(e) ==> (r matches Err(x) && x@ == e),
        run_shell_gates(options@, version@) is None ==> (r matches Ok(c) && c@ == run_shell_spec(options@)),
{
    match gate(version, options.cwd.is_some(), "run-shell working directory", 3, 4) {
        Err(e) => return Err(e),
        Ok(()) => {},
    }
    match gate(version, options.show_stderr, "run-shell stderr forwarding", 3, 6) {
        Err(e) => return Err(e),
        Ok(()) => {},
    }
    match gate(version, options.arguments.len() > 0, "run-shell positional arguments", 3, 7) {
        Err(e) => return Err(e),
        Ok(()) => {},
    }
    let base = Command::new("run-shell").flag(options.background, "-b");
    assert(base@.arguments =~= flag_if(options@.background, "-b"));
    let c = base.option_text("-d", &options.delay).flag(options.as_tmux_command, "-C");
    let c = push_pane_opt(c, options.target);
    let c = c.option_text("-c", &options.cwd).flag(options.show_stderr, "-E").argument(options.command.clone(), true);
    Ok(push_plain_each(c, &options.arguments))
}

/// What `run-shell` returns: its output, unless it ran in the background.
pub fn run_shell_output(background: bool, stdout: &TmuxText) -> (r: Option<TmuxText>)
    ensures
        background ==> r is None,
        !background ==> (r matches Some(t) && t@ == stdout@),
{
    if background {
        None
    } else {
        Some(stdout.clone())
    }
}

/// Builds the `wait-for` command for a channel, whose name must be acceptable.
pub fn wait_for_command(channel: &str, action: WaitAction) -> (r: Result<Command, Error>)
    ensures
        valid_name(channel@) ==> (r matches Ok(c) && c@ == command_with("wait-for", wait_args(action) + seq![plain_bytes(encode_utf8(channel@))])),
        !valid_name(channel@) ==> (r matches Err(e) && e@ == invalid_name("wait channel")),
{
    match validate_name("wait channel", channel) {
        Err(e) => return Err(e),
        Ok(()) => {},
    }
    let c = Command::new("wait-for");
    let c2 = match action {
        WaitAction::Wait => c,
        WaitAction::Signal => c.arg("-S"),
        WaitAction::Lock => c.arg("-L"),
        WaitAction::Unlock => c.arg("-U"),
    };
    assert(c2@.arguments =~= wait_args(action));
    Ok(c2.arg_text(TmuxText::from_str(channel)))
}

/// `bind-key` with its options, then the key and the command.
pub open spec fn bind_key_spec(b: KeyBindingView) -> CommandView {
    command_with("bind-key", flag_if(b.repeat, "-r") + flag_if(b.root, "-n") + option_pair("-N", b.note) + option_pair("-T", b.table)
        + seq![plain_bytes(b.key), plain_bytes(b.command)])
}

/// Builds the `bind-key` command.
pub fn bind_key_command(binding: &KeyBinding) -> (r: Command)
    ensures
        r@ == bind_key_spec(binding@),
{
    let base = Command::new("bind-key").flag(binding.repeat, "-r");
    assert(base@.arguments =~= flag_if(binding@.repeat, "-r"));
    let c = base.flag(binding.root, "-n").option_text("-N", &binding.note).option_text("-T", &binding.table);
    let r = c.arg_text(binding.key.clone()).arg_text(binding.command.clone());
    assert(r@.arguments =~= bind_key_spec(binding@).arguments);
    r
}

/// `unbind-key` with its options, then the key.
pub open spec fn unbind_key_spec(o: UnbindKeyView) -> CommandView {
    command_with("unbind-key", flag_if(o.all, "-a") + flag_if(o.quiet, "-q") + option_pair("-T", o.table)
        + match o.key { Some(k) => seq![plain_bytes(k)], None => seq![] })
}

/// Builds the `unbind-key` command; a key or `all` is required.
pub fn unbind_key_command(options: &UnbindKey) -> (r: Result<Command, Error>)
    ensures
        options@.key is None && !options@.all ==> (r matches Err(e) && e@ == invalid_argument("unbind key", "a key or all=true is required")),
        !(options@.key is None && !options@.all) ==> (r matches Ok(c) && c@ == unbind_key_spec(options@)),
{
    if options.key.is_none() && !options.all {
        return Err(invalid_argument_error("unbind key", "a key or all=true is required"));
    }
    let base = Command::new("unbind-key").flag(options.all, "-a");
    assert(base@.arguments =~= flag_if(options@.all, "-a"));
    let c = base.flag(options.quiet, "-q").option_text("-T", &options.table);
    let r = c.plain_text(&options.key);
    assert(r@.arguments =~= unbind_key_spec(options@).arguments);
    Ok(r)
}

/// Builds `list-keys` with an optional table and format.
pub fn list_keys_command(table: Option<&str>, format: Option<&str>) -> (r: Command)
    ensures
        r@ == command_with("list-keys", option_pair("-T", str_opt(table)) + option_pair("-F", str_opt(format))),
{
    let t = match table { Some(s) => Some(TmuxText::from_str(s)), None => None };
    let f = match format { Some(s) => Some(TmuxText::from_str(s)), None => None };
    let base = Command::new("list-keys").option_text("-T", &t);
    assert(base@.arguments =~= option_pair("-T", str_opt(table)));
    base.option_text("-F", &f)
}

/// Builds `list-commands` for one command or all.
pub fn list_commands_command(name: Option<&str>) -> (r: Command)
    ensures
        r@ == command_with("list-commands", match str_opt(name) { Some(n) => seq![plain_bytes(n)], None => seq![] }),
{
    let n = match name { Some(s) => Some(TmuxText::from_str(s)), None => None };
    let r = Command::new("list-commands").plain_text(&n);
    assert(r@.arguments =~= (match str_opt(name) { Some(n) => seq![plain_bytes(n)], None => seq![] }));
    r
}

/// The arguments of a `server-access` operation.
pub open spec fn server_access_args(a: ServerAccess) -> Seq<(Seq<u8>, bool)> {
    match a {
        ServerAccess::Allow { user, permission } => seq![plain("-a"), plain_bytes(encode_utf8(user@)),
            plain(if permission == ClientPermission::ReadOnly { "-r" } else { "-w" })],
        ServerAccess::Deny { user } => seq![plain("-d"), plain_bytes(encode_utf8(user@))],
        ServerAccess::List => seq![plain("-l")],
    }
}

/// Builds the `server-access` command; tmux 3.3 is required.
pub fn server_access_command(action: &ServerAccess, version: &TmuxVersion) -> (r: Result<Command, Error>)
    ensures
        meets_spec_of(version@, release_of(3, 3)) ==> (r matches Ok(c) && c@ == command_with("server-access", server_access_args(*action))),
        !meets_spec_of(version@, release_of(3, 3)) ==> (r matches Err(e) && e@ == unsupported("server access control", release_of(3, 3), version@)),
{
    match gate(version, true, "server access control", 3, 3) {
        Err(e) => return Err(e),
        Ok(()) => {},
    }
    let c = Command::new("server-access");
    let r = match action {
        ServerAccess::Allow { user, permission } => c.arg("-a").arg_text(TmuxText::from_str(user.as_str()))
            .arg(if *permission == ClientPermission::ReadOnly { "-r" } else { "-w" }),
        ServerAccess::Deny { user } => c.arg("-d").arg_text(TmuxText::from_str(user.as_str())),
        ServerAccess::List => c.arg("-l"),
    };
    assert(r@.arguments =~= server_access_args(*action));
    Ok(r)
}

/// Whether a version supplies a release.
pub open spec fn meets_spec_of(v: TmuxVersionView, required: crate::version::ReleaseVersionView) -> bool {
    crate::version::meets_spec(v, required)
}

/// The version error of `confirm-before`, if any.
pub open spec fn confirm_before_gates(o: ConfirmBeforeView, v: TmuxVersionView) -> Option<ErrorView> {
    if !meets_spec_of(v, release_of(3, 3)) {
        Some(unsupported("background confirmation", release_of(3, 3), v))
    } else if !gate_passes(v, o.confirm_key is Some || o.default_yes, release_of(3, 4)) {
        Some(unsupported("confirmation key/default", release_of(3, 4), v))
    } else {
        None
    }
}

/// `confirm-before -b` with its options, then the command.
pub open spec fn confirm_before_spec(o: ConfirmBeforeView) -> CommandView {
    command_with("confirm-before", seq![plain("-b")] + option_pair("-p", o.prompt) + option_pair("-c", o.confirm_key)
        + flag_if(o.default_yes, "-y") + option_pair("-t", o.target_client) + seq![plain_bytes(o.command)])
}

/// Builds the `confirm-before` command after checking the version.
pub fn confirm_before_command(options: &ConfirmBefore, version: &TmuxVersion) -> (r: Result<Command, Error>)
    ensures
        confirm_before_gates(options@, version@) matches Some(e) ==> (r matches Err(x) && x@ == e),
        confirm_before_gates(options@, version@) is None ==> (r matches Ok(c) && c@ == confirm_before_spec(options@)),
{
    match gate(version, true, "background confirmation", 3, 3) {
        Err(e) => return Err(e),
        Ok(()) => {},
    }
    match gate(version, options.confirm_key.is_some() || options.default_yes, "confirmation key/default", 3, 4) {
        Err(e) => return Err(e),
        Ok(()) => {},
    }
    let client = client_text(&options.target_client);
    let base = Command::new("confirm-before").arg("-b");
    assert(base@.arguments =~= seq![plain("-b")]);
    let c = base.option_text("-p", &options.prompt).option_text("-c", &options.confirm_key).flag(options.default_yes, "-y")
        .option_text("-t", &client);
    Ok(c.arg_text(options.command.clone()))
}

/// The version error of `command-prompt`, if any.
pub open spec fn command_prompt_gates(o: CommandPromptView, v: TmuxVersionView) -> Option<ErrorView> {
    if !meets_spec_of(v, release_of(3, 3)) {
        Some(unsupported("background command prompt", release_of(3, 3), v))
    } else if !gate_passes(v, o.literal, release_of(3, 6)) {
        Some(unsupported("literal prompt", release_of(3, 6), v))
    } else if !gate_passes(v, o.backspace_exit || o.no_freeze, release_of(3, 7)) {
        Some(unsupported("prompt backspace/no-freeze flags", release_of(3, 7), v))
    } else {
        None
    }
}

/// `command-prompt -b` with its options, then the template.
pub open spec fn command_prompt_spec(o: CommandPromptView) -> CommandView {
    command_with("command-prompt", seq![plain("-b")] + flag_if(o.one_key, "-1") + flag_if(o.key_only, "-k")
        + flag_if(o.on_input_change, "-i") + flag_if(o.numeric, "-N") + flag_if(o.expand_format, "-F")
        + flag_if(o.literal, "-l") + flag_if(o.backspace_exit, "-e") + flag_if(o.no_freeze, "-C")
        + option_pair("-p", o.prompt) + option_pair("-I", o.inputs) + prompt_type_args(o.prompt_type)
        + option_pair("-t", o.target_client) + seq![plain_bytes(o.template)])
}

/// Builds the `command-prompt` command after checking the version.
pub fn command_prompt_command(options: &CommandPrompt, version: &TmuxVersion) -> (r: Result<Command, Error>)
    ensures
        command_prompt_gates(options@, version@) matches Some(e) ==> (r matches Err(x) && x@ == e),
        command_prompt_gates(options@, version@) is None ==> (r matches Ok(c) && c@ == command_prompt_spec(options@)),
{
    match gate(version, true, "background command prompt", 3, 3) {
        Err(e) => return Err(e),
        Ok(()) => {},
    }
    match gate(version, options.literal, "literal prompt", 3, 6) {
        Err(e) => return Err(e),
        Ok(()) => {},
    }
    match gate(version, options.backspace_exit || options.no_freeze, "prompt backspace/no-freeze flags", 3, 7) {
        Err(e) => return Err(e),
        Ok(()) => {},
    }
    let client = client_text(&options.target_client);
    let base = Command::new("command-prompt").arg("-b");
    assert(base@.arguments =~= seq![plain("-b")]);
    let c = base.flag(options.one_key, "-1").flag(options.key_only, "-k").flag(options.on_input_change, "-i")
        .flag(options.numeric, "-N").flag(options.expand_format, "-F").flag(options.literal, "-l")
        .flag(options.backspace_exit, "-e").flag(options.no_freeze, "-C")
        .option_text("-p", &options.prompt).option_text("-I", &options.inputs);
    let c = push_prompt_type(c, options.prompt_type);
    Ok(c.option_text("-t", &client).arg_text(options.template.clone()))
}

/// The arguments of menu items: label, key and command of each entry, an empty argument for a separator.
pub open spec fn menu_item_args(items: Seq<MenuItemView>) -> Seq<(Seq<u8>, bool)>
    decreases items.len(),
{
    if items.len() == 0 {
        seq![]
    } else {
        menu_item_args(items.drop_last()) + match items.last() {
            MenuItemView::Entry { label, key, command } => seq![plain_bytes(label), plain_bytes(key), plain_bytes(command)],
            MenuItemView::Separator => seq![plain("")],
        }
    }
}

fn push_menu_items(command: Command, items: &Vec<MenuItem>) -> (r: Command)
    ensures
        r@ == with_args(command@, menu_item_args(items@.map_values(|i: MenuItem| i@))),
{
    let ghost all = items@.map_values(|i: MenuItem| i@);
    let mut r = command;
    let mut k: usize = 0;
    assert(command@.arguments + menu_item_args(all.take(0)) =~= command@.arguments);
    while k < items.len()
        invariant
            k <= items@.len(),
            all == items@.map_values(|i: MenuItem| i@),
            r@ == with_args(command@, menu_item_args(all.take(k as int))),
        decreases items.len() - k,
    {
        let ghost before = r@;
        proof {
            assert(all.take(k + 1).drop_last() =~= all.take(k as int));
            assert(all.take(k + 1).last() == items@[k as int]@);
        }
        r = match &items[k] {
            MenuItem::Entry { label, key, command: c } => r.arg_text(label.clone()).arg_text(key.clone()).arg_text(c.clone()),
            MenuItem::Separator => r.arg(""),
        };
        assert(r@.arguments =~= command@.arguments + menu_item_args(all.take(k + 1)));
        k = k + 1;
    }
    assert(all.take(items@.len() as int) =~= all);
    r
}

/// The version error of `display-menu`, if any.
pub open spec fn display_menu_gates(o: MenuView, v: TmuxVersionView) -> Option<ErrorView> {
    if !gate_passes(v, o.starting_choice is Some || o.border_lines is Some || o.style is Some || o.border_style is Some
        || o.selected_style is Some, release_of(3, 4)) {
        Some(unsupported("advanced menu styling", release_of(3, 4), v))
    } else if !gate_passes(v, o.mouse, release_of(3, 5)) {
        Some(unsupported("menu mouse mode", release_of(3, 5), v))
    } else {
        None
    }
}

/// `display-menu` with its options, then its items.
pub open spec fn display_menu_spec(o: MenuView) -> CommandView {
    command_with("display-menu", option_pair("-T", o.title) + option_pair("-c", o.target_client) + pane_opt_args(o.target_pane)
        + option_pair("-x", o.x) + option_pair("-y", o.y) + option_pair("-C", o.starting_choice)
        + option_pair("-b", o.border_lines) + option_pair("-s", o.style) + option_pair("-S", o.border_style)
        + option_pair("-H", o.selected_style) + flag_if(o.mouse, "-M") + flag_if(o.stay_open, "-O")
        + menu_item_args(o.items))
}

/// Builds the `display-menu` command after checking the version.
pub fn display_menu_command(options: &Menu, version: &TmuxVersion) -> (r: Result<Command, Error>)
    ensures
        display_menu_gates(options@, version@) matches Some(e) ==> (r matches Err(x) && x@ == e),
        display_menu_gates(options@, version@) is None ==> (r matches Ok(c) && c@ == display_menu_spec(options@)),
{
    let styled = options.starting_choice.is_some() || options.border_lines.is_some() || options.style.is_some()
        || options.border_style.is_some() || options.selected_style.is_some();
    match gate(version, styled, "advanced menu styling", 3, 4) {
        Err(e) => return Err(e),
        Ok(()) => {},
    }
    match gate(version, options.mouse, "menu mouse mode", 3, 5) {
        Err(e) => return Err(e),
        Ok(()) => {},
    }
    let client = client_text(&options.target_client);
    let base = Command::new("display-menu").option_text("-T", &options.title);
    assert(base@.arguments =~= option_pair("-T", options@.title));
    let c = base.option_text("-c", &client);
    let c = push_pane_opt(c, options.target_pane);
    let c = c.option_text("-x", &options.x).option_text("-y", &options.y).option_text("-C", &options.starting_choice)
        .option_text("-b", &options.border_lines).option_text("-s", &options.style).option_text("-S", &options.border_style)
        .option_text("-H", &options.selected_style).flag(options.mouse, "-M").flag(options.stay_open, "-O");
    Ok(push_menu_items(c, &options.items))
}

/// `display-message` with its options, an optional target, and the message.
pub open spec fn display_spec(o: DisplayMessageView, target: Option<Seq<u8>>) -> CommandView {
    command_with("display-message", flag_if(o.print, "-p") + flag_if(o.all_formats, "-a") + flag_if(o.verbose, "-v")
        + flag_if(o.literal, "-l") + flag_if(o.notify, "-N") + option_pair("-c", o.client) + option_pair("-t", target)
        + option_pair("-d", number_opt(widen(o.delay_millis))) + option_pair("-F", o.format)
        + match o.message { Some(m) => seq![plain_bytes(m)], None => seq![] })
}

/// Builds the `display-message` command for an optional target; literal
/// messages need tmux 3.4.
pub fn display_command(options: &DisplayMessage, target: Option<TmuxText>, version: &TmuxVersion) -> (r: Result<Command, Error>)
    ensures
        gate_passes(version@, options@.literal, release_of(3, 4)) ==> (r matches Ok(c) && c@ == display_spec(options@, text_opt(target))),
        !gate_passes(version@, options@.literal, release_of(3, 4)) ==> (r matches Err(e)
            && e@ == unsupported("literal display message", release_of(3, 4), version@)),
{
    match gate(version, options.literal, "literal display message", 3, 4) {
        Err(e) => return Err(e),
        Ok(()) => {},
    }
    let client = client_text(&options.client);
    let base = Command::new("display-message").flag(options.print, "-p");
    assert(base@.arguments =~= flag_if(options@.print, "-p"));
    let delay = match options.delay_millis { Some(d) => Some(d as u64), None => None };
    let c = base.flag(options.all_formats, "-a").flag(options.verbose, "-v").flag(options.literal, "-l")
        .flag(options.notify, "-N").option_text("-c", &client).option_text("-t", &target)
        .option_number("-d", delay).option_text("-F", &options.format);
    let r = c.plain_text(&options.message);
    assert(r@.arguments =~= display_spec(options@, text_opt(target)).arguments);
    Ok(r)
}

/// Builds `show-messages`; terminals and jobs exclude each other.
pub fn show_messages_command(client: Option<&ClientName>, terminals: bool, jobs: bool) -> (r: Result<Command, Error>)
    ensures
        terminals && jobs ==> (r matches Err(e) && e@ == invalid_argument("show-messages mode", "terminals and jobs are mutually exclusive")),
        !(terminals && jobs) ==> (r matches Ok(c) && c@ == command_with("show-messages", flag_if(terminals, "-T") + flag_if(jobs, "-J")
            + option_pair("-t", match client { Some(c) => Some(c@), None => None }))),
{
    if terminals && jobs {
        return Err(invalid_argument_error("show-messages mode", "terminals and jobs are mutually exclusive"));
    }
    let target = match client { Some(c) => Some(c.to_os_string()), None => None };
    let base = Command::new("show-messages").flag(terminals, "-T");
    assert(base@.arguments =~= flag_if(terminals, "-T"));
    Ok(base.flag(jobs, "-J").option_text("-t", &target))
}

/// Builds `refresh-client`; requesting the clipboard needs tmux 3.7.
pub fn refresh_client_command(client: Option<&ClientName>, request_clipboard: bool, version: &TmuxVersion) -> (r: Result<Command, Error>)
    ensures
        gate_passes(version@, request_clipboard, release_of(3, 7)) ==> (r matches Ok(c) && c@ == command_with("refresh-client",
            flag_if(request_clipboard, "-l") + option_pair("-t", match client { Some(c) => Some(c@), None => None }))),
        !gate_passes(version@, request_clipboard, release_of(3, 7)) ==> (r matches Err(e)
            && e@ == unsupported("client clipboard request", release_of(3, 7), version@)),
{
    match gate(version, request_clipboard, "client clipboard request", 3, 7) {
        Err(e) => return Err(e),
        Ok(()) => {},
    }
    let target = match client { Some(c) => Some(c.to_os_string()), None => None };
    let base = Command::new("refresh-client").flag(request_clipboard, "-l");
    assert(base@.arguments =~= flag_if(request_clipboard, "-l"));
    Ok(base.option_text("-t", &target))
}

/// Builds `send-keys -K -c CLIENT KEY`, which needs tmux 3.4.
pub fn send_client_key_command(client: &ClientName, key: TmuxText, version: &TmuxVersion) -> (r: Result<Command, Error>)
    ensures
        meets_spec_of(version@, release_of(3, 4)) ==> (r matches Ok(c) && c@ == command_with("send-keys",
            seq![plain("-K"), plain("-c"), plain_bytes(client@), plain_bytes(key@)])),
        !meets_spec_of(version@, release_of(3, 4)) ==> (r matches Err(e) && e@ == unsupported("client-targeted keys", release_of(3, 4), version@)),
{
    match gate(version, true, "client-targeted keys", 3, 4) {
        Err(e) => return Err(e),
        Ok(()) => {},
    }
    let ghost k = key@;
    let c = Command::new("send-keys").arg("-K").arg("-c").arg_text(client.to_os_string()).arg_text(key);
    assert(c@.arguments =~= seq![plain("-K"), plain("-c"), plain_bytes(client@), plain_bytes(k)]);
    Ok(c)
}

/// Builds a client command (`suspend-client`, `lock-client`) for an optional client.
pub fn client_command(subcommand: &str, client: Option<&ClientName>) -> (r: Command)
    ensures
        r@ == command_with(subcommand, option_pair("-t", match client { Some(c) => Some(c@), None => None })),
{
    let target = match client { Some(c) => Some(c.to_os_string()), None => None };
    let r = Command::new(subcommand).option_text("-t", &target);
    assert(r@.arguments =~= option_pair("-t", match client { Some(c) => Some(c@), None => None }));
    r
}

/// `detach-client`, for all clients but one when `all`, running a shell command after detaching when given.
pub open spec fn detach_spec(all: bool, client: Option<Seq<u8>>, shell_command: Option<Seq<u8>>) -> CommandView {
    command_with("detach-client", flag_if(all, "-a")
        + match shell_command { Some(s) => seq![plain("-E"), (s, true)], None => seq![] }
        + option_pair("-t", client))
}

/// Builds `detach-client`; with `all`, every client but the given one detaches.
pub fn detach_command(all: bool, client: Option<&ClientName>, shell_command: Option<TmuxText>) -> (r: Command)
    ensures
        r@ == detach_spec(all, match client { Some(c) => Some(c@), None => None }, text_opt(shell_command)),
{
    let target = match client { Some(c) => Some(c.to_os_string()), None => None };
    let base = Command::new("detach-client").flag(all, "-a");
    assert(base@.arguments =~= flag_if(all, "-a"));
    let ghost s = text_opt(shell_command);
    let c = match shell_command {
        Some(cmd) => base.arg("-E").argument(cmd, true),
        None => base,
    };
    assert(c@.arguments =~= base@.arguments + match s { Some(x) => seq![plain("-E"), (x, true)], None => seq![] });
    c.option_text("-t", &target)
}

/// `if-shell` with its options; the condition and commands are hidden in diagnostics.
pub open spec fn if_shell_spec(o: IfShellView) -> CommandView {
    command_with("if-shell", flag_if(o.background, "-b") + flag_if(o.format, "-F") + pane_opt_args(o.target)
        + seq![(o.condition, true), (o.if_command, true)] + hidden_opt(o.else_command))
}

/// Builds the `if-shell` command.
pub fn if_shell_command(options: &IfShell) -> (r: Command)
    ensures
        r@ == if_shell_spec(options@),
{
    let base = Command::new("if-shell").flag(options.background, "-b");
    assert(base@.arguments =~= flag_if(options@.background, "-b"));
    let c = base.flag(options.format, "-F");
    let c = push_pane_opt(c, options.target);
    let c2 = c.argument(options.condition.clone(), true).argument(options.if_command.clone(), true);
    assert(c2@.arguments =~= c@.arguments + seq![(options@.condition, true), (options@.if_command, true)]);
    c2.hidden_text(&options.else_command)
}

/// Builds `show-prompt-history` or `clear-prompt-history`, which need tmux 3.3.
pub fn prompt_history_command(subcommand: &str, capability: &'static str, prompt_type: Option<PromptType>, version: &TmuxVersion) -> (r: Result<Command, Error>)
    ensures
        meets_spec_of(version@, release_of(3, 3)) ==> (r matches Ok(c) && c@ == command_with(subcommand, prompt_type_args(prompt_type))),
        !meets_spec_of(version@, release_of(3, 3)) ==> (r matches Err(e) && e@ == unsupported(capability, release_of(3, 3), version@)),
{
    match gate(version, true, capability, 3, 3) {
        Err(e) => return Err(e),
        Ok(()) => {},
    }
    let c = Command::new(subcommand);
    let r = push_prompt_type(c, prompt_type);
    assert(r@.arguments =~= prompt_type_args(prompt_type));
    Ok(r)
}

/// Builds `run-hook` for a hook whose name must be acceptable.
pub fn run_hook_command(name: &str, target: Option<&str>) -> (r: Result<Command, Error>)
    ensures
        valid_name(name@) ==> (r matches Ok(c) && c@ == command_with("run-hook", option_pair("-t", str_opt(target))
            + seq![plain_bytes(encode_utf8(name@))])),
        !valid_name(name@) ==> (r matches Err(e) && e@ == invalid_name("hook name")),
{
    match validate_name("hook name", name) {
        Err(e) => return Err(e),
        Ok(()) => {},
    }
    let t = match target { Some(s) => Some(TmuxText::from_str(s)), None => None };
    let base = Command::new("run-hook").option_text("-t", &t);
    assert(base@.arguments =~= option_pair("-t", str_opt(target)));
    Ok(base.arg_text(TmuxText::from_str(name)))
}

/// A hook name with an optional array index: `name[index]`.
pub open spec fn hook_name_bytes(name: Seq<char>, index: Option<u32>) -> Seq<u8> {
    match index {
        Some(i) => encode_utf8(name + "["@ + decimal(i as nat) + "]"@),
        None => encode_utf8(name),
    }
}

fn hook_name_text(name: &str, index: Option<u32>) -> (r: TmuxText)
    ensures
        r@ == hook_name_bytes(name@, index),
{
    match index {
        Some(i) => {
            let mut s = crate::text::owned(name);
            crate::text::append_str(&mut s, "[");
            let digits = crate::numeric::decimal_chars(i as u64);
            crate::text::append_chars(&mut s, digits.as_slice());
            crate::text::append_str(&mut s, "]");
            TmuxText::from_string(s)
        },
        None => TmuxText::from_str(name),
    }
}

/// `set-hook` for a scope, appending when asked.
pub open spec fn set_hook_spec(scope: HookScope, target: Option<Seq<u8>>, name: Seq<char>, index: Option<u32>, value: Seq<u8>, append: bool) -> CommandView {
    command_with("set-hook", hook_scope_args(scope) + flag_if(append, "-a") + option_pair("-t", target)
        + seq![plain_bytes(hook_name_bytes(name, index)), plain_bytes(value)])
}

/// Builds the command that sets a hook whose name must be acceptable.
pub fn set_hook_command(scope: HookScope, target: Option<&str>, name: &str, index: Option<u32>, value: &OptionValue, append: bool) -> (r: Result<Command, Error>)
    ensures
        valid_name(name@) ==> (r matches Ok(c) && c@ == set_hook_spec(scope, str_opt(target), name@, index, option_bytes(value@), append)),
        !valid_name(name@) ==> (r matches Err(e) && e@ == invalid_name("hook name")),
{
    match validate_name("hook name", name) {
        Err(e) => return Err(e),
        Ok(()) => {},
    }
    let t = match target { Some(s) => Some(TmuxText::from_str(s)), None => None };
    let base = push_hook_scope(Command::new("set-hook"), scope);
    assert(base@.arguments =~= hook_scope_args(scope));
    let c = base.flag(append, "-a").option_text("-t", &t);
    let r = c.arg_text(hook_name_text(name, index)).arg_text(value.to_os_string());
    assert(r@.arguments =~= set_hook_spec(scope, str_opt(target), name@, index, option_bytes(value@), append).arguments);
    Ok(r)
}

/// `set-hook -u` for a scope.
pub open spec fn unset_hook_spec(scope: HookScope, target: Option<Seq<u8>>, name: Seq<char>, index: Option<u32>) -> CommandView {
    command_with("set-hook", seq![plain("-u")] + hook_scope_args(scope) + option_pair("-t", target)
        + seq![plain_bytes(hook_name_bytes(name, index))])
}

/// Builds the command that unsets a hook whose name must be acceptable.
pub fn unset_hook_command(scope: HookScope, target: Option<&str>, name: &str, index: Option<u32>) -> (r: Result<Command, Error>)
    ensures
        valid_name(name@) ==> (r matches Ok(c) && c@ == unset_hook_spec(scope, str_opt(target), name@, index)),
        !valid_name(name@) ==> (r matches Err(e) && e@ == invalid_name("hook name")),
{
    match validate_name("hook name", name) {
        Err(e) => return Err(e),
        Ok(()) => {},
    }
    let t = match target { Some(s) => Some(TmuxText::from_str(s)), None => None };
    let base = Command::new("set-hook").arg("-u");
    assert(base@.arguments =~= seq![plain("-u")]);
    let c = push_hook_scope(base, scope).option_text("-t", &t);
    Ok(c.arg_text(hook_name_text(name, index)))
}

/// Builds `show-hooks` for a scope and optional target.
pub fn show_hooks_command(scope: HookScope, target: Option<&str>) -> (r: Command)
    ensures
        r@ == command_with("show-hooks", hook_scope_args(scope) + option_pair("-t", str_opt(target))),
{
    let t = match target { Some(s) => Some(TmuxText::from_str(s)), None => None };
    let base = push_hook_scope(Command::new("show-hooks"), scope);
    assert(base@.arguments =~= hook_scope_args(scope));
    base.option_text("-t", &t)
}

/// The argument or version error of a popup, if any: the close behaviours
/// exclude each other, styling and environment need tmux 3.3, close-key flags 3.6.
pub open spec fn popup_error(o: PopupView, v: TmuxVersionView) -> Option<ErrorView> {
    if o.close_on_exit && o.close_on_success {
        Some(invalid_argument("popup close behavior", "close_on_exit and close_on_success are mutually exclusive"))
    } else if !gate_passes(v, o.title is Some || o.border_lines is Some || o.style is Some || o.border_style is Some
        || o.environment.len() > 0 || o.no_border, release_of(3, 3)) {
        Some(unsupported("popup styling and environment", release_of(3, 3), v))
    } else if !gate_passes(v, o.close_on_any_key || o.no_keys, release_of(3, 6)) {
        Some(unsupported("popup close-key flags", release_of(3, 6), v))
    } else {
        None
    }
}

/// `display-popup -t PANE` with its options.
pub open spec fn display_popup_spec(pane: u64, o: PopupView) -> CommandView {
    command_with("display-popup", pane_target_args(pane) + flag_if(o.close_existing, "-C") + option_pair("-c", o.target_client)
        + flag_if(o.close_on_exit, "-E") + (if o.close_on_success { seq![plain("-E"), plain("-E")] } else { seq![] })
        + option_pair("-w", o.width) + option_pair("-h", o.height) + option_pair("-x", o.x) + option_pair("-y", o.y)
        + option_pair("-d", o.cwd) + option_pair("-T", o.title) + option_pair("-b", o.border_lines)
        + option_pair("-s", o.style) + option_pair("-S", o.border_style) + env_args(o.environment)
        + flag_if(o.no_border, "-B") + flag_if(o.close_on_any_key, "-k") + flag_if(o.no_keys, "-N")
        + hidden_opt(o.command))
}

/// Builds the `display-popup` command for a pane after checking its options and the version.
pub fn display_popup_command(pane: PaneId, options: &Popup, version: &TmuxVersion) -> (r: Result<Command, Error>)
    ensures
        popup_error(options@, version@) matches Some(e) ==> (r matches Err(x) && x@ == e),
        popup_error(options@, version@) is None ==> (r matches Ok(c) && c@ == display_popup_spec(pane@, options@)),
{
    if options.close_on_exit && options.close_on_success {
        return Err(invalid_argument_error("popup close behavior", "close_on_exit and close_on_success are mutually exclusive"));
    }
    let styled = options.title.is_some() || options.border_lines.is_some() || options.style.is_some()
        || options.border_style.is_some() || options.environment.len() > 0 || options.no_border;
    match gate(version, styled, "popup styling and environment", 3, 3) {
        Err(e) => return Err(e),
        Ok(()) => {},
    }
    match gate(version, options.close_on_any_key || options.no_keys, "popup close-key flags", 3, 6) {
        Err(e) => return Err(e),
        Ok(()) => {},
    }
    let client = client_text(&options.target_client);
    let base = Command::new("display-popup").target(pane.to_text());
    assert(base@.arguments =~= pane_target_args(pane@));
    let c = base.flag(options.close_existing, "-C").option_text("-c", &client).flag(options.close_on_exit, "-E");
    let c2 = if options.close_on_success { c.arg("-E").arg("-E") } else { c };
    assert(c2@.arguments =~= c@.arguments + (if options@.close_on_success { seq![plain("-E"), plain("-E")] } else { seq![] }));
    let c3 = c2.option_text("-w", &options.width).option_text("-h", &options.height).option_text("-x", &options.x)
        .option_text("-y", &options.y).option_text("-d", &options.cwd).option_text("-T", &options.title)
        .option_text("-b", &options.border_lines).option_text("-s", &options.style).option_text("-S", &options.border_style)
        .environment(&options.environment).flag(options.no_border, "-B").flag(options.close_on_any_key, "-k")
        .flag(options.no_keys, "-N");
    Ok(c3.hidden_text(&options.command))
}


/// A `run-shell` delay, given as whole seconds and nanoseconds, must be
/// greater than zero.
pub fn check_delay(secs: u64, nanos: u32) -> (r: Result<(), Error>)
    ensures
        secs > 0 || nanos > 0 ==> r is Ok,
        secs == 0 && nanos == 0 ==> (r matches Err(e) && e@ == invalid_argument("run-shell delay", "must be non-zero")),
{
    if secs == 0 && nanos == 0 {
        return Err(invalid_argument_error("run-shell delay", "must be non-zero"));
    }
    Ok(())
}

} // verus!
