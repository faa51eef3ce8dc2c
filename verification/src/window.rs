//! Window options and the commands of window operations.

use vstd::prelude::*;
use vstd::utf8::encode_utf8;
use crate::command::{
    command_with, env_args, env_view, flag_if, hidden_opt, number_bytes, number_opt, number_text, option_pair, plain,
    plain_bytes, text_opt, with_args, Command, CommandView,
};
use crate::error::{invalid_argument, invalid_argument_error, Error, ErrorView};
use crate::numeric::decimal;
use crate::pane::{direction_flag, pane_bytes, widen, ResizeDirection};
use crate::server::{env_inserted, insert_env, invalid_name, valid_name};
use crate::strmap::StrMap;
use crate::target::{
    id_text, session_target_text, window_link_text, window_target_text, PaneId, SessionId, SessionTarget, SessionTargetView,
    WindowId, WindowLink, WindowLinkView, WindowTarget, WindowTargetView,
};
use crate::text::TmuxText;

verus! {

/// A tmux window layout.
#[derive(Clone, Debug, Hash)]
pub enum Layout {
    /// Panes spread evenly from left to right.
    EvenHorizontal,
    /// Panes spread evenly from top to bottom.
    EvenVertical,
    /// A large pane on top, the rest below.
    MainHorizontal,
    /// A large pane on the left, the rest on the right.
    MainVertical,
    /// Panes in a grid.
    Tiled,
    /// A layout string, such as one a window snapshot reports.
    Custom(String),
}

impl PartialEq for Layout {
    fn eq(&self, other: &Self) -> (r: bool) {
        match (self, other) {
            (Layout::EvenHorizontal, Layout::EvenHorizontal) => true,
            (Layout::EvenVertical, Layout::EvenVertical) => true,
            (Layout::MainHorizontal, Layout::MainHorizontal) => true,
            (Layout::MainVertical, Layout::MainVertical) => true,
            (Layout::Tiled, Layout::Tiled) => true,
            (Layout::Custom(a), Layout::Custom(b)) => *a == *b,
            _ => false,
        }
    }
}

impl vstd::std_specs::cmp::PartialEqSpecImpl for Layout {
    open spec fn obeys_eq_spec() -> bool {
        true
    }

    open spec fn eq_spec(&self, other: &Self) -> bool {
        match (self, other) {
            (Layout::EvenHorizontal, Layout::EvenHorizontal) => true,
            (Layout::EvenVertical, Layout::EvenVertical) => true,
            (Layout::MainHorizontal, Layout::MainHorizontal) => true,
            (Layout::MainVertical, Layout::MainVertical) => true,
            (Layout::Tiled, Layout::Tiled) => true,
            (Layout::Custom(a), Layout::Custom(b)) => a@ == b@,
            _ => false,
        }
    }
}

impl Eq for Layout {}


/// The name tmux gives a layout.
pub open spec fn layout_name(l: Layout) -> Seq<char> {
    match l {
        Layout::EvenHorizontal => "even-horizontal"@,
        Layout::EvenVertical => "even-vertical"@,
        Layout::MainHorizontal => "main-horizontal"@,
        Layout::MainVertical => "main-vertical"@,
        Layout::Tiled => "tiled"@,
        Layout::Custom(s) => s@,
    }
}

impl Layout {
    /// The layout as tmux reads it.
    pub fn to_string(&self) -> (r: String)
        ensures
            r@ == layout_name(*self),
    {
        match self {
            Layout::EvenHorizontal => crate::text::owned("even-horizontal"),
            Layout::EvenVertical => crate::text::owned("even-vertical"),
            Layout::MainHorizontal => crate::text::owned("main-horizontal"),
            Layout::MainVertical => crate::text::owned("main-vertical"),
            Layout::Tiled => crate::text::owned("tiled"),
            Layout::Custom(s) => crate::text::copy_string(s),
        }
    }
}

/// A rotation direction.
#[derive(Clone, Copy, Debug, Eq, Hash, PartialEq, Structural)]
pub enum Rotation {
    /// Rotate upward.
    Up,
    /// Rotate downward.
    Down,
}

/// The placement of a new window relative to another.
#[derive(Clone, Copy, Debug, Eq, Hash, PartialEq, Structural)]
pub enum WindowPosition {
    /// Before the other window.
    Before,
    /// After the other window.
    After,
}

/// `-b` or `-a` for an optional position.
pub open spec fn position_args(p: Option<WindowPosition>) -> Seq<(Seq<u8>, bool)> {
    match p {
        Some(WindowPosition::Before) => seq![plain("-b")],
        Some(WindowPosition::After) => seq![plain("-a")],
        None => seq![],
    }
}

fn push_position(command: Command, p: Option<WindowPosition>) -> (r: Command)
    ensures
        r@ == with_args(command@, position_args(p)),
{
    let r = match p {
        Some(WindowPosition::Before) => command.arg("-b"),
        Some(WindowPosition::After) => command.arg("-a"),
        None => command,
    };
    assert(r@.arguments =~= command@.arguments + position_args(p));
    r
}

/// The bytes of a window link.
pub open spec fn link_bytes(l: WindowLinkView) -> Seq<u8> {
    encode_utf8(window_link_text(l))
}

/// The target arguments of a window link.
pub open spec fn link_target_args(l: WindowLinkView) -> Seq<(Seq<u8>, bool)> {
    seq![plain("-t"), plain_bytes(link_bytes(l))]
}

fn link_targeted(subcommand: &str, link: &WindowLink) -> (r: Command)
    ensures
        r@ == command_with(subcommand, link_target_args(link@)),
{
    let c = Command::new(subcommand).target(link.to_text());
    assert(c@.arguments =~= link_target_args(link@));
    c
}

/// Typed arguments for `resize-window`.
#[derive(Clone, Debug)]
pub struct WindowResize {
    adjustment: Option<(ResizeDirection, u32)>,
    width: Option<u32>,
    height: Option<u32>,
    expand: bool,
    shrink: bool,
}

/// The mathematical content of [`WindowResize`].
pub struct WindowResizeView {
    pub adjustment: Option<(ResizeDirection, u32)>,
    pub width: Option<u32>,
    pub height: Option<u32>,
    pub expand: bool,
    pub shrink: bool,
}

fn same_u32(a: Option<u32>, b: Option<u32>) -> (r: bool)
    ensures
        r == (a == b),
{
    match (a, b) {
        (None, None) => true,
        (Some(x), Some(y)) => x == y,
        _ => false,
    }
}

impl PartialEq for WindowResize {
    fn eq(&self, other: &Self) -> (r: bool) {
        let adjustment = match (self.adjustment, other.adjustment) {
            (None, None) => true,
            (Some((d1, c1)), Some((d2, c2))) => d1 == d2 && c1 == c2,
            _ => false,
        };
        adjustment && same_u32(self.width, other.width) && same_u32(self.height, other.height)
            && self.expand == other.expand && self.shrink == other.shrink
    }
}

impl vstd::std_specs::cmp::PartialEqSpecImpl for WindowResize {
    open spec fn obeys_eq_spec() -> bool {
        true
    }

    open spec fn eq_spec(&self, other: &Self) -> bool {
        self@ == other@
    }
}

impl Eq for WindowResize {}

impl View for WindowResize {
    type V = WindowResizeView;

    closed spec fn view(&self) -> WindowResizeView {
        WindowResizeView {
            adjustment: self.adjustment,
            width: self.width,
            height: self.height,
            expand: self.expand,
            shrink: self.shrink,
        }
    }
}

impl Default for WindowResize {
    /// The same value as `WindowResize::new()`.
    fn default() -> (r: Self)
        ensures
            r@ == (WindowResizeView { adjustment: None, width: None, height: None, expand: false, shrink: false }),
    {
        WindowResize::new()
    }
}

impl WindowResize {
    /// Creates empty resize arguments.
    pub fn new() -> (r: Self)
        ensures
            r@ == (WindowResizeView { adjustment: None, width: None, height: None, expand: false, shrink: false }),
    {
        let r = WindowResize { adjustment: None, width: None, height: None, expand: false, shrink: false };
        r
    }

    /// Expands the window to the largest client.
    pub fn expand(self, enabled: bool) -> (r: Self)
        ensures
            r@ == (WindowResizeView { expand: enabled, ..self@ }),
    {
        let mut s = self;
        s.expand = enabled;
        s
    }

    /// Shrinks the window to the smallest client.
    pub fn shrink(self, enabled: bool) -> (r: Self)
        ensures
            r@ == (WindowResizeView { shrink: enabled, ..self@ }),
    {
        let mut s = self;
        s.shrink = enabled;
        s
    }

    /// Adjusts one edge by a non-zero number of cells.
    pub fn adjustment(self, direction: ResizeDirection, cells: u32) -> (r: Result<Self, Error>)
        ensures
            cells != 0 ==> (r matches Ok(x) && x@ == (WindowResizeView { adjustment: Some((direction, cells)), ..self@ })),
            cells == 0 ==> (r matches Err(e) && e@ == invalid_argument("window resize adjustment", "must be non-zero")),
    {
        if cells == 0 {
            return Err(invalid_argument_error("window resize adjustment", "must be non-zero"));
        }
        let mut s = self;
        s.adjustment = Some((direction, cells));
        Ok(s)
    }

    /// Sets a non-zero absolute width.
    pub fn width(self, width: u32) -> (r: Result<Self, Error>)
        ensures
            width != 0 ==> (r matches Ok(x) && x@ == (WindowResizeView { width: Some(width), ..self@ })),
            width == 0 ==> (r matches Err(e) && e@ == invalid_argument("window width", "must be non-zero")),
    {
        if width == 0 {
            return Err(invalid_argument_error("window width", "must be non-zero"));
        }
        let mut s = self;
        s.width = Some(width);
        Ok(s)
    }

    /// Sets a non-zero absolute height.
    pub fn height(self, height: u32) -> (r: Result<Self, Error>)
        ensures
            height != 0 ==> (r matches Ok(x) && x@ == (WindowResizeView { height: Some(height), ..self@ })),
            height == 0 ==> (r matches Err(e) && e@ == invalid_argument("window height", "must be non-zero")),
    {
        if height == 0 {
            return Err(invalid_argument_error("window height", "must be non-zero"));
        }
        let mut s = self;
        s.height = Some(height);
        Ok(s)
    }
}

/// Typed arguments for `respawn-window`.
#[derive(Clone, Debug)]
pub struct RespawnWindow {
    command: Option<TmuxText>,
    cwd: Option<TmuxText>,
    environment: StrMap<TmuxText>,
    kill: bool,
}

/// The mathematical content of [`RespawnWindow`].
pub struct RespawnWindowView {
    pub command: Option<Seq<u8>>,
    pub cwd: Option<Seq<u8>>,
    pub environment: Seq<(Seq<char>, Seq<u8>)>,
    pub kill: bool,
}

impl View for RespawnWindow {
    type V = RespawnWindowView;

    closed spec fn view(&self) -> RespawnWindowView {
        RespawnWindowView {
            command: text_opt(self.command),
            cwd: text_opt(self.cwd),
            environment: env_view(self.environment),
            kill: self.kill,
        }
    }
}

impl Default for RespawnWindow {
    /// The same value as `RespawnWindow::new()`.
    fn default() -> (r: Self)
        ensures
            r@ == (RespawnWindowView { command: None, cwd: None, environment: Seq::empty(), kill: false }),
    {
        RespawnWindow::new()
    }
}

impl RespawnWindow {
    /// Creates default respawn arguments.
    pub fn new() -> (r: Self)
        ensures
            r@ == (RespawnWindowView { command: None, cwd: None, environment: Seq::empty(), kill: false }),
    {
        let r = RespawnWindow { command: None, cwd: None, environment: StrMap::new(), kill: false };
        assert(r@.environment =~= Seq::empty());
        r
    }

    /// Sets the replacement command.
    pub fn command(self, value: TmuxText) -> (r: Self)
        ensures
            r@ == (RespawnWindowView { command: Some(value@), ..self@ }),
    {
        let mut s = self;
        s.command = Some(value);
        s
    }

    /// Sets the working directory.
    pub fn cwd(self, value: TmuxText) -> (r: Self)
        ensures
            r@ == (RespawnWindowView { cwd: Some(value@), ..self@ }),
    {
        let mut s = self;
        s.cwd = Some(value);
        s
    }

    /// Adds an environment entry.
    pub fn environment(self, name: String, value: TmuxText) -> (r: Result<Self, Error>)
        ensures
            valid_name(name@) ==> (r matches Ok(x) && x@ == (RespawnWindowView { environment: x@.environment, ..self@ })
                && env_inserted(self@.environment, x@.environment, name@, value@)),
            !valid_name(name@) ==> (r matches Err(e) && e@ == invalid_name("environment name")),
    {
        let mut s = self;
        match insert_env(&mut s.environment, name, value) {
            Ok(()) => Ok(s),
            Err(e) => Err(e),
        }
    }

    /// Kills the existing process.
    pub fn kill(self, enabled: bool) -> (r: Self)
        ensures
            r@ == (RespawnWindowView { kill: enabled, ..self@ }),
    {
        let mut s = self;
        s.kill = enabled;
        s
    }

}

/// Typed arguments for `new-window`.
#[derive(Clone, Debug)]
pub struct NewWindow {
    name: Option<TmuxText>,
    cwd: Option<TmuxText>,
    index: Option<u32>,
    detached: bool,
    kill_existing: bool,
    shell_command: Option<TmuxText>,
    environment: StrMap<TmuxText>,
    relative_to: Option<WindowTarget>,
    position: Option<WindowPosition>,
    select_existing: bool,
}

/// The mathematical content of [`NewWindow`].
pub struct NewWindowView {
    pub name: Option<Seq<u8>>,
    pub cwd: Option<Seq<u8>>,
    pub index: Option<u32>,
    pub detached: bool,
    pub kill_existing: bool,
    pub shell_command: Option<Seq<u8>>,
    pub environment: Seq<(Seq<char>, Seq<u8>)>,
    pub relative_to: Option<WindowTargetView>,
    pub position: Option<WindowPosition>,
    pub select_existing: bool,
}

impl View for NewWindow {
    type V = NewWindowView;

    closed spec fn view(&self) -> NewWindowView {
        NewWindowView {
            name: text_opt(self.name),
            cwd: text_opt(self.cwd),
            index: self.index,
            detached: self.detached,
            kill_existing: self.kill_existing,
            shell_command: text_opt(self.shell_command),
            environment: env_view(self.environment),
            relative_to: match self.relative_to { Some(v) => Some(v@), None => None },
            position: self.position,
            select_existing: self.select_existing,
        }
    }
}

impl Default for NewWindow {
    /// The same value as `NewWindow::new()`.
    fn default() -> (r: Self)
        ensures
            r@ == (NewWindowView { name: None, cwd: None, index: None, detached: true, kill_existing: false, shell_command: None, environment: Seq::empty(), relative_to: None, position: None, select_existing: false }),
    {
        NewWindow::new()
    }
}

impl NewWindow {
    /// Creates detached window arguments.
    pub fn new() -> (r: Self)
        ensures
            r@ == (NewWindowView { name: None, cwd: None, index: None, detached: true, kill_existing: false, shell_command: None, environment: Seq::empty(), relative_to: None, position: None, select_existing: false }),
    {
        let r = NewWindow { name: None, cwd: None, index: None, detached: true, kill_existing: false, shell_command: None, environment: StrMap::new(), relative_to: None, position: None, select_existing: false };
        assert(r@.environment =~= Seq::empty());
        r
    }

    /// Sets the window name.
    pub fn name(self, value: TmuxText) -> (r: Self)
        ensures
            r@ == (NewWindowView { name: Some(value@), ..self@ }),
    {
        let mut s = self;
        s.name = Some(value);
        s
    }

    /// Sets the starting directory.
    pub fn cwd(self, value: TmuxText) -> (r: Self)
        ensures
            r@ == (NewWindowView { cwd: Some(value@), ..self@ }),
    {
        let mut s = self;
        s.cwd = Some(value);
        s
    }

    /// Sets the window index.
    pub fn index(self, value: u32) -> (r: Self)
        ensures
            r@ == (NewWindowView { index: Some(value), ..self@ }),
    {
        let mut s = self;
        s.index = Some(value);
        s
    }

    /// Chooses whether the new window stays in the background.
    pub fn detached(self, enabled: bool) -> (r: Self)
        ensures
            r@ == (NewWindowView { detached: enabled, ..self@ }),
    {
        let mut s = self;
        s.detached = enabled;
        s
    }

    /// Replaces an existing window at the index.
    pub fn kill_existing(self, enabled: bool) -> (r: Self)
        ensures
            r@ == (NewWindowView { kill_existing: enabled, ..self@ }),
    {
        let mut s = self;
        s.kill_existing = enabled;
        s
    }

    /// Sets the shell command.
    pub fn shell_command(self, value: TmuxText) -> (r: Self)
        ensures
            r@ == (NewWindowView { shell_command: Some(value@), ..self@ }),
    {
        let mut s = self;
        s.shell_command = Some(value);
        s
    }

    /// Adds a window environment variable. Values are hidden in diagnostics.
    pub fn environment(self, name: String, value: TmuxText) -> (r: Result<Self, Error>)
        ensures
            valid_name(name@) ==> (r matches Ok(x) && x@ == (NewWindowView { environment: x@.environment, ..self@ })
                && env_inserted(self@.environment, x@.environment, name@, value@)),
            !valid_name(name@) ==> (r matches Err(e) && e@ == invalid_name("environment name")),
    {
        let mut s = self;
        match insert_env(&mut s.environment, name, value) {
            Ok(()) => Ok(s),
            Err(e) => Err(e),
        }
    }

    /// Selects an existing window with the same name instead of creating one.
    pub fn select_existing(self, enabled: bool) -> (r: Self)
        ensures
            r@ == (NewWindowView { select_existing: enabled, ..self@ }),
    {
        let mut s = self;
        s.select_existing = enabled;
        s
    }

    /// Places the window before or after another window.
    pub fn relative_to(self, target: WindowTarget, position: WindowPosition) -> (r: Self)
        ensures
            r@ == (NewWindowView { relative_to: Some(target@), position: Some(position), ..self@ }),
    {
        let mut s = self;
        s.relative_to = Some(target);
        s.position = Some(position);
        s
    }
}

/// The target of a new window: the window it is placed beside, else the
/// session with an optional index.
pub open spec fn new_window_target(session: u64, o: NewWindowView) -> Seq<char> {
    match o.relative_to {
        Some(t) => window_target_text(t),
        None => match o.index {
            Some(i) => id_text('$', session) + seq![':'] + decimal(i as nat),
            None => id_text('$', session),
        },
    }
}

/// `new-window` in a session: it prints the new window's ID.
pub open spec fn new_window_spec(session: u64, o: NewWindowView) -> CommandView {
    command_with("new-window", seq![plain("-P"), plain("-F"), plain("#{window_id}"), plain("-t"),
        plain_bytes(encode_utf8(new_window_target(session, o)))]
        + flag_if(o.detached, "-d") + flag_if(o.kill_existing, "-k") + flag_if(o.select_existing, "-S")
        + position_args(o.position) + option_pair("-n", o.name) + option_pair("-c", o.cwd)
        + env_args(o.environment) + hidden_opt(o.shell_command))
}

fn new_window_target_text(session: SessionId, options: &NewWindow) -> (r: TmuxText)
    ensures
        r@ == encode_utf8(new_window_target(session@, options@)),
{
    match &options.relative_to {
        Some(t) => t.to_text(),
        None => match options.index {
            Some(i) => {
                let mut s = session.to_string();
                crate::text::push_char(&mut s, ':');
                let digits = crate::numeric::decimal_chars(i as u64);
                crate::text::append_chars(&mut s, digits.as_slice());
                assert(s@ =~= id_text('$', session@) + seq![':'] + decimal(i as nat));
                TmuxText::from_string(s)
            },
            None => session.to_text(),
        },
    }
}

/// Builds the command that creates a window in a session.
pub fn new_window_command(session: SessionId, options: &NewWindow) -> (r: Command)
    ensures
        r@ == new_window_spec(session@, options@),
{
    let target = new_window_target_text(session, options);
    let base = Command::new("new-window").arg("-P").arg("-F").arg("#{window_id}").arg("-t").arg_text(target);
    assert(base@.arguments =~= seq![plain("-P"), plain("-F"), plain("#{window_id}"), plain("-t"),
        plain_bytes(encode_utf8(new_window_target(session@, options@)))]);
    let c = base.flag(options.detached, "-d").flag(options.kill_existing, "-k").flag(options.select_existing, "-S");
    let c = push_position(c, options.position);
    c.option_text("-n", &options.name).option_text("-c", &options.cwd).environment(&options.environment)
        .hidden_text(&options.shell_command)
}

/// Builds `last-pane` for a window link, choosing input and zoom.
pub fn last_pane_command(link: &WindowLink, input_enabled: Option<bool>, keep_zoom: bool) -> (r: Command)
    ensures
        r@ == command_with("last-pane", link_target_args(link@) + crate::pane::input_args(input_enabled) + flag_if(keep_zoom, "-Z")),
{
    let c = link_targeted("last-pane", link);
    let c2 = match input_enabled {
        Some(true) => c.arg("-e"),
        Some(false) => c.arg("-d"),
        None => c,
    };
    assert(c2@.arguments =~= c@.arguments + crate::pane::input_args(input_enabled));
    c2.flag(keep_zoom, "-Z")
}

/// Builds a command that only names the window link: `select-window`,
/// `next-layout`, `previous-layout` and the like.
pub fn window_command(subcommand: &str, link: &WindowLink) -> (r: Command)
    ensures
        r@ == command_with(subcommand, link_target_args(link@)),
{
    link_targeted(subcommand, link)
}

/// Builds `rename-window` for a link.
pub fn rename_command(link: &WindowLink, name: TmuxText) -> (r: Command)
    ensures
        r@ == command_with("rename-window", link_target_args(link@) + seq![plain_bytes(name@)]),
{
    link_targeted("rename-window", link).arg_text(name)
}

/// Builds `select-layout` for a link.
pub fn select_layout_command(link: &WindowLink, layout: &Layout) -> (r: Command)
    ensures
        r@ == command_with("select-layout", link_target_args(link@) + seq![plain_bytes(encode_utf8(layout_name(*layout)))]),
{
    link_targeted("select-layout", link).arg_text(TmuxText::from_string(layout.to_string()))
}

/// Builds `select-layout -E` for a link, which spreads panes evenly.
pub fn spread_layout_command(link: &WindowLink) -> (r: Command)
    ensures
        r@ == command_with("select-layout", seq![plain("-E")] + link_target_args(link@)),
{
    let c = Command::new("select-layout").arg("-E").target(link.to_text());
    assert(c@.arguments =~= seq![plain("-E")] + link_target_args(link@));
    c
}

/// Builds `resize-window` to an absolute size: at least one dimension, and no zero dimension.
pub fn resize_command(link: &WindowLink, width: Option<u32>, height: Option<u32>) -> (r: Result<Command, Error>)
    ensures
        width is None && height is None ==> (r matches Err(e) && e@ == invalid_argument("window size", "width or height is required")),
        !(width is None && height is None) && (width == Some(0u32) || height == Some(0u32)) ==> (r matches Err(e)
            && e@ == invalid_argument("window size", "dimensions must be non-zero")),
        !(width is None && height is None) && !(width == Some(0u32) || height == Some(0u32)) ==> (r matches Ok(c)
            && c@ == command_with("resize-window", link_target_args(link@) + option_pair("-x", number_opt(widen(width)))
                + option_pair("-y", number_opt(widen(height))))),
{
    if width.is_none() && height.is_none() {
        return Err(invalid_argument_error("window size", "width or height is required"));
    }
    if width == Some(0u32) || height == Some(0u32) {
        return Err(invalid_argument_error("window size", "dimensions must be non-zero"));
    }
    let w = match width { Some(v) => Some(v as u64), None => None };
    let h = match height { Some(v) => Some(v as u64), None => None };
    Ok(link_targeted("resize-window", link).option_number("-x", w).option_number("-y", h))
}

/// How many resize modes a resize asks for: an adjustment, an absolute size,
/// expanding, shrinking.
pub open spec fn resize_modes(o: WindowResizeView) -> int {
    (if o.adjustment is Some { 1int } else { 0int }) + (if o.width is Some || o.height is Some { 1int } else { 0int })
        + (if o.expand { 1int } else { 0int }) + (if o.shrink { 1int } else { 0int })
}

/// `resize-window` for a link with exactly one mode.
pub open spec fn resize_with_spec(link: WindowLinkView, o: WindowResizeView) -> CommandView {
    command_with("resize-window", link_target_args(link)
        + match o.adjustment { Some((d, c)) => seq![plain(direction_flag(d)), plain_bytes(number_bytes(c as nat))], None => seq![] }
        + option_pair("-x", number_opt(widen(o.width))) + option_pair("-y", number_opt(widen(o.height)))
        + flag_if(o.expand, "-A") + flag_if(o.shrink, "-a"))
}

/// Builds `resize-window` from resize arguments; exactly one mode is required.
pub fn resize_with_command(link: &WindowLink, options: &WindowResize) -> (r: Result<Command, Error>)
    ensures
        resize_modes(options@) != 1 ==> (r matches Err(e) && e@ == invalid_argument("window resize mode",
            "choose exactly one of adjustment, absolute size, expand, or shrink")),
        resize_modes(options@) == 1 ==> (r matches Ok(c) && c@ == resize_with_spec(link@, options@)),
{
    let mut modes: u32 = 0;
    if options.adjustment.is_some() { modes = modes + 1; }
    if options.width.is_some() || options.height.is_some() { modes = modes + 1; }
    if options.expand { modes = modes + 1; }
    if options.shrink { modes = modes + 1; }
    if modes != 1 {
        return Err(invalid_argument_error("window resize mode", "choose exactly one of adjustment, absolute size, expand, or shrink"));
    }
    let c = link_targeted("resize-window", link);
    let c2 = match options.adjustment {
        Some((d, cells)) => c.arg(d.flag()).arg_text(number_text(cells as u64)),
        None => c,
    };
    assert(c2@.arguments =~= c@.arguments + match options@.adjustment {
        Some((d, cells)) => seq![plain(direction_flag(d)), plain_bytes(number_bytes(cells as nat))], None => seq![] });
    let w = match options.width { Some(v) => Some(v as u64), None => None };
    let h = match options.height { Some(v) => Some(v as u64), None => None };
    Ok(c2.option_number("-x", w).option_number("-y", h).flag(options.expand, "-A").flag(options.shrink, "-a"))
}

/// Builds `rotate-window` for a link, downward with `-D`.
pub fn rotate_command(link: &WindowLink, direction: Rotation) -> (r: Command)
    ensures
        r@ == command_with("rotate-window", flag_if(direction == Rotation::Down, "-D") + link_target_args(link@)),
{
    let base = Command::new("rotate-window").flag(direction == Rotation::Down, "-D");
    assert(base@.arguments =~= flag_if(direction == Rotation::Down, "-D"));
    let r = base.target(link.to_text());
    assert(r@.arguments =~= flag_if(direction == Rotation::Down, "-D") + link_target_args(link@));
    r
}

/// Builds `rotate-window -U|-D -Z` for a link, keeping the zoom.
pub fn rotate_keep_zoom_command(link: &WindowLink, direction: Rotation) -> (r: Command)
    ensures
        r@ == command_with("rotate-window", seq![plain(if direction == Rotation::Up { "-U" } else { "-D" }), plain("-Z")]
            + link_target_args(link@)),
{
    let flag = if direction == Rotation::Up { "-U" } else { "-D" };
    let r = Command::new("rotate-window").arg(flag).arg("-Z").target(link.to_text());
    assert(r@.arguments =~= seq![plain(flag), plain("-Z")] + link_target_args(link@));
    r
}

/// Builds `swap-window -s LINK [-d] -t DESTINATION`.
pub fn swap_with_command(link: &WindowLink, destination: &WindowTarget, detached: bool) -> (r: Command)
    ensures
        r@ == command_with("swap-window", seq![plain("-s"), plain_bytes(link_bytes(link@))] + flag_if(detached, "-d")
            + seq![plain("-t"), plain_bytes(encode_utf8(window_target_text(destination@)))]),
{
    let base = Command::new("swap-window").arg("-s").arg_text(link.to_text());
    assert(base@.arguments =~= seq![plain("-s"), plain_bytes(link_bytes(link@))]);
    let c = base.flag(detached, "-d");
    let r = c.arg("-t").arg_text(destination.to_text());
    assert(r@.arguments =~= c@.arguments + seq![plain("-t"), plain_bytes(encode_utf8(window_target_text(destination@)))]);
    r
}

/// The destination of a link or move: the session, with an optional index.
pub open spec fn session_index_text(session: SessionTargetView, index: Option<u32>) -> Seq<char> {
    match index {
        Some(i) => session_target_text(session) + seq![':'] + decimal(i as nat),
        None => session_target_text(session),
    }
}

/// The text of a session target with an optional index.
pub fn session_index(session: &SessionTarget, index: Option<u32>) -> (r: String)
    ensures
        r@ == session_index_text(session@, index),
{
    let mut s = session.to_string();
    match index {
        Some(i) => {
            crate::text::push_char(&mut s, ':');
            let digits = crate::numeric::decimal_chars(i as u64);
            crate::text::append_chars(&mut s, digits.as_slice());
        },
        None => {},
    }
    s
}

/// `link-window` or `move-window` from a link to a session destination.
pub open spec fn relink_spec(subcommand: &str, link: WindowLinkView, session: SessionTargetView, index: Option<u32>,
    kill_existing: bool, position: Option<WindowPosition>, detached: bool) -> CommandView {
    command_with(subcommand, seq![plain("-s"), plain_bytes(link_bytes(link)), plain("-t"),
        plain_bytes(encode_utf8(session_index_text(session, index)))]
        + flag_if(kill_existing, "-k") + position_args(position) + flag_if(detached, "-d"))
}

/// Builds `link-window` or `move-window` for a link.
pub fn relink_command(subcommand: &str, link: &WindowLink, session: &SessionTarget, index: Option<u32>,
    kill_existing: bool, position: Option<WindowPosition>, detached: bool) -> (r: Command)
    ensures
        r@ == relink_spec(subcommand, link@, session@, index, kill_existing, position, detached),
{
    let destination = session_index(session, index);
    let base = Command::new(subcommand).arg("-s").arg_text(link.to_text()).arg("-t").arg_text(TmuxText::from_string(destination));
    assert(base@.arguments =~= seq![plain("-s"), plain_bytes(link_bytes(link@)), plain("-t"),
        plain_bytes(encode_utf8(session_index_text(session@, index)))]);
    let c = base.flag(kill_existing, "-k");
    let c = push_position(c, position);
    c.flag(detached, "-d")
}

/// Builds `unlink-window` for a link, killing the window if it was the last link when asked.
pub fn unlink_command(link: &WindowLink, kill_if_last: bool) -> (r: Command)
    ensures
        r@ == command_with("unlink-window", flag_if(kill_if_last, "-k") + link_target_args(link@)),
{
    let base = Command::new("unlink-window").flag(kill_if_last, "-k");
    assert(base@.arguments =~= flag_if(kill_if_last, "-k"));
    let r = base.target(link.to_text());
    assert(r@.arguments =~= flag_if(kill_if_last, "-k") + link_target_args(link@));
    r
}

/// Builds `respawn-window` for a link with a command and directory.
pub fn respawn_command(link: &WindowLink, command: Option<TmuxText>, cwd: Option<TmuxText>, kill: bool) -> (r: Command)
    ensures
        r@ == command_with("respawn-window", link_target_args(link@) + flag_if(kill, "-k") + option_pair("-c", text_opt(cwd))
            + hidden_opt(text_opt(command))),
{
    link_targeted("respawn-window", link).flag(kill, "-k").option_text("-c", &cwd).hidden_text(&command)
}

/// `respawn-window` for a link with its options.
pub open spec fn respawn_with_spec(link: WindowLinkView, o: RespawnWindowView) -> CommandView {
    command_with("respawn-window", link_target_args(link) + flag_if(o.kill, "-k") + option_pair("-c", o.cwd)
        + env_args(o.environment) + hidden_opt(o.command))
}

/// Builds `respawn-window` from respawn arguments.
pub fn respawn_with_command(link: &WindowLink, options: &RespawnWindow) -> (r: Command)
    ensures
        r@ == respawn_with_spec(link@, options@),
{
    link_targeted("respawn-window", link).flag(options.kill, "-k").option_text("-c", &options.cwd)
        .environment(&options.environment).hidden_text(&options.command)
}

/// Builds `kill-window -t WINDOW_ID`.
pub fn kill_command(window: WindowId) -> (r: Command)
    ensures
        r@ == command_with("kill-window", seq![plain("-t"), plain_bytes(encode_utf8(id_text('@', window@)))]),
{
    let c = Command::new("kill-window").target(window.to_text());
    assert(c@.arguments =~= seq![plain("-t"), plain_bytes(encode_utf8(id_text('@', window@)))]);
    c
}

/// Builds `kill-window -a` for a link, which kills every other window.
pub fn kill_others_command(link: &WindowLink) -> (r: Command)
    ensures
        r@ == command_with("kill-window", seq![plain("-a")] + link_target_args(link@)),
{
    let c = Command::new("kill-window").arg("-a").target(link.to_text());
    assert(c@.arguments =~= seq![plain("-a")] + link_target_args(link@));
    c
}

/// Builds `select-pane -t PANE` for a window's pane.
pub fn select_pane_command(pane: PaneId) -> (r: Command)
    ensures
        r@ == command_with("select-pane", seq![plain("-t"), plain_bytes(pane_bytes(pane@))]),
{
    let c = Command::new("select-pane").target(pane.to_text());
    assert(c@.arguments =~= seq![plain("-t"), plain_bytes(pane_bytes(pane@))]);
    c
}

/// Resize arguments hold one adjustment: a second `adjustment` replaces the
/// first, whatever its direction, and the other setters keep the last value
/// they were given and commute with it.
pub proof fn law_resize_adjustment_slot(v: WindowResizeView, d: ResizeDirection, e: ResizeDirection, c: u32, k: u32, f: bool, g: bool)
    ensures
        (WindowResizeView { adjustment: Some((e, k)), ..WindowResizeView { adjustment: Some((d, c)), ..v } })
            == (WindowResizeView { adjustment: Some((e, k)), ..v }),
        (WindowResizeView { width: Some(k), ..WindowResizeView { width: Some(c), ..v } }) == (WindowResizeView { width: Some(k), ..v }),
        (WindowResizeView { height: Some(k), ..WindowResizeView { height: Some(c), ..v } }) == (WindowResizeView { height: Some(k), ..v }),
        (WindowResizeView { expand: g, ..WindowResizeView { expand: f, ..v } }) == (WindowResizeView { expand: g, ..v }),
        (WindowResizeView { shrink: g, ..WindowResizeView { shrink: f, ..v } }) == (WindowResizeView { shrink: g, ..v }),
        (WindowResizeView { width: Some(k), ..WindowResizeView { adjustment: Some((d, c)), ..v } })
            == (WindowResizeView { adjustment: Some((d, c)), ..WindowResizeView { width: Some(k), ..v } }),
        (WindowResizeView { expand: f, ..WindowResizeView { adjustment: Some((d, c)), ..v } })
            == (WindowResizeView { adjustment: Some((d, c)), ..WindowResizeView { expand: f, ..v } }),
{
}

} // verus!
