//! Pane options and the commands of pane operations.

use vstd::prelude::*;
use vstd::string::StringSliceAdditionalSpecFns;
use vstd::utf8::encode_utf8;
use crate::buffer::BufferName;
use crate::command::{
    command_with, env_args, env_view, flag_if, hidden_opt, number_bytes, number_opt, number_text, option_pair, plain,
    plain_bytes, same_text_opt, signed_bytes, concat_groups, inserts, lemma_concat_groups_push, lemma_fill_group, signed_text, text_opt, with_args, Command, CommandView,
};
use crate::error::{invalid_argument, invalid_argument_error, Error, ErrorView};
use crate::numeric::{decimal, signed_decimal};
use crate::server::{client_opt, client_text, env_inserted, insert_env, invalid_name, pane_opt, valid_name};
use crate::strmap::StrMap;
use crate::target::{id_text, window_target_text, ClientName, PaneId, WindowTarget, WindowTargetView};
use crate::text::{lemma_map_push, texts_equal, TmuxText};
use crate::version::{gate, gate_passes, meets_spec, release_of, unsupported, ReleaseVersion, ReleaseVersionView, TmuxVersion, TmuxVersionView};

verus! {

/// Orientation for a new pane.
#[derive(Clone, Copy, Debug, Eq, Hash, PartialEq, Structural)]
pub enum SplitDirection {
    /// Stack panes from top to bottom (tmux default).
    Vertical,
    /// Place panes side by side (`-h`).
    Horizontal,
}

impl Default for SplitDirection {
    fn default() -> (r: Self)
        ensures
            r == SplitDirection::Vertical,
    {
        SplitDirection::Vertical
    }
}

/// Initial pane size.
#[derive(Clone, Copy, Debug, Eq, Hash, PartialEq, Structural)]
pub enum PaneSize {
    /// Exact cells in the split direction.
    Cells(u32),
    /// A percentage from 1 through 100.
    Percent(u8),
}

/// Direction for relative pane resizing.
#[derive(Clone, Copy, Debug, Eq, Hash, PartialEq, Structural)]
pub enum ResizeDirection {
    /// Resize the left edge.
    Left,
    /// Resize the right edge.
    Right,
    /// Resize the top edge.
    Up,
    /// Resize the bottom edge.
    Down,
}

/// The flag that selects a direction.
pub open spec fn direction_flag(d: ResizeDirection) -> &'static str {
    match d {
        ResizeDirection::Left => "-L",
        ResizeDirection::Right => "-R",
        ResizeDirection::Up => "-U",
        ResizeDirection::Down => "-D",
    }
}

impl ResizeDirection {
    /// The flag that selects this direction.
    pub fn flag(self) -> (r: &'static str)
        ensures
            r == direction_flag(self),
    {
        match self {
            ResizeDirection::Left => "-L",
            ResizeDirection::Right => "-R",
            ResizeDirection::Up => "-U",
            ResizeDirection::Down => "-D",
        }
    }
}

/// A destination for moving or joining a pane.
#[derive(Clone, Debug, Hash)]
pub enum PaneDestination {
    /// A pane.
    Pane(PaneId),
    /// A window.
    Window(WindowTarget),
}

/// The mathematical content of a [`PaneDestination`].
pub enum PaneDestinationView {
    Pane(u64),
    Window(WindowTargetView),
}

impl PartialEq for PaneDestination {
    fn eq(&self, other: &Self) -> (r: bool) {
        match (self, other) {
            (PaneDestination::Pane(a), PaneDestination::Pane(b)) => a.get() == b.get(),
            (PaneDestination::Window(a), PaneDestination::Window(b)) => *a == *b,
            _ => false,
        }
    }
}

impl vstd::std_specs::cmp::PartialEqSpecImpl for PaneDestination {
    open spec fn obeys_eq_spec() -> bool {
        true
    }

    open spec fn eq_spec(&self, other: &Self) -> bool {
        self@ == other@
    }
}

impl Eq for PaneDestination {}

impl View for PaneDestination {
    type V = PaneDestinationView;

    open spec fn view(&self) -> PaneDestinationView {
        match self {
            PaneDestination::Pane(p) => PaneDestinationView::Pane(p@),
            PaneDestination::Window(w) => PaneDestinationView::Window(w@),
        }
    }
}

/// The text of a pane identity.
pub open spec fn pane_bytes(n: u64) -> Seq<u8> {
    encode_utf8(id_text('%', n))
}

/// The text of a destination: a pane identity or a window target.
pub open spec fn destination_bytes(d: PaneDestinationView) -> Seq<u8> {
    match d {
        PaneDestinationView::Pane(n) => pane_bytes(n),
        PaneDestinationView::Window(w) => encode_utf8(window_target_text(w)),
    }
}

impl PaneDestination {
    /// The destination as command-argument bytes.
    pub fn to_text(&self) -> (r: TmuxText)
        ensures
            r@ == destination_bytes(self@),
    {
        match self {
            PaneDestination::Pane(p) => p.to_text(),
            PaneDestination::Window(w) => w.to_text(),
        }
    }
}

/// A relative swap direction.
#[derive(Clone, Copy, Debug, Eq, Hash, PartialEq, Structural)]
pub enum SwapPaneDirection {
    /// Swap with the previous pane.
    Up,
    /// Swap with the next pane.
    Down,
}

/// A capture boundary.
#[derive(Clone, Copy, Debug, Eq, Hash, PartialEq, Structural)]
pub enum CaptureLine {
    /// A line number; negative numbers reach into history.
    Number(i64),
    /// The start of history or the end of the visible screen (`-`).
    Boundary,
}

/// The text of a capture boundary.
pub open spec fn capture_line_bytes(l: CaptureLine) -> Seq<u8> {
    match l {
        CaptureLine::Number(n) => signed_bytes(n as int),
        CaptureLine::Boundary => encode_utf8("-"@),
    }
}

impl CaptureLine {
    /// The boundary as command-argument bytes.
    pub fn to_text(self) -> (r: TmuxText)
        ensures
            r@ == capture_line_bytes(self),
    {
        match self {
            CaptureLine::Number(n) => signed_text(n),
            CaptureLine::Boundary => TmuxText::from_str("-"),
        }
    }
}

/// Sort order for `choose-tree`.
#[derive(Clone, Copy, Debug, Eq, Hash, PartialEq, Structural)]
pub enum TreeSort {
    /// Sort by index.
    Index,
    /// Sort by name.
    Name,
    /// Sort by time.
    Time,
    /// Sort by size.
    Size,
}

/// The name of a sort order.
pub open spec fn tree_sort_name(s: TreeSort) -> &'static str {
    match s {
        TreeSort::Index => "index",
        TreeSort::Name => "name",
        TreeSort::Time => "time",
        TreeSort::Size => "size",
    }
}

impl TreeSort {
    /// The name of this sort order.
    pub fn as_str(self) -> (r: &'static str)
        ensures
            r == tree_sort_name(self),
    {
        match self {
            TreeSort::Index => "index",
            TreeSort::Name => "name",
            TreeSort::Time => "time",
            TreeSort::Size => "size",
        }
    }
}

/// Typed arguments for `split-window`.
#[derive(Clone, Debug)]
pub struct SplitPane {
    direction: SplitDirection,
    size: Option<PaneSize>,
    detached: bool,
    before: bool,
    full_window: bool,
    cwd: Option<TmuxText>,
    shell_command: Option<TmuxText>,
    environment: StrMap<TmuxText>,
}

/// The mathematical content of [`SplitPane`].
pub struct SplitPaneView {
    pub direction: SplitDirection,
    pub size: Option<PaneSize>,
    pub detached: bool,
    pub before: bool,
    pub full_window: bool,
    pub cwd: Option<Seq<u8>>,
    pub shell_command: Option<Seq<u8>>,
    pub environment: Seq<(Seq<char>, Seq<u8>)>,
}

impl View for SplitPane {
    type V = SplitPaneView;

    closed spec fn view(&self) -> SplitPaneView {
        SplitPaneView {
            direction: self.direction,
            size: self.size,
            detached: self.detached,
            before: self.before,
            full_window: self.full_window,
            cwd: text_opt(self.cwd),
            shell_command: text_opt(self.shell_command),
            environment: env_view(self.environment),
        }
    }
}

impl Default for SplitPane {
    /// The same value as `SplitPane::new()`.
    fn default() -> (r: Self)
        ensures
            r@ == (SplitPaneView { direction: SplitDirection::Vertical, size: None, detached: true, before: false, full_window: false, cwd: None, shell_command: None, environment: Seq::empty() }),
    {
        SplitPane::new()
    }
}

impl SplitPane {
    /// Creates detached split arguments.
    pub fn new() -> (r: Self)
        ensures
            r@ == (SplitPaneView { direction: SplitDirection::Vertical, size: None, detached: true, before: false, full_window: false, cwd: None, shell_command: None, environment: Seq::empty() }),
    {
        let r = SplitPane { direction: SplitDirection::Vertical, size: None, detached: true, before: false, full_window: false, cwd: None, shell_command: None, environment: StrMap::new() };
        assert(r@.environment =~= Seq::empty());
        r
    }

    /// Sets the split orientation.
    pub fn direction(self, value: SplitDirection) -> (r: Self)
        ensures
            r@ == (SplitPaneView { direction: value, ..self@ }),
    {
        let mut s = self;
        s.direction = value;
        s
    }

    /// Chooses whether the new pane remains detached.
    pub fn detached(self, enabled: bool) -> (r: Self)
        ensures
            r@ == (SplitPaneView { detached: enabled, ..self@ }),
    {
        let mut s = self;
        s.detached = enabled;
        s
    }

    /// Inserts the new pane before the target.
    pub fn before(self, enabled: bool) -> (r: Self)
        ensures
            r@ == (SplitPaneView { before: enabled, ..self@ }),
    {
        let mut s = self;
        s.before = enabled;
        s
    }

    /// Splits across the full window instead of only the target pane.
    pub fn full_window(self, enabled: bool) -> (r: Self)
        ensures
            r@ == (SplitPaneView { full_window: enabled, ..self@ }),
    {
        let mut s = self;
        s.full_window = enabled;
        s
    }

    /// Sets the starting directory.
    pub fn cwd(self, value: TmuxText) -> (r: Self)
        ensures
            r@ == (SplitPaneView { cwd: Some(value@), ..self@ }),
    {
        let mut s = self;
        s.cwd = Some(value);
        s
    }

    /// Sets the shell command for the new pane.
    pub fn shell_command(self, value: TmuxText) -> (r: Self)
        ensures
            r@ == (SplitPaneView { shell_command: Some(value@), ..self@ }),
    {
        let mut s = self;
        s.shell_command = Some(value);
        s
    }

    /// Adds a pane environment variable. Values are hidden in diagnostics.
    pub fn environment(self, name: String, value: TmuxText) -> (r: Result<Self, Error>)
        ensures
            valid_name(name@) ==> (r matches Ok(x) && x@ == (SplitPaneView { environment: x@.environment, ..self@ })
                && env_inserted(self@.environment, x@.environment, name@, value@)),
            !valid_name(name@) ==> (r matches Err(e) && e@ == invalid_name("environment name")),
    {
        let mut s = self;
        match insert_env(&mut s.environment, name, value) {
            Ok(()) => Ok(s),
            Err(e) => Err(e),
        }
    }

    /// Sets an exact cell size, which must be non-zero.
    pub fn cells(self, cells: u32) -> (r: Result<Self, Error>)
        ensures
            cells != 0 ==> (r matches Ok(x) && x@ == (SplitPaneView { size: Some(PaneSize::Cells(cells)), ..self@ })),
            cells == 0 ==> (r matches Err(e) && e@ == invalid_argument("pane size", "cell count must be non-zero")),
    {
        if cells == 0 {
            return Err(invalid_argument_error("pane size", "cell count must be non-zero"));
        }
        let mut s = self;
        s.size = Some(PaneSize::Cells(cells));
        Ok(s)
    }

    /// Sets a percentage size, from 1 through 100.
    pub fn percent(self, percent: u8) -> (r: Result<Self, Error>)
        ensures
            1 <= percent <= 100 ==> (r matches Ok(x) && x@ == (SplitPaneView { size: Some(PaneSize::Percent(percent)), ..self@ })),
            !(1 <= percent <= 100) ==> (r matches Err(e) && e@ == invalid_argument("pane percentage", "must be between 1 and 100")),
    {
        if percent < 1 || percent > 100 {
            return Err(invalid_argument_error("pane percentage", "must be between 1 and 100"));
        }
        let mut s = self;
        s.size = Some(PaneSize::Percent(percent));
        Ok(s)
    }
}

/// Typed arguments for a tmux 3.7+ floating `new-pane`.
#[derive(Clone, Debug)]
pub struct NewPane {
    cwd: Option<TmuxText>,
    attach: bool,
    shell_command: Option<TmuxText>,
    environment: StrMap<TmuxText>,
    width: Option<u32>,
    height: Option<u32>,
    x: Option<i32>,
    y: Option<i32>,
    zoom: bool,
    empty: bool,
    style: Option<TmuxText>,
    active_border_style: Option<TmuxText>,
    inactive_border_style: Option<TmuxText>,
    message: Option<TmuxText>,
    keep: bool,
}

/// The mathematical content of [`NewPane`].
pub struct NewPaneView {
    pub cwd: Option<Seq<u8>>,
    pub attach: bool,
    pub shell_command: Option<Seq<u8>>,
    pub environment: Seq<(Seq<char>, Seq<u8>)>,
    pub width: Option<u32>,
    pub height: Option<u32>,
    pub x: Option<i32>,
    pub y: Option<i32>,
    pub zoom: bool,
    pub empty: bool,
    pub style: Option<Seq<u8>>,
    pub active_border_style: Option<Seq<u8>>,
    pub inactive_border_style: Option<Seq<u8>>,
    pub message: Option<Seq<u8>>,
    pub keep: bool,
}

impl View for NewPane {
    type V = NewPaneView;

    closed spec fn view(&self) -> NewPaneView {
        NewPaneView {
            cwd: text_opt(self.cwd),
            attach: self.attach,
            shell_command: text_opt(self.shell_command),
            environment: env_view(self.environment),
            width: self.width,
            height: self.height,
            x: self.x,
            y: self.y,
            zoom: self.zoom,
            empty: self.empty,
            style: text_opt(self.style),
            active_border_style: text_opt(self.active_border_style),
            inactive_border_style: text_opt(self.inactive_border_style),
            message: text_opt(self.message),
            keep: self.keep,
        }
    }
}

impl Default for NewPane {
    /// The same value as `NewPane::new()`.
    fn default() -> (r: Self)
        ensures
            r@ == (NewPaneView { cwd: None, attach: false, shell_command: None, environment: Seq::empty(), width: None, height: None, x: None, y: None, zoom: false, empty: false, style: None, active_border_style: None, inactive_border_style: None, message: None, keep: false }),
    {
        NewPane::new()
    }
}

impl NewPane {
    /// Creates default floating-pane arguments.
    pub fn new() -> (r: Self)
        ensures
            r@ == (NewPaneView { cwd: None, attach: false, shell_command: None, environment: Seq::empty(), width: None, height: None, x: None, y: None, zoom: false, empty: false, style: None, active_border_style: None, inactive_border_style: None, message: None, keep: false }),
    {
        let r = NewPane { cwd: None, attach: false, shell_command: None, environment: StrMap::new(), width: None, height: None, x: None, y: None, zoom: false, empty: false, style: None, active_border_style: None, inactive_border_style: None, message: None, keep: false };
        assert(r@.environment =~= Seq::empty());
        r
    }

    /// Sets the starting directory.
    pub fn cwd(self, value: TmuxText) -> (r: Self)
        ensures
            r@ == (NewPaneView { cwd: Some(value@), ..self@ }),
    {
        let mut s = self;
        s.cwd = Some(value);
        s
    }

    /// Activates the new pane instead of detaching.
    pub fn attach(self, enabled: bool) -> (r: Self)
        ensures
            r@ == (NewPaneView { attach: enabled, ..self@ }),
    {
        let mut s = self;
        s.attach = enabled;
        s
    }

    /// Sets the pane shell command.
    pub fn shell_command(self, value: TmuxText) -> (r: Self)
        ensures
            r@ == (NewPaneView { shell_command: Some(value@), ..self@ }),
    {
        let mut s = self;
        s.shell_command = Some(value);
        s
    }

    /// Adds an environment entry.
    pub fn environment(self, name: String, value: TmuxText) -> (r: Result<Self, Error>)
        ensures
            valid_name(name@) ==> (r matches Ok(x) && x@ == (NewPaneView { environment: x@.environment, ..self@ })
                && env_inserted(self@.environment, x@.environment, name@, value@)),
            !valid_name(name@) ==> (r matches Err(e) && e@ == invalid_name("environment name")),
    {
        let mut s = self;
        match insert_env(&mut s.environment, name, value) {
            Ok(()) => Ok(s),
            Err(e) => Err(e),
        }
    }

    /// Sets the x coordinate.
    pub fn x(self, value: i32) -> (r: Self)
        ensures
            r@ == (NewPaneView { x: Some(value), ..self@ }),
    {
        let mut s = self;
        s.x = Some(value);
        s
    }

    /// Sets the y coordinate.
    pub fn y(self, value: i32) -> (r: Self)
        ensures
            r@ == (NewPaneView { y: Some(value), ..self@ }),
    {
        let mut s = self;
        s.y = Some(value);
        s
    }

    /// Zooms the new pane.
    pub fn zoom(self, enabled: bool) -> (r: Self)
        ensures
            r@ == (NewPaneView { zoom: enabled, ..self@ }),
    {
        let mut s = self;
        s.zoom = enabled;
        s
    }

    /// Creates an empty pane without a process.
    pub fn empty(self, enabled: bool) -> (r: Self)
        ensures
            r@ == (NewPaneView { empty: enabled, ..self@ }),
    {
        let mut s = self;
        s.empty = enabled;
        s
    }

    /// Sets pane style.
    pub fn style(self, value: TmuxText) -> (r: Self)
        ensures
            r@ == (NewPaneView { style: Some(value@), ..self@ }),
    {
        let mut s = self;
        s.style = Some(value);
        s
    }

    /// Sets active border style.
    pub fn active_border_style(self, value: TmuxText) -> (r: Self)
        ensures
            r@ == (NewPaneView { active_border_style: Some(value@), ..self@ }),
    {
        let mut s = self;
        s.active_border_style = Some(value);
        s
    }

    /// Sets inactive border style.
    pub fn inactive_border_style(self, value: TmuxText) -> (r: Self)
        ensures
            r@ == (NewPaneView { inactive_border_style: Some(value@), ..self@ }),
    {
        let mut s = self;
        s.inactive_border_style = Some(value);
        s
    }

    /// Sets the remain-on-exit message.
    pub fn message(self, value: TmuxText) -> (r: Self)
        ensures
            r@ == (NewPaneView { message: Some(value@), ..self@ }),
    {
        let mut s = self;
        s.message = Some(value);
        s
    }

    /// Keeps the pane after its command exits.
    pub fn keep(self, enabled: bool) -> (r: Self)
        ensures
            r@ == (NewPaneView { keep: enabled, ..self@ }),
    {
        let mut s = self;
        s.keep = enabled;
        s
    }

    /// Sets a non-zero width in cells.
    pub fn width(self, width: u32) -> (r: Result<Self, Error>)
        ensures
            width != 0 ==> (r matches Ok(x) && x@ == (NewPaneView { width: Some(width), ..self@ })),
            width == 0 ==> (r matches Err(e) && e@ == invalid_argument("floating pane width", "must be non-zero")),
    {
        if width == 0 {
            return Err(invalid_argument_error("floating pane width", "must be non-zero"));
        }
        let mut s = self;
        s.width = Some(width);
        Ok(s)
    }

    /// Sets a non-zero height in cells.
    pub fn height(self, height: u32) -> (r: Result<Self, Error>)
        ensures
            height != 0 ==> (r matches Ok(x) && x@ == (NewPaneView { height: Some(height), ..self@ })),
            height == 0 ==> (r matches Err(e) && e@ == invalid_argument("floating pane height", "must be non-zero")),
    {
        if height == 0 {
            return Err(invalid_argument_error("floating pane height", "must be non-zero"));
        }
        let mut s = self;
        s.height = Some(height);
        Ok(s)
    }
}

/// Arguments for moving or joining a pane into another window or pane.
#[derive(Clone, Debug)]
pub struct RelocatePane {
    destination: PaneDestination,
    direction: SplitDirection,
    detached: bool,
    full_window: bool,
    size: Option<PaneSize>,
    before: bool,
}

/// The mathematical content of [`RelocatePane`].
pub struct RelocatePaneView {
    pub destination: PaneDestinationView,
    pub direction: SplitDirection,
    pub detached: bool,
    pub full_window: bool,
    pub size: Option<PaneSize>,
    pub before: bool,
}

impl PartialEq for RelocatePane {
    fn eq(&self, other: &Self) -> (r: bool) {
        self.destination == other.destination && self.direction == other.direction && self.detached == other.detached
            && self.full_window == other.full_window && self.size == other.size && self.before == other.before
    }
}

impl vstd::std_specs::cmp::PartialEqSpecImpl for RelocatePane {
    open spec fn obeys_eq_spec() -> bool {
        true
    }

    open spec fn eq_spec(&self, other: &Self) -> bool {
        self@ == other@
    }
}

impl Eq for RelocatePane {}

impl View for RelocatePane {
    type V = RelocatePaneView;

    closed spec fn view(&self) -> RelocatePaneView {
        RelocatePaneView {
            destination: self.destination@,
            direction: self.direction,
            detached: self.detached,
            full_window: self.full_window,
            size: self.size,
            before: self.before,
        }
    }
}

impl RelocatePane {
    /// Creates relocation arguments for a destination.
    pub fn new(destination: PaneDestination) -> (r: Self)
        ensures
            r@ == (RelocatePaneView { destination: destination@, direction: SplitDirection::Vertical, detached: true, full_window: false, size: None, before: false }),
    {
        let r = RelocatePane { destination: destination, direction: SplitDirection::Vertical, detached: true, full_window: false, size: None, before: false };
        r
    }

    /// Sets the split orientation.
    pub fn direction(self, value: SplitDirection) -> (r: Self)
        ensures
            r@ == (RelocatePaneView { direction: value, ..self@ }),
    {
        let mut s = self;
        s.direction = value;
        s
    }

    /// Chooses whether the moved pane remains inactive.
    pub fn detached(self, enabled: bool) -> (r: Self)
        ensures
            r@ == (RelocatePaneView { detached: enabled, ..self@ }),
    {
        let mut s = self;
        s.detached = enabled;
        s
    }

    /// Uses a full-window split.
    pub fn full_window(self, enabled: bool) -> (r: Self)
        ensures
            r@ == (RelocatePaneView { full_window: enabled, ..self@ }),
    {
        let mut s = self;
        s.full_window = enabled;
        s
    }

    /// Places the pane before the destination.
    pub fn before(self, enabled: bool) -> (r: Self)
        ensures
            r@ == (RelocatePaneView { before: enabled, ..self@ }),
    {
        let mut s = self;
        s.before = enabled;
        s
    }

    /// Sets a non-zero cell size.
    pub fn cells(self, cells: u32) -> (r: Result<Self, Error>)
        ensures
            cells != 0 ==> (r matches Ok(x) && x@ == (RelocatePaneView { size: Some(PaneSize::Cells(cells)), ..self@ })),
            cells == 0 ==> (r matches Err(e) && e@ == invalid_argument("relocated pane size", "cell count must be non-zero")),
    {
        if cells == 0 {
            return Err(invalid_argument_error("relocated pane size", "cell count must be non-zero"));
        }
        let mut s = self;
        s.size = Some(PaneSize::Cells(cells));
        Ok(s)
    }

    /// Sets a percentage size, from 1 through 100.
    pub fn percent(self, percent: u8) -> (r: Result<Self, Error>)
        ensures
            1 <= percent <= 100 ==> (r matches Ok(x) && x@ == (RelocatePaneView { size: Some(PaneSize::Percent(percent)), ..self@ })),
            !(1 <= percent <= 100) ==> (r matches Err(e) && e@ == invalid_argument("relocated pane percentage", "must be between 1 and 100")),
    {
        if percent < 1 || percent > 100 {
            return Err(invalid_argument_error("relocated pane percentage", "must be between 1 and 100"));
        }
        let mut s = self;
        s.size = Some(PaneSize::Percent(percent));
        Ok(s)
    }
}

/// Arguments for swapping a pane.
#[derive(Clone, Debug, PartialEq, Eq, Structural)]
pub struct SwapPane {
    destination: Option<PaneId>,
    direction: Option<SwapPaneDirection>,
    detached: bool,
    keep_zoom: bool,
}

/// The mathematical content of [`SwapPane`].
pub struct SwapPaneView {
    pub destination: Option<u64>,
    pub direction: Option<SwapPaneDirection>,
    pub detached: bool,
    pub keep_zoom: bool,
}

impl View for SwapPane {
    type V = SwapPaneView;

    closed spec fn view(&self) -> SwapPaneView {
        SwapPaneView {
            destination: pane_opt(self.destination),
            direction: self.direction,
            detached: self.detached,
            keep_zoom: self.keep_zoom,
        }
    }
}

impl Default for SwapPane {
    /// The same value as `SwapPane::new()`.
    fn default() -> (r: Self)
        ensures
            r@ == (SwapPaneView { destination: None, direction: None, detached: false, keep_zoom: false }),
    {
        SwapPane::new()
    }
}

impl SwapPane {
    /// Creates swap arguments.
    pub fn new() -> (r: Self)
        ensures
            r@ == (SwapPaneView { destination: None, direction: None, detached: false, keep_zoom: false }),
    {
        let r = SwapPane { destination: None, direction: None, detached: false, keep_zoom: false };
        r
    }

    /// Swaps with an explicit pane.
    pub fn destination(self, pane: PaneId) -> (r: Self)
        ensures
            r@ == (SwapPaneView { destination: Some(pane@), ..self@ }),
    {
        let mut s = self;
        s.destination = Some(pane);
        s
    }

    /// Swaps with the previous or next pane.
    pub fn direction(self, value: SwapPaneDirection) -> (r: Self)
        ensures
            r@ == (SwapPaneView { direction: Some(value), ..self@ }),
    {
        let mut s = self;
        s.direction = Some(value);
        s
    }

    /// Leaves the active pane unchanged.
    pub fn detached(self, enabled: bool) -> (r: Self)
        ensures
            r@ == (SwapPaneView { detached: enabled, ..self@ }),
    {
        let mut s = self;
        s.detached = enabled;
        s
    }

    /// Keeps the window zoomed.
    pub fn keep_zoom(self, enabled: bool) -> (r: Self)
        ensures
            r@ == (SwapPaneView { keep_zoom: enabled, ..self@ }),
    {
        let mut s = self;
        s.keep_zoom = enabled;
        s
    }

}

/// Options for `capture-pane`.
#[derive(Clone, Debug, PartialEq, Eq, Structural)]
pub struct CapturePane {
    start: Option<CaptureLine>,
    end: Option<CaptureLine>,
    alternate: bool,
    escape_sequences: bool,
    escape_non_printable: bool,
    join_wrapped: bool,
    preserve_trailing: bool,
    trim_trailing: bool,
    quiet: bool,
    mode_screen: bool,
    pending: bool,
    hyperlinks: bool,
    line_numbers: bool,
    line_flags: bool,
}

/// The mathematical content of [`CapturePane`].
pub struct CapturePaneView {
    pub start: Option<CaptureLine>,
    pub end: Option<CaptureLine>,
    pub alternate: bool,
    pub escape_sequences: bool,
    pub escape_non_printable: bool,
    pub join_wrapped: bool,
    pub preserve_trailing: bool,
    pub trim_trailing: bool,
    pub quiet: bool,
    pub mode_screen: bool,
    pub pending: bool,
    pub hyperlinks: bool,
    pub line_numbers: bool,
    pub line_flags: bool,
}

impl View for CapturePane {
    type V = CapturePaneView;

    closed spec fn view(&self) -> CapturePaneView {
        CapturePaneView {
            start: self.start,
            end: self.end,
            alternate: self.alternate,
            escape_sequences: self.escape_sequences,
            escape_non_printable: self.escape_non_printable,
            join_wrapped: self.join_wrapped,
            preserve_trailing: self.preserve_trailing,
            trim_trailing: self.trim_trailing,
            quiet: self.quiet,
            mode_screen: self.mode_screen,
            pending: self.pending,
            hyperlinks: self.hyperlinks,
            line_numbers: self.line_numbers,
            line_flags: self.line_flags,
        }
    }
}

impl Default for CapturePane {
    /// The same value as `CapturePane::new()`.
    fn default() -> (r: Self)
        ensures
            r@ == (CapturePaneView { start: None, end: None, alternate: false, escape_sequences: false, escape_non_printable: false, join_wrapped: false, preserve_trailing: false, trim_trailing: false, quiet: false, mode_screen: false, pending: false, hyperlinks: false, line_numbers: false, line_flags: false }),
    {
        CapturePane::new()
    }
}

impl CapturePane {
    /// Creates default visible-pane capture options.
    pub fn new() -> (r: Self)
        ensures
            r@ == (CapturePaneView { start: None, end: None, alternate: false, escape_sequences: false, escape_non_printable: false, join_wrapped: false, preserve_trailing: false, trim_trailing: false, quiet: false, mode_screen: false, pending: false, hyperlinks: false, line_numbers: false, line_flags: false }),
    {
        let r = CapturePane { start: None, end: None, alternate: false, escape_sequences: false, escape_non_printable: false, join_wrapped: false, preserve_trailing: false, trim_trailing: false, quiet: false, mode_screen: false, pending: false, hyperlinks: false, line_numbers: false, line_flags: false };
        r
    }

    /// Captures the alternate screen.
    pub fn alternate(self, enabled: bool) -> (r: Self)
        ensures
            r@ == (CapturePaneView { alternate: enabled, ..self@ }),
    {
        let mut s = self;
        s.alternate = enabled;
        s
    }

    /// Includes text and background attributes.
    pub fn escape_sequences(self, enabled: bool) -> (r: Self)
        ensures
            r@ == (CapturePaneView { escape_sequences: enabled, ..self@ }),
    {
        let mut s = self;
        s.escape_sequences = enabled;
        s
    }

    /// Escapes non-printable characters as octal.
    pub fn escape_non_printable(self, enabled: bool) -> (r: Self)
        ensures
            r@ == (CapturePaneView { escape_non_printable: enabled, ..self@ }),
    {
        let mut s = self;
        s.escape_non_printable = enabled;
        s
    }

    /// Joins wrapped lines.
    pub fn join_wrapped(self, enabled: bool) -> (r: Self)
        ensures
            r@ == (CapturePaneView { join_wrapped: enabled, ..self@ }),
    {
        let mut s = self;
        s.join_wrapped = enabled;
        s
    }

    /// Preserves trailing spaces.
    pub fn preserve_trailing(self, enabled: bool) -> (r: Self)
        ensures
            r@ == (CapturePaneView { preserve_trailing: enabled, ..self@ }),
    {
        let mut s = self;
        s.preserve_trailing = enabled;
        s
    }

    /// Trims trailing positions that were never written (tmux 3.4+).
    pub fn trim_trailing(self, enabled: bool) -> (r: Self)
        ensures
            r@ == (CapturePaneView { trim_trailing: enabled, ..self@ }),
    {
        let mut s = self;
        s.trim_trailing = enabled;
        s
    }

    /// Suppresses errors.
    pub fn quiet(self, enabled: bool) -> (r: Self)
        ensures
            r@ == (CapturePaneView { quiet: enabled, ..self@ }),
    {
        let mut s = self;
        s.quiet = enabled;
        s
    }

    /// Captures the mode screen (tmux 3.6+).
    pub fn mode_screen(self, enabled: bool) -> (r: Self)
        ensures
            r@ == (CapturePaneView { mode_screen: enabled, ..self@ }),
    {
        let mut s = self;
        s.mode_screen = enabled;
        s
    }

    /// Captures pending output.
    pub fn pending(self, enabled: bool) -> (r: Self)
        ensures
            r@ == (CapturePaneView { pending: enabled, ..self@ }),
    {
        let mut s = self;
        s.pending = enabled;
        s
    }

    /// Includes hyperlinks (tmux 3.7+).
    pub fn hyperlinks(self, enabled: bool) -> (r: Self)
        ensures
            r@ == (CapturePaneView { hyperlinks: enabled, ..self@ }),
    {
        let mut s = self;
        s.hyperlinks = enabled;
        s
    }

    /// Includes line numbers (tmux 3.7+).
    pub fn line_numbers(self, enabled: bool) -> (r: Self)
        ensures
            r@ == (CapturePaneView { line_numbers: enabled, ..self@ }),
    {
        let mut s = self;
        s.line_numbers = enabled;
        s
    }

    /// Includes line flags (tmux 3.7+).
    pub fn line_flags(self, enabled: bool) -> (r: Self)
        ensures
            r@ == (CapturePaneView { line_flags: enabled, ..self@ }),
    {
        let mut s = self;
        s.line_flags = enabled;
        s
    }

    /// Starts at a line number; negative numbers reach into history.
    pub fn start(self, line: i64) -> (r: Self)
        ensures
            r@ == (CapturePaneView { start: Some(CaptureLine::Number(line)), ..self@ }),
    {
        let mut s = self;
        s.start = Some(CaptureLine::Number(line));
        s
    }

    /// Starts at the beginning of history.
    pub fn start_of_history(self) -> (r: Self)
        ensures
            r@ == (CapturePaneView { start: Some(CaptureLine::Boundary), ..self@ }),
    {
        let mut s = self;
        s.start = Some(CaptureLine::Boundary);
        s
    }

    /// Ends at a line number.
    pub fn end(self, line: i64) -> (r: Self)
        ensures
            r@ == (CapturePaneView { end: Some(CaptureLine::Number(line)), ..self@ }),
    {
        let mut s = self;
        s.end = Some(CaptureLine::Number(line));
        s
    }

    /// Ends at the bottom of the visible screen.
    pub fn end_of_screen(self) -> (r: Self)
        ensures
            r@ == (CapturePaneView { end: Some(CaptureLine::Boundary), ..self@ }),
    {
        let mut s = self;
        s.end = Some(CaptureLine::Boundary);
        s
    }
}

/// Options for `send-keys`.
#[derive(Clone, Debug)]
pub struct SendKeys {
    keys: Vec<TmuxText>,
    literal: bool,
    hexadecimal: bool,
    reset: bool,
    repeat: Option<u32>,
    enter: bool,
    suppress_history: bool,
    copy_mode_command: Option<TmuxText>,
    expand_formats: bool,
    target_client: Option<ClientName>,
    key_name: bool,
    sensitive: bool,
}

/// The mathematical content of [`SendKeys`].
pub struct SendKeysView {
    pub keys: Seq<Seq<u8>>,
    pub literal: bool,
    pub hexadecimal: bool,
    pub reset: bool,
    pub repeat: Option<u32>,
    pub enter: bool,
    pub suppress_history: bool,
    pub copy_mode_command: Option<Seq<u8>>,
    pub expand_formats: bool,
    pub target_client: Option<Seq<u8>>,
    pub key_name: bool,
    pub sensitive: bool,
}

impl View for SendKeys {
    type V = SendKeysView;

    closed spec fn view(&self) -> SendKeysView {
        SendKeysView {
            keys: self.keys@.map_values(|t: TmuxText| t@),
            literal: self.literal,
            hexadecimal: self.hexadecimal,
            reset: self.reset,
            repeat: self.repeat,
            enter: self.enter,
            suppress_history: self.suppress_history,
            copy_mode_command: text_opt(self.copy_mode_command),
            expand_formats: self.expand_formats,
            target_client: client_opt(self.target_client),
            key_name: self.key_name,
            sensitive: self.sensitive,
        }
    }
}

impl PartialEq for SendKeys {
    fn eq(&self, other: &Self) -> (r: bool) {
        let repeat = match (self.repeat, other.repeat) {
            (None, None) => true,
            (Some(x), Some(y)) => x == y,
            _ => false,
        };
        let client = same_text_opt(&client_text(&self.target_client), &client_text(&other.target_client));
        texts_equal(&self.keys, &other.keys) && self.literal == other.literal && self.hexadecimal == other.hexadecimal
            && self.reset == other.reset && repeat && self.enter == other.enter
            && self.suppress_history == other.suppress_history
            && same_text_opt(&self.copy_mode_command, &other.copy_mode_command)
            && self.expand_formats == other.expand_formats && client && self.key_name == other.key_name
            && self.sensitive == other.sensitive
    }
}

impl vstd::std_specs::cmp::PartialEqSpecImpl for SendKeys {
    open spec fn obeys_eq_spec() -> bool {
        true
    }

    open spec fn eq_spec(&self, other: &Self) -> bool {
        self@ == other@
    }
}

impl Eq for SendKeys {}

impl Default for SendKeys {
    /// The same value as `SendKeys::new()`.
    fn default() -> (r: Self)
        ensures
            r@ == (SendKeysView { keys: Seq::empty(), literal: false, hexadecimal: false, reset: false, repeat: None, enter: false, suppress_history: false, copy_mode_command: None, expand_formats: false, target_client: None, key_name: false, sensitive: false }),
    {
        SendKeys::new()
    }
}

impl SendKeys {
    /// Creates an empty key sequence.
    pub fn new() -> (r: Self)
        ensures
            r@ == (SendKeysView { keys: Seq::empty(), literal: false, hexadecimal: false, reset: false, repeat: None, enter: false, suppress_history: false, copy_mode_command: None, expand_formats: false, target_client: None, key_name: false, sensitive: false }),
    {
        let r = SendKeys { keys: Vec::new(), literal: false, hexadecimal: false, reset: false, repeat: None, enter: false, suppress_history: false, copy_mode_command: None, expand_formats: false, target_client: None, key_name: false, sensitive: false };
        assert(r@.keys =~= Seq::empty());
        r
    }

    /// Sends keys literally.
    pub fn literal(self, enabled: bool) -> (r: Self)
        ensures
            r@ == (SendKeysView { literal: enabled, ..self@ }),
    {
        let mut s = self;
        s.literal = enabled;
        s
    }

    /// Interprets keys as hexadecimal bytes.
    pub fn hexadecimal(self, enabled: bool) -> (r: Self)
        ensures
            r@ == (SendKeysView { hexadecimal: enabled, ..self@ }),
    {
        let mut s = self;
        s.hexadecimal = enabled;
        s
    }

    /// Resets terminal state.
    pub fn reset(self, enabled: bool) -> (r: Self)
        ensures
            r@ == (SendKeysView { reset: enabled, ..self@ }),
    {
        let mut s = self;
        s.reset = enabled;
        s
    }

    /// Sends Enter in a second command after the keys.
    pub fn enter(self, enabled: bool) -> (r: Self)
        ensures
            r@ == (SendKeysView { enter: enabled, ..self@ }),
    {
        let mut s = self;
        s.enter = enabled;
        s
    }

    /// Prefixes a space so shells can omit the command from history.
    pub fn suppress_history(self, enabled: bool) -> (r: Self)
        ensures
            r@ == (SendKeysView { suppress_history: enabled, ..self@ }),
    {
        let mut s = self;
        s.suppress_history = enabled;
        s
    }

    /// Sends a copy-mode command instead of keys.
    pub fn copy_mode_command(self, value: TmuxText) -> (r: Self)
        ensures
            r@ == (SendKeysView { copy_mode_command: Some(value@), ..self@ }),
    {
        let mut s = self;
        s.copy_mode_command = Some(value);
        s
    }

    /// Expands formats in keys.
    pub fn expand_formats(self, enabled: bool) -> (r: Self)
        ensures
            r@ == (SendKeysView { expand_formats: enabled, ..self@ }),
    {
        let mut s = self;
        s.expand_formats = enabled;
        s
    }

    /// Targets a client (tmux 3.4+).
    pub fn target_client(self, client: ClientName) -> (r: Self)
        ensures
            r@ == (SendKeysView { target_client: Some(client@), ..self@ }),
    {
        let mut s = self;
        s.target_client = Some(client);
        s
    }

    /// Treats keys as key names for a client (tmux 3.4+).
    pub fn key_name(self, enabled: bool) -> (r: Self)
        ensures
            r@ == (SendKeysView { key_name: enabled, ..self@ }),
    {
        let mut s = self;
        s.key_name = enabled;
        s
    }

    /// Hides keys from diagnostics.
    pub fn sensitive(self, enabled: bool) -> (r: Self)
        ensures
            r@ == (SendKeysView { sensitive: enabled, ..self@ }),
    {
        let mut s = self;
        s.sensitive = enabled;
        s
    }

    /// Appends one key.
    pub fn key(self, key: TmuxText) -> (r: Self)
        ensures
            r@ == (SendKeysView { keys: self@.keys.push(key@), ..self@ }),
    {
        let mut s = self;
        proof { lemma_map_push(s.keys@, key, |t: TmuxText| t@); }
        s.keys.push(key);
        s
    }

    /// Appends several keys in order.
    pub fn keys(self, keys: Vec<TmuxText>) -> (r: Self)
        ensures
            r@ == (SendKeysView { keys: self@.keys + keys@.map_values(|t: TmuxText| t@), ..self@ }),
    {
        let mut s = self;
        let ghost start = s.keys@.map_values(|t: TmuxText| t@);
        let mut k: usize = 0;
        while k < keys.len()
            invariant
                k <= keys@.len(),
                s.keys@.map_values(|t: TmuxText| t@) == start + keys@.take(k as int).map_values(|t: TmuxText| t@),
                start == self@.keys,
                s@ == (SendKeysView { keys: s@.keys, ..self@ }),
            decreases keys.len() - k,
        {
            let key = keys[k].clone();
            proof {
                lemma_map_push(s.keys@, key, |t: TmuxText| t@);
                assert(keys@.take(k + 1).map_values(|t: TmuxText| t@) =~= keys@.take(k as int).map_values(|t: TmuxText| t@).push(key@));
            }
            s.keys.push(key);
            k = k + 1;
        }
        assert(keys@.take(keys@.len() as int) =~= keys@);
        s
    }

    /// Repeats the keys a non-zero number of times.
    pub fn repeat(self, count: u32) -> (r: Result<Self, Error>)
        ensures
            count != 0 ==> (r matches Ok(x) && x@ == (SendKeysView { repeat: Some(count), ..self@ })),
            count == 0 ==> (r matches Err(e) && e@ == invalid_argument("send-keys repeat", "must be non-zero")),
    {
        if count == 0 {
            return Err(invalid_argument_error("send-keys repeat", "must be non-zero"));
        }
        let mut s = self;
        s.repeat = Some(count);
        Ok(s)
    }
}

/// Options for `select-pane`.
#[derive(Clone, Debug, PartialEq, Eq, Structural)]
pub struct SelectPane {
    direction: Option<ResizeDirection>,
    last: bool,
    keep_zoom: bool,
    mark: bool,
    clear_mark: bool,
    input: Option<bool>,
}

/// The mathematical content of [`SelectPane`].
pub struct SelectPaneView {
    pub direction: Option<ResizeDirection>,
    pub last: bool,
    pub keep_zoom: bool,
    pub mark: bool,
    pub clear_mark: bool,
    pub input: Option<bool>,
}

impl View for SelectPane {
    type V = SelectPaneView;

    closed spec fn view(&self) -> SelectPaneView {
        SelectPaneView {
            direction: self.direction,
            last: self.last,
            keep_zoom: self.keep_zoom,
            mark: self.mark,
            clear_mark: self.clear_mark,
            input: self.input,
        }
    }
}

impl Default for SelectPane {
    /// The same value as `SelectPane::new()`.
    fn default() -> (r: Self)
        ensures
            r@ == (SelectPaneView { direction: None, last: false, keep_zoom: false, mark: false, clear_mark: false, input: None }),
    {
        SelectPane::new()
    }
}

impl SelectPane {
    /// Creates default selection options.
    pub fn new() -> (r: Self)
        ensures
            r@ == (SelectPaneView { direction: None, last: false, keep_zoom: false, mark: false, clear_mark: false, input: None }),
    {
        let r = SelectPane { direction: None, last: false, keep_zoom: false, mark: false, clear_mark: false, input: None };
        r
    }

    /// Selects a neighbouring pane.
    pub fn direction(self, value: ResizeDirection) -> (r: Self)
        ensures
            r@ == (SelectPaneView { direction: Some(value), ..self@ }),
    {
        let mut s = self;
        s.direction = Some(value);
        s
    }

    /// Selects the last active pane.
    pub fn last(self, enabled: bool) -> (r: Self)
        ensures
            r@ == (SelectPaneView { last: enabled, ..self@ }),
    {
        let mut s = self;
        s.last = enabled;
        s
    }

    /// Keeps the window zoomed.
    pub fn keep_zoom(self, enabled: bool) -> (r: Self)
        ensures
            r@ == (SelectPaneView { keep_zoom: enabled, ..self@ }),
    {
        let mut s = self;
        s.keep_zoom = enabled;
        s
    }

    /// Marks the pane.
    pub fn mark(self, enabled: bool) -> (r: Self)
        ensures
            r@ == (SelectPaneView { mark: enabled, ..self@ }),
    {
        let mut s = self;
        s.mark = enabled;
        s
    }

    /// Clears the marked pane.
    pub fn clear_mark(self, enabled: bool) -> (r: Self)
        ensures
            r@ == (SelectPaneView { clear_mark: enabled, ..self@ }),
    {
        let mut s = self;
        s.clear_mark = enabled;
        s
    }

    /// Enables or disables input.
    pub fn input(self, value: Option<bool>) -> (r: Self)
        ensures
            r@ == (SelectPaneView { input: value, ..self@ }),
    {
        let mut s = self;
        s.input = value;
        s
    }

}

/// Options for `paste-buffer`.
#[derive(Clone, Debug)]
pub struct PasteBuffer {
    name: Option<BufferName>,
    delete_after: bool,
    linefeed_separator: bool,
    bracketed: bool,
    separator: Option<TmuxText>,
    raw: bool,
}

/// The mathematical content of [`PasteBuffer`].
pub struct PasteBufferView {
    pub name: Option<Seq<u8>>,
    pub delete_after: bool,
    pub linefeed_separator: bool,
    pub bracketed: bool,
    pub separator: Option<Seq<u8>>,
    pub raw: bool,
}

impl PartialEq for PasteBuffer {
    fn eq(&self, other: &Self) -> (r: bool) {
        let names = match (&self.name, &other.name) {
            (None, None) => true,
            (Some(a), Some(b)) => a == b,
            _ => false,
        };
        names && self.delete_after == other.delete_after && self.linefeed_separator == other.linefeed_separator
            && self.bracketed == other.bracketed && crate::command::same_text_opt(&self.separator, &other.separator)
            && self.raw == other.raw
    }
}

impl vstd::std_specs::cmp::PartialEqSpecImpl for PasteBuffer {
    open spec fn obeys_eq_spec() -> bool {
        true
    }

    open spec fn eq_spec(&self, other: &Self) -> bool {
        self@ == other@
    }
}

impl Eq for PasteBuffer {}

impl View for PasteBuffer {
    type V = PasteBufferView;

    closed spec fn view(&self) -> PasteBufferView {
        PasteBufferView {
            name: match self.name { Some(v) => Some(v@), None => None },
            delete_after: self.delete_after,
            linefeed_separator: self.linefeed_separator,
            bracketed: self.bracketed,
            separator: text_opt(self.separator),
            raw: self.raw,
        }
    }
}

impl Default for PasteBuffer {
    /// The same value as `PasteBuffer::new()`.
    fn default() -> (r: Self)
        ensures
            r@ == (PasteBufferView { name: None, delete_after: false, linefeed_separator: false, bracketed: false, separator: None, raw: false }),
    {
        PasteBuffer::new()
    }
}

impl PasteBuffer {
    /// Creates default paste options.
    pub fn new() -> (r: Self)
        ensures
            r@ == (PasteBufferView { name: None, delete_after: false, linefeed_separator: false, bracketed: false, separator: None, raw: false }),
    {
        let r = PasteBuffer { name: None, delete_after: false, linefeed_separator: false, bracketed: false, separator: None, raw: false };
        r
    }

    /// Deletes the buffer after pasting.
    pub fn delete_after(self, enabled: bool) -> (r: Self)
        ensures
            r@ == (PasteBufferView { delete_after: enabled, ..self@ }),
    {
        let mut s = self;
        s.delete_after = enabled;
        s
    }

    /// Uses a linefeed separator.
    pub fn linefeed_separator(self, enabled: bool) -> (r: Self)
        ensures
            r@ == (PasteBufferView { linefeed_separator: enabled, ..self@ }),
    {
        let mut s = self;
        s.linefeed_separator = enabled;
        s
    }

    /// Uses bracketed paste.
    pub fn bracketed(self, enabled: bool) -> (r: Self)
        ensures
            r@ == (PasteBufferView { bracketed: enabled, ..self@ }),
    {
        let mut s = self;
        s.bracketed = enabled;
        s
    }

    /// Sets the separator.
    pub fn separator(self, value: TmuxText) -> (r: Self)
        ensures
            r@ == (PasteBufferView { separator: Some(value@), ..self@ }),
    {
        let mut s = self;
        s.separator = Some(value);
        s
    }

    /// Pastes raw bytes without control-sequence translation (tmux 3.7+).
    pub fn raw(self, enabled: bool) -> (r: Self)
        ensures
            r@ == (PasteBufferView { raw: enabled, ..self@ }),
    {
        let mut s = self;
        s.raw = enabled;
        s
    }

    /// Selects a named buffer.
    pub fn name(self, name: BufferName) -> (r: Self)
        ensures
            r@ == (PasteBufferView { name: Some(name@), ..self@ }),
    {
        let mut s = self;
        s.name = Some(name);
        s
    }
}

/// Options for `pipe-pane`.
#[derive(Clone, Debug)]
pub struct PipePane {
    command: Option<TmuxText>,
    output_only: bool,
    input_only: bool,
    toggle: bool,
}

/// The mathematical content of [`PipePane`].
pub struct PipePaneView {
    pub command: Option<Seq<u8>>,
    pub output_only: bool,
    pub input_only: bool,
    pub toggle: bool,
}

impl PartialEq for PipePane {
    fn eq(&self, other: &Self) -> (r: bool) {
        crate::command::same_text_opt(&self.command, &other.command) && self.output_only == other.output_only
            && self.input_only == other.input_only && self.toggle == other.toggle
    }
}

impl vstd::std_specs::cmp::PartialEqSpecImpl for PipePane {
    open spec fn obeys_eq_spec() -> bool {
        true
    }

    open spec fn eq_spec(&self, other: &Self) -> bool {
        self@ == other@
    }
}

impl Eq for PipePane {}

impl View for PipePane {
    type V = PipePaneView;

    closed spec fn view(&self) -> PipePaneView {
        PipePaneView {
            command: text_opt(self.command),
            output_only: self.output_only,
            input_only: self.input_only,
            toggle: self.toggle,
        }
    }
}

impl Default for PipePane {
    /// The same value as `PipePane::new()`.
    fn default() -> (r: Self)
        ensures
            r@ == (PipePaneView { command: None, output_only: false, input_only: false, toggle: false }),
    {
        PipePane::new()
    }
}

impl PipePane {
    /// Creates default pipe options.
    pub fn new() -> (r: Self)
        ensures
            r@ == (PipePaneView { command: None, output_only: false, input_only: false, toggle: false }),
    {
        let r = PipePane { command: None, output_only: false, input_only: false, toggle: false };
        r
    }

    /// Sets the shell command; omitting it stops an existing pipe.
    pub fn command(self, value: TmuxText) -> (r: Self)
        ensures
            r@ == (PipePaneView { command: Some(value@), ..self@ }),
    {
        let mut s = self;
        s.command = Some(value);
        s
    }

    /// Pipes only pane output.
    pub fn output_only(self, enabled: bool) -> (r: Self)
        ensures
            r@ == (PipePaneView { output_only: enabled, ..self@ }),
    {
        let mut s = self;
        s.output_only = enabled;
        s
    }

    /// Pipes only pane input.
    pub fn input_only(self, enabled: bool) -> (r: Self)
        ensures
            r@ == (PipePaneView { input_only: enabled, ..self@ }),
    {
        let mut s = self;
        s.input_only = enabled;
        s
    }

    /// Toggles an existing pipe.
    pub fn toggle(self, enabled: bool) -> (r: Self)
        ensures
            r@ == (PipePaneView { toggle: enabled, ..self@ }),
    {
        let mut s = self;
        s.toggle = enabled;
        s
    }

}

/// Options for `copy-mode`.
#[derive(Clone, Debug, PartialEq, Eq, Structural)]
pub struct CopyMode {
    scroll_up: bool,
    exit_on_bottom: bool,
    mouse_drag: bool,
    cancel: bool,
    page_down: bool,
    source: Option<PaneId>,
}

/// The mathematical content of [`CopyMode`].
pub struct CopyModeView {
    pub scroll_up: bool,
    pub exit_on_bottom: bool,
    pub mouse_drag: bool,
    pub cancel: bool,
    pub page_down: bool,
    pub source: Option<u64>,
}

impl View for CopyMode {
    type V = CopyModeView;

    closed spec fn view(&self) -> CopyModeView {
        CopyModeView {
            scroll_up: self.scroll_up,
            exit_on_bottom: self.exit_on_bottom,
            mouse_drag: self.mouse_drag,
            cancel: self.cancel,
            page_down: self.page_down,
            source: pane_opt(self.source),
        }
    }
}

impl Default for CopyMode {
    /// The same value as `CopyMode::new()`.
    fn default() -> (r: Self)
        ensures
            r@ == (CopyModeView { scroll_up: false, exit_on_bottom: false, mouse_drag: false, cancel: false, page_down: false, source: None }),
    {
        CopyMode::new()
    }
}

impl CopyMode {
    /// Creates default copy-mode options.
    pub fn new() -> (r: Self)
        ensures
            r@ == (CopyModeView { scroll_up: false, exit_on_bottom: false, mouse_drag: false, cancel: false, page_down: false, source: None }),
    {
        let r = CopyMode { scroll_up: false, exit_on_bottom: false, mouse_drag: false, cancel: false, page_down: false, source: None };
        r
    }

    /// Scrolls one page up.
    pub fn scroll_up(self, enabled: bool) -> (r: Self)
        ensures
            r@ == (CopyModeView { scroll_up: enabled, ..self@ }),
    {
        let mut s = self;
        s.scroll_up = enabled;
        s
    }

    /// Exits when scrolling reaches the bottom.
    pub fn exit_on_bottom(self, enabled: bool) -> (r: Self)
        ensures
            r@ == (CopyModeView { exit_on_bottom: enabled, ..self@ }),
    {
        let mut s = self;
        s.exit_on_bottom = enabled;
        s
    }

    /// Starts a mouse drag.
    pub fn mouse_drag(self, enabled: bool) -> (r: Self)
        ensures
            r@ == (CopyModeView { mouse_drag: enabled, ..self@ }),
    {
        let mut s = self;
        s.mouse_drag = enabled;
        s
    }

    /// Cancels copy mode.
    pub fn cancel(self, enabled: bool) -> (r: Self)
        ensures
            r@ == (CopyModeView { cancel: enabled, ..self@ }),
    {
        let mut s = self;
        s.cancel = enabled;
        s
    }

    /// Scrolls one page down (tmux 3.5+).
    pub fn page_down(self, enabled: bool) -> (r: Self)
        ensures
            r@ == (CopyModeView { page_down: enabled, ..self@ }),
    {
        let mut s = self;
        s.page_down = enabled;
        s
    }

    /// Copies from a source pane.
    pub fn source(self, pane: PaneId) -> (r: Self)
        ensures
            r@ == (CopyModeView { source: Some(pane@), ..self@ }),
    {
        let mut s = self;
        s.source = Some(pane);
        s
    }

}

/// Options for `choose-tree`.
#[derive(Clone, Debug)]
pub struct ChooseTree {
    sessions_collapsed: bool,
    windows_collapsed: bool,
    format: Option<TmuxText>,
    native_filter: Option<TmuxText>,
    sort: Option<TreeSort>,
    reverse: bool,
    zoom: bool,
}

/// The mathematical content of [`ChooseTree`].
pub struct ChooseTreeView {
    pub sessions_collapsed: bool,
    pub windows_collapsed: bool,
    pub format: Option<Seq<u8>>,
    pub native_filter: Option<Seq<u8>>,
    pub sort: Option<TreeSort>,
    pub reverse: bool,
    pub zoom: bool,
}

impl PartialEq for ChooseTree {
    fn eq(&self, other: &Self) -> (r: bool) {
        self.sessions_collapsed == other.sessions_collapsed && self.windows_collapsed == other.windows_collapsed
            && crate::command::same_text_opt(&self.format, &other.format)
            && crate::command::same_text_opt(&self.native_filter, &other.native_filter)
            && self.sort == other.sort && self.reverse == other.reverse && self.zoom == other.zoom
    }
}

impl vstd::std_specs::cmp::PartialEqSpecImpl for ChooseTree {
    open spec fn obeys_eq_spec() -> bool {
        true
    }

    open spec fn eq_spec(&self, other: &Self) -> bool {
        self@ == other@
    }
}

impl Eq for ChooseTree {}

impl View for ChooseTree {
    type V = ChooseTreeView;

    closed spec fn view(&self) -> ChooseTreeView {
        ChooseTreeView {
            sessions_collapsed: self.sessions_collapsed,
            windows_collapsed: self.windows_collapsed,
            format: text_opt(self.format),
            native_filter: text_opt(self.native_filter),
            sort: self.sort,
            reverse: self.reverse,
            zoom: self.zoom,
        }
    }
}

impl Default for ChooseTree {
    /// The same value as `ChooseTree::new()`.
    fn default() -> (r: Self)
        ensures
            r@ == (ChooseTreeView { sessions_collapsed: false, windows_collapsed: false, format: None, native_filter: None, sort: None, reverse: false, zoom: false }),
    {
        ChooseTree::new()
    }
}

impl ChooseTree {
    /// Creates default tree options.
    pub fn new() -> (r: Self)
        ensures
            r@ == (ChooseTreeView { sessions_collapsed: false, windows_collapsed: false, format: None, native_filter: None, sort: None, reverse: false, zoom: false }),
    {
        let r = ChooseTree { sessions_collapsed: false, windows_collapsed: false, format: None, native_filter: None, sort: None, reverse: false, zoom: false };
        r
    }

    /// Starts with sessions collapsed.
    pub fn sessions_collapsed(self, enabled: bool) -> (r: Self)
        ensures
            r@ == (ChooseTreeView { sessions_collapsed: enabled, ..self@ }),
    {
        let mut s = self;
        s.sessions_collapsed = enabled;
        s
    }

    /// Starts with windows collapsed.
    pub fn windows_collapsed(self, enabled: bool) -> (r: Self)
        ensures
            r@ == (ChooseTreeView { windows_collapsed: enabled, ..self@ }),
    {
        let mut s = self;
        s.windows_collapsed = enabled;
        s
    }

    /// Sets the item format.
    pub fn format(self, value: TmuxText) -> (r: Self)
        ensures
            r@ == (ChooseTreeView { format: Some(value@), ..self@ }),
    {
        let mut s = self;
        s.format = Some(value);
        s
    }

    /// Sets a native filter.
    pub fn native_filter(self, value: TmuxText) -> (r: Self)
        ensures
            r@ == (ChooseTreeView { native_filter: Some(value@), ..self@ }),
    {
        let mut s = self;
        s.native_filter = Some(value);
        s
    }

    /// Sets the sort order.
    pub fn sort(self, value: TreeSort) -> (r: Self)
        ensures
            r@ == (ChooseTreeView { sort: Some(value), ..self@ }),
    {
        let mut s = self;
        s.sort = Some(value);
        s
    }

    /// Reverses the sort order.
    pub fn reverse(self, enabled: bool) -> (r: Self)
        ensures
            r@ == (ChooseTreeView { reverse: enabled, ..self@ }),
    {
        let mut s = self;
        s.reverse = enabled;
        s
    }

    /// Zooms the pane while choosing.
    pub fn zoom(self, enabled: bool) -> (r: Self)
        ensures
            r@ == (ChooseTreeView { zoom: enabled, ..self@ }),
    {
        let mut s = self;
        s.zoom = enabled;
        s
    }

}

/// Options for `find-window`.
#[derive(Clone, Debug)]
pub struct FindWindow {
    pattern: TmuxText,
    content: bool,
    case_insensitive: bool,
    name_only: bool,
    regex: bool,
    title: bool,
}

/// The mathematical content of [`FindWindow`].
pub struct FindWindowView {
    pub pattern: Seq<u8>,
    pub content: bool,
    pub case_insensitive: bool,
    pub name_only: bool,
    pub regex: bool,
    pub title: bool,
}

impl PartialEq for FindWindow {
    fn eq(&self, other: &Self) -> (r: bool) {
        self.pattern == other.pattern && self.content == other.content && self.case_insensitive == other.case_insensitive
            && self.name_only == other.name_only && self.regex == other.regex && self.title == other.title
    }
}

impl vstd::std_specs::cmp::PartialEqSpecImpl for FindWindow {
    open spec fn obeys_eq_spec() -> bool {
        true
    }

    open spec fn eq_spec(&self, other: &Self) -> bool {
        self@ == other@
    }
}

impl Eq for FindWindow {}

impl View for FindWindow {
    type V = FindWindowView;

    closed spec fn view(&self) -> FindWindowView {
        FindWindowView {
            pattern: self.pattern@,
            content: self.content,
            case_insensitive: self.case_insensitive,
            name_only: self.name_only,
            regex: self.regex,
            title: self.title,
        }
    }
}

impl FindWindow {
    /// Creates search options for a pattern.
    pub fn new(pattern: TmuxText) -> (r: Self)
        ensures
            r@ == (FindWindowView { pattern: pattern@, content: false, case_insensitive: false, name_only: false, regex: false, title: false }),
    {
        let r = FindWindow { pattern: pattern, content: false, case_insensitive: false, name_only: false, regex: false, title: false };
        r
    }

    /// Matches pane content.
    pub fn content(self, enabled: bool) -> (r: Self)
        ensures
            r@ == (FindWindowView { content: enabled, ..self@ }),
    {
        let mut s = self;
        s.content = enabled;
        s
    }

    /// Ignores case.
    pub fn case_insensitive(self, enabled: bool) -> (r: Self)
        ensures
            r@ == (FindWindowView { case_insensitive: enabled, ..self@ }),
    {
        let mut s = self;
        s.case_insensitive = enabled;
        s
    }

    /// Matches window names only.
    pub fn name_only(self, enabled: bool) -> (r: Self)
        ensures
            r@ == (FindWindowView { name_only: enabled, ..self@ }),
    {
        let mut s = self;
        s.name_only = enabled;
        s
    }

    /// Treats the pattern as a regular expression.
    pub fn regex(self, enabled: bool) -> (r: Self)
        ensures
            r@ == (FindWindowView { regex: enabled, ..self@ }),
    {
        let mut s = self;
        s.regex = enabled;
        s
    }

    /// Matches pane titles.
    pub fn title(self, enabled: bool) -> (r: Self)
        ensures
            r@ == (FindWindowView { title: enabled, ..self@ }),
    {
        let mut s = self;
        s.title = enabled;
        s
    }

}

/// Options for `respawn-pane`.
#[derive(Clone, Debug)]
pub struct RespawnPane {
    shell_command: Option<TmuxText>,
    cwd: Option<TmuxText>,
    environment: StrMap<TmuxText>,
    kill: bool,
}

/// The mathematical content of [`RespawnPane`].
pub struct RespawnPaneView {
    pub shell_command: Option<Seq<u8>>,
    pub cwd: Option<Seq<u8>>,
    pub environment: Seq<(Seq<char>, Seq<u8>)>,
    pub kill: bool,
}

impl View for RespawnPane {
    type V = RespawnPaneView;

    closed spec fn view(&self) -> RespawnPaneView {
        RespawnPaneView {
            shell_command: text_opt(self.shell_command),
            cwd: text_opt(self.cwd),
            environment: env_view(self.environment),
            kill: self.kill,
        }
    }
}

impl Default for RespawnPane {
    /// The same value as `RespawnPane::new()`.
    fn default() -> (r: Self)
        ensures
            r@ == (RespawnPaneView { shell_command: None, cwd: None, environment: Seq::empty(), kill: false }),
    {
        RespawnPane::new()
    }
}

impl RespawnPane {
    /// Creates default respawn options.
    pub fn new() -> (r: Self)
        ensures
            r@ == (RespawnPaneView { shell_command: None, cwd: None, environment: Seq::empty(), kill: false }),
    {
        let r = RespawnPane { shell_command: None, cwd: None, environment: StrMap::new(), kill: false };
        assert(r@.environment =~= Seq::empty());
        r
    }

    /// Sets the replacement command.
    pub fn shell_command(self, value: TmuxText) -> (r: Self)
        ensures
            r@ == (RespawnPaneView { shell_command: Some(value@), ..self@ }),
    {
        let mut s = self;
        s.shell_command = Some(value);
        s
    }

    /// Sets the working directory.
    pub fn cwd(self, value: TmuxText) -> (r: Self)
        ensures
            r@ == (RespawnPaneView { cwd: Some(value@), ..self@ }),
    {
        let mut s = self;
        s.cwd = Some(value);
        s
    }

    /// Adds an environment entry.
    pub fn environment(self, name: String, value: TmuxText) -> (r: Result<Self, Error>)
        ensures
            valid_name(name@) ==> (r matches Ok(x) && x@ == (RespawnPaneView { environment: x@.environment, ..self@ })
                && env_inserted(self@.environment, x@.environment, name@, value@)),
            !valid_name(name@) ==> (r matches Err(e) && e@ == invalid_name("environment name")),
    {
        let mut s = self;
        match insert_env(&mut s.environment, name, value) {
            Ok(()) => Ok(s),
            Err(e) => Err(e),
        }
    }

    /// Kills the existing process.
    pub fn kill(self, enabled: bool) -> (r: Self)
        ensures
            r@ == (RespawnPaneView { kill: enabled, ..self@ }),
    {
        let mut s = self;
        s.kill = enabled;
        s
    }

}

/// The size arguments of `split-window`: `-l CELLS` or `-p PERCENT`.
pub open spec fn split_size_args(size: Option<PaneSize>) -> Seq<(Seq<u8>, bool)> {
    match size {
        Some(PaneSize::Cells(c)) => seq![plain("-l"), plain_bytes(number_bytes(c as nat))],
        Some(PaneSize::Percent(p)) => seq![plain("-p"), plain_bytes(number_bytes(p as nat))],
        None => seq![],
    }
}

fn push_split_size(command: Command, size: Option<PaneSize>) -> (r: Command)
    ensures
        r@ == with_args(command@, split_size_args(size)),
{
    let r = match size {
        Some(PaneSize::Cells(c)) => command.arg("-l").arg_text(number_text(c as u64)),
        Some(PaneSize::Percent(p)) => command.arg("-p").arg_text(number_text(p as u64)),
        None => command,
    };
    assert(r@.arguments =~= command@.arguments + split_size_args(size));
    r
}

/// `split-window` for a pane: it prints the new pane's ID.
pub open spec fn split_spec(pane: u64, o: SplitPaneView) -> CommandView {
    command_with("split-window", seq![plain("-P"), plain("-F"), plain("#{pane_id}"), plain("-t"), plain_bytes(pane_bytes(pane))]
        + flag_if(o.direction == SplitDirection::Horizontal, "-h")
        + flag_if(o.detached, "-d")
        + flag_if(o.before, "-b")
        + flag_if(o.full_window, "-f")
        + split_size_args(o.size)
        + option_pair("-c", o.cwd)
        + env_args(o.environment)
        + hidden_opt(o.shell_command))
}

/// Builds the command that splits a pane.
pub fn split_command(pane: PaneId, options: &SplitPane) -> (r: Command)
    ensures
        r@ == split_spec(pane@, options@),
{
    let base = Command::new("split-window").arg("-P").arg("-F").arg("#{pane_id}").target(pane.to_text());
    assert(base@.arguments =~= seq![plain("-P"), plain("-F"), plain("#{pane_id}"), plain("-t"), plain_bytes(pane_bytes(pane@))]);
    let c = base
        .flag(options.direction == SplitDirection::Horizontal, "-h")
        .flag(options.detached, "-d")
        .flag(options.before, "-b")
        .flag(options.full_window, "-f");
    let c = push_split_size(c, options.size);
    c.option_text("-c", &options.cwd).environment(&options.environment).hidden_text(&options.shell_command)
}

/// A `u32` option widened for a decimal argument.
pub open spec fn widen(v: Option<u32>) -> Option<u64> {
    match v {
        Some(n) => Some(n as u64),
        None => None,
    }
}

fn widen_exec(v: Option<u32>) -> (r: Option<u64>)
    ensures
        r == widen(v),
{
    match v {
        Some(n) => Some(n as u64),
        None => None,
    }
}

/// The bytes of an optional signed coordinate.
pub open spec fn signed_opt(v: Option<i32>) -> Option<Seq<u8>> {
    match v {
        Some(n) => Some(signed_bytes(n as int)),
        None => None,
    }
}

fn signed_opt_text(v: Option<i32>) -> (r: Option<TmuxText>)
    ensures
        text_opt(r) == signed_opt(v),
{
    match v {
        Some(n) => Some(signed_text(n as i64)),
        None => None,
    }
}

/// `new-pane` for a floating pane beside a pane: it prints the new pane's ID.
pub open spec fn new_pane_spec(pane: u64, o: NewPaneView) -> CommandView {
    command_with("new-pane", seq![plain("-P"), plain("-F"), plain("#{pane_id}"), plain("-t"), plain_bytes(pane_bytes(pane))]
        + option_pair("-x", number_opt(widen(o.width)))
        + option_pair("-y", number_opt(widen(o.height)))
        + option_pair("-X", signed_opt(o.x))
        + option_pair("-Y", signed_opt(o.y))
        + flag_if(o.zoom, "-Z")
        + option_pair("-s", o.style)
        + option_pair("-S", o.active_border_style)
        + option_pair("-R", o.inactive_border_style)
        + option_pair("-m", o.message)
        + flag_if(o.keep, "-k")
        + option_pair("-c", o.cwd)
        + flag_if(!o.attach, "-d")
        + env_args(o.environment)
        + flag_if(o.empty, "-E")
        + hidden_opt(o.shell_command))
}

/// Builds the command that creates a floating pane; tmux 3.7 is required.
pub fn new_pane_command(pane: PaneId, options: &NewPane, version: &TmuxVersion) -> (r: Result<Command, Error>)
    ensures
        meets_spec(version@, release_of(3, 7)) ==> (r matches Ok(c) && c@ == new_pane_spec(pane@, options@)),
        !meets_spec(version@, release_of(3, 7)) ==> (r matches Err(e) && e@ == unsupported("floating panes", release_of(3, 7), version@)),
{
    match gate(version, true, "floating panes", 3, 7) {
        Err(e) => return Err(e),
        Ok(()) => {},
    }
    let base = Command::new("new-pane").arg("-P").arg("-F").arg("#{pane_id}").target(pane.to_text());
    assert(base@.arguments =~= seq![plain("-P"), plain("-F"), plain("#{pane_id}"), plain("-t"), plain_bytes(pane_bytes(pane@))]);
    let x = signed_opt_text(options.x);
    let y = signed_opt_text(options.y);
    let c = base
        .option_number("-x", widen_exec(options.width))
        .option_number("-y", widen_exec(options.height))
        .option_text("-X", &x)
        .option_text("-Y", &y)
        .flag(options.zoom, "-Z")
        .option_text("-s", &options.style)
        .option_text("-S", &options.active_border_style)
        .option_text("-R", &options.inactive_border_style)
        .option_text("-m", &options.message)
        .flag(options.keep, "-k")
        .option_text("-c", &options.cwd)
        .flag(!options.attach, "-d")
        .environment(&options.environment)
        .flag(options.empty, "-E")
        .hidden_text(&options.shell_command);
    Ok(c)
}

/// `-e` or `-d` for an input choice.
pub open spec fn input_args(input: Option<bool>) -> Seq<(Seq<u8>, bool)> {
    match input {
        Some(true) => seq![plain("-e")],
        Some(false) => seq![plain("-d")],
        None => seq![],
    }
}

/// The flag of an optional direction.
pub open spec fn direction_args(d: Option<ResizeDirection>) -> Seq<(Seq<u8>, bool)> {
    match d {
        Some(x) => seq![plain(direction_flag(x))],
        None => seq![],
    }
}

/// `select-pane` with its options, then the pane.
pub open spec fn select_pane_spec(pane: u64, o: SelectPaneView) -> CommandView {
    command_with("select-pane", direction_args(o.direction)
        + flag_if(o.last, "-l")
        + flag_if(o.keep_zoom, "-Z")
        + flag_if(o.mark, "-m")
        + flag_if(o.clear_mark, "-M")
        + input_args(o.input)
        + seq![plain("-t"), plain_bytes(pane_bytes(pane))])
}

/// Builds the command that selects a pane; a direction excludes `last`, and
/// marking excludes clearing the mark.
pub fn select_pane_command(pane: PaneId, options: &SelectPane) -> (r: Result<Command, Error>)
    ensures
        options@.direction is Some && options@.last ==> (r matches Err(e)
            && e@ == invalid_argument("pane selection", "direction and last are mutually exclusive")),
        !(options@.direction is Some && options@.last) && options@.mark && options@.clear_mark ==> (r matches Err(e)
            && e@ == invalid_argument("pane selection", "mark and clear_mark are mutually exclusive")),
        !(options@.direction is Some && options@.last) && !(options@.mark && options@.clear_mark) ==> (r matches Ok(c)
            && c@ == select_pane_spec(pane@, options@)),
{
    if options.direction.is_some() && options.last {
        return Err(invalid_argument_error("pane selection", "direction and last are mutually exclusive"));
    }
    if options.mark && options.clear_mark {
        return Err(invalid_argument_error("pane selection", "mark and clear_mark are mutually exclusive"));
    }
    let c = Command::new("select-pane");
    let c = match options.direction {
        Some(d) => c.arg(d.flag()),
        None => c,
    };
    assert(c@.arguments =~= direction_args(options@.direction));
    let c = c.flag(options.last, "-l").flag(options.keep_zoom, "-Z").flag(options.mark, "-m").flag(options.clear_mark, "-M");
    let c2 = match options.input {
        Some(true) => c.arg("-e"),
        Some(false) => c.arg("-d"),
        None => c,
    };
    assert(c2@.arguments =~= c@.arguments + input_args(options@.input));
    let r = c2.target(pane.to_text());
    assert(r@.arguments =~= select_pane_spec(pane@, options@).arguments);
    Ok(r)
}

/// Builds the command of a plain selection, optionally enabling input.
pub fn select_command(pane: PaneId, enable_input: bool) -> (r: Command)
    ensures
        r@ == select_pane_spec(pane@, SelectPaneView { direction: None, last: false, keep_zoom: false, mark: false,
            clear_mark: false, input: if enable_input { Some(true) } else { None } }),
{
    let options = SelectPane::new().input(if enable_input { Some(true) } else { None });
    match select_pane_command(pane, &options) {
        Ok(c) => c,
        Err(_) => Command::new("select-pane"),
    }
}

/// `capture-pane` for a pane with its options, without an output choice.
pub open spec fn capture_spec(pane: u64, o: CapturePaneView) -> CommandView {
    command_with("capture-pane", seq![plain("-t"), plain_bytes(pane_bytes(pane))]
        + option_pair("-S", match o.start { Some(l) => Some(capture_line_bytes(l)), None => None })
        + option_pair("-E", match o.end { Some(l) => Some(capture_line_bytes(l)), None => None })
        + flag_if(o.alternate, "-a")
        + flag_if(o.escape_sequences, "-e")
        + flag_if(o.escape_non_printable, "-C")
        + flag_if(o.join_wrapped, "-J")
        + flag_if(o.preserve_trailing, "-N")
        + flag_if(o.pending, "-P")
        + flag_if(o.trim_trailing, "-T")
        + flag_if(o.quiet, "-q")
        + flag_if(o.mode_screen, "-M")
        + flag_if(o.hyperlinks, "-H")
        + flag_if(o.line_numbers, "-L")
        + flag_if(o.line_flags, "-F"))
}

fn line_text(l: Option<CaptureLine>) -> (r: Option<TmuxText>)
    ensures
        text_opt(r) == (match l { Some(x) => Some(capture_line_bytes(x)), None => None::<Seq<u8>> }),
{
    match l {
        Some(x) => Some(x.to_text()),
        None => None,
    }
}

/// Builds the capture command for a pane.
#[verifier::spinoff_prover]
#[verifier::rlimit(40)]
pub fn capture_command(pane: PaneId, options: &CapturePane) -> (r: Command)
    ensures
        r@ == capture_spec(pane@, options@),
{
    let base = Command::new("capture-pane").target(pane.to_text());
    assert(base@.arguments =~= seq![plain("-t"), plain_bytes(pane_bytes(pane@))]);
    let start = line_text(options.start);
    let end = line_text(options.end);
    base.option_text("-S", &start)
        .option_text("-E", &end)
        .flag(options.alternate, "-a")
        .flag(options.escape_sequences, "-e")
        .flag(options.escape_non_printable, "-C")
        .flag(options.join_wrapped, "-J")
        .flag(options.preserve_trailing, "-N")
        .flag(options.pending, "-P")
        .flag(options.trim_trailing, "-T")
        .flag(options.quiet, "-q")
        .flag(options.mode_screen, "-M")
        .flag(options.hyperlinks, "-H")
        .flag(options.line_numbers, "-L")
        .flag(options.line_flags, "-F")
}

/// Whether the connected version supplies every capture option that is asked for.
pub open spec fn capture_supported(o: CapturePaneView, v: TmuxVersionView) -> bool {
    gate_passes(v, o.trim_trailing, release_of(3, 4))
        && gate_passes(v, o.mode_screen, release_of(3, 6))
        && gate_passes(v, o.hyperlinks || o.line_numbers || o.line_flags, release_of(3, 7))
}

/// Checks capture options against the connected version, in option order.
pub fn validate_capture(options: &CapturePane, version: &TmuxVersion) -> (r: Result<(), Error>)
    ensures
        capture_supported(options@, version@) ==> r is Ok,
        !gate_passes(version@, options@.trim_trailing, release_of(3, 4)) ==> (r matches Err(e)
            && e@ == unsupported("trim trailing capture cells", release_of(3, 4), version@)),
        gate_passes(version@, options@.trim_trailing, release_of(3, 4))
            && !gate_passes(version@, options@.mode_screen, release_of(3, 6)) ==> (r matches Err(e)
            && e@ == unsupported("capture mode screen", release_of(3, 6), version@)),
        gate_passes(version@, options@.trim_trailing, release_of(3, 4))
            && gate_passes(version@, options@.mode_screen, release_of(3, 6))
            && !gate_passes(version@, options@.hyperlinks || options@.line_numbers || options@.line_flags, release_of(3, 7))
            ==> (r matches Err(e) && e@ == unsupported("extended pane capture", release_of(3, 7), version@)),
{
    match gate(version, options.trim_trailing, "trim trailing capture cells", 3, 4) {
        Err(e) => return Err(e),
        Ok(()) => {},
    }
    match gate(version, options.mode_screen, "capture mode screen", 3, 6) {
        Err(e) => return Err(e),
        Ok(()) => {},
    }
    gate(version, options.hyperlinks || options.line_numbers || options.line_flags, "extended pane capture", 3, 7)
}

/// Builds the command that prints a capture.
pub fn capture_print_command(pane: PaneId, options: &CapturePane) -> (r: Command)
    ensures
        r@ == with_args(capture_spec(pane@, options@), seq![plain("-p")]),
{
    capture_command(pane, options).arg("-p")
}

/// Builds the command that captures into a named buffer.
pub fn capture_to_buffer_command(pane: PaneId, options: &CapturePane, buffer: &BufferName) -> (r: Command)
    ensures
        r@ == with_args(capture_spec(pane@, options@), seq![plain("-b"), plain_bytes(buffer@)]),
{
    let c = capture_command(pane, options);
    let r = c.arg("-b").arg_text(buffer.to_os_string());
    assert(r@.arguments =~= c@.arguments + seq![plain("-b"), plain_bytes(buffer@)]);
    r
}

/// Each key as an argument, hidden when the keys are sensitive.
pub open spec fn key_args(keys: Seq<Seq<u8>>, sensitive: bool) -> Seq<(Seq<u8>, bool)> {
    keys.map_values(|k: Seq<u8>| (k, sensitive))
}

/// `send-keys` for a pane with its options: a copy-mode command replaces the keys.
pub open spec fn send_keys_spec(pane: u64, o: SendKeysView) -> CommandView {
    command_with("send-keys", seq![plain("-t"), plain_bytes(pane_bytes(pane))]
        + flag_if(o.literal, "-l")
        + flag_if(o.hexadecimal, "-H")
        + flag_if(o.reset, "-R")
        + flag_if(o.expand_formats, "-F")
        + flag_if(o.key_name, "-K")
        + option_pair("-c", o.target_client)
        + option_pair("-N", number_opt(widen(o.repeat)))
        + match o.copy_mode_command {
            Some(c) => seq![plain("-X"), (c, o.sensitive)],
            None => flag_if(o.suppress_history, " ") + key_args(o.keys, o.sensitive),
        })
}

/// `send-keys -t PANE Enter`.
pub open spec fn enter_spec(pane: u64) -> CommandView {
    command_with("send-keys", seq![plain("-t"), plain_bytes(pane_bytes(pane)), plain("Enter")])
}

/// The argument error of a key sequence, if any, in the order the checks run.
pub open spec fn send_keys_error(o: SendKeysView) -> Option<ErrorView> {
    if o.keys.len() == 0 && !o.reset && o.repeat is None && o.copy_mode_command is None {
        Some(invalid_argument("send keys", "keys, reset, repeat, or a copy-mode command is required"))
    } else if o.literal && o.hexadecimal {
        Some(invalid_argument("send keys", "literal and hexadecimal modes are mutually exclusive"))
    } else if o.copy_mode_command is Some && o.keys.len() > 0 {
        Some(invalid_argument("send keys", "ordinary keys and a copy-mode command are mutually exclusive"))
    } else {
        None
    }
}

/// The commands that send keys: the keys, then Enter when asked for and no
/// copy-mode command replaces the keys.
pub open spec fn send_keys_plan(pane: u64, o: SendKeysView) -> Seq<CommandView> {
    if o.enter && o.copy_mode_command is None {
        seq![send_keys_spec(pane, o), enter_spec(pane)]
    } else {
        seq![send_keys_spec(pane, o)]
    }
}

fn push_keys(command: Command, keys: &Vec<TmuxText>, sensitive: bool) -> (r: Command)
    ensures
        r@ == with_args(command@, key_args(keys@.map_values(|t: TmuxText| t@), sensitive)),
{
    let ghost all = keys@.map_values(|t: TmuxText| t@);
    let mut r = command;
    let mut k: usize = 0;
    assert(command@.arguments + key_args(all.take(0), sensitive) =~= command@.arguments);
    while k < keys.len()
        invariant
            k <= keys@.len(),
            all == keys@.map_values(|t: TmuxText| t@),
            r@ == with_args(command@, key_args(all.take(k as int), sensitive)),
        decreases keys.len() - k,
    {
        let key = keys[k].clone();
        let ghost before = r@;
        r = r.argument(key, sensitive);
        proof {
            assert(key_args(all.take(k + 1), sensitive) =~= key_args(all.take(k as int), sensitive).push((all[k as int], sensitive)));
            assert(r@.arguments =~= command@.arguments + key_args(all.take(k + 1), sensitive));
        }
        k = k + 1;
    }
    assert(all.take(keys@.len() as int) =~= all);
    r
}

/// Builds the `send-keys` command itself, without validation.
fn send_keys_main(pane: PaneId, options: &SendKeys) -> (r: Command)
    ensures
        r@ == send_keys_spec(pane@, options@),
{
    let base = Command::new("send-keys").target(pane.to_text());
    assert(base@.arguments =~= seq![plain("-t"), plain_bytes(pane_bytes(pane@))]);
    let client = client_text(&options.target_client);
    let c = base
        .flag(options.literal, "-l")
        .flag(options.hexadecimal, "-H")
        .flag(options.reset, "-R")
        .flag(options.expand_formats, "-F")
        .flag(options.key_name, "-K")
        .option_text("-c", &client)
        .option_number("-N", widen_exec(options.repeat));
    match &options.copy_mode_command {
        Some(copy) => {
            let r = c.arg("-X").argument(copy.clone(), options.sensitive);
            assert(r@.arguments =~= c@.arguments + seq![plain("-X"), (copy@, options.sensitive)]);
            r
        },
        None => {
            let h = c.flag(options.suppress_history, " ");
            let r = push_keys(h, &options.keys, options.sensitive);
            assert(r@.arguments =~= c@.arguments + (flag_if(options@.suppress_history, " ") + key_args(options@.keys, options@.sensitive)));
            r
        },
    }
}

/// Whether sending keys with these options asks tmux for its version:
/// targeting a client or sending key names needs tmux 3.4.
pub open spec fn send_keys_gated(o: SendKeysView) -> bool {
    o.target_client is Some || o.key_name
}

/// Checks send-keys options before tmux is asked anything: the argument error
/// if there is one, otherwise whether the server's version is needed.
pub fn send_keys_check(options: &SendKeys) -> (r: Result<bool, Error>)
    ensures
        send_keys_error(options@) matches Some(e) ==> (r matches Err(x) && x@ == e),
        send_keys_error(options@) is None ==> r == Ok::<bool, Error>(send_keys_gated(options@)),
{
    if options.keys.len() == 0 && !options.reset && options.repeat.is_none() && options.copy_mode_command.is_none() {
        return Err(invalid_argument_error("send keys", "keys, reset, repeat, or a copy-mode command is required"));
    }
    if options.literal && options.hexadecimal {
        return Err(invalid_argument_error("send keys", "literal and hexadecimal modes are mutually exclusive"));
    }
    if options.copy_mode_command.is_some() && options.keys.len() > 0 {
        return Err(invalid_argument_error("send keys", "ordinary keys and a copy-mode command are mutually exclusive"));
    }
    Ok(options.target_client.is_some() || options.key_name)
}

/// Whether the version gate of send-keys passes; without a version nothing
/// gated was asked for.
pub open spec fn send_keys_gate_passes(version: Option<&TmuxVersion>, o: SendKeysView) -> bool {
    match version {
        Some(v) => gate_passes(v@, send_keys_gated(o), release_of(3, 4)),
        None => true,
    }
}

/// Builds the commands that send keys to a pane. Targeting a client or sending
/// key names needs tmux 3.4, so those options come with the server's version.
pub fn send_keys_commands(pane: PaneId, options: &SendKeys, version: Option<&TmuxVersion>) -> (r: Result<Vec<Command>, Error>)
    requires
        send_keys_gated(options@) ==> version is Some,
    ensures
        send_keys_error(options@) matches Some(e) ==> (r matches Err(x) && x@ == e),
        send_keys_error(options@) is None && !send_keys_gate_passes(version, options@)
            ==> (r matches Err(x) && x@ == unsupported("client-targeted keys", release_of(3, 4), version->Some_0@)),
        send_keys_error(options@) is None && send_keys_gate_passes(version, options@)
            ==> (r matches Ok(v) && v@.map_values(|c: Command| c@) == send_keys_plan(pane@, options@)),
{
    let send_enter = options.enter && options.copy_mode_command.is_none();
    match send_keys_check(options) {
        Err(e) => return Err(e),
        Ok(_) => {},
    }
    match version {
        Some(v) => match gate(v, options.target_client.is_some() || options.key_name, "client-targeted keys", 3, 4) {
            Err(e) => return Err(e),
            Ok(()) => {},
        },
        None => {},
    }
    let main = send_keys_main(pane, options);
    let mut commands: Vec<Command> = Vec::new();
    commands.push(main);
    if send_enter {
        let enter = Command::new("send-keys").target(pane.to_text()).arg("Enter");
        assert(enter@.arguments =~= enter_spec(pane@).arguments);
        commands.push(enter);
    }
    assert(commands@.map_values(|c: Command| c@) =~= send_keys_plan(pane@, options@));
    Ok(commands)
}

/// The target arguments of a pane.
pub open spec fn pane_target_args(pane: u64) -> Seq<(Seq<u8>, bool)> {
    seq![plain("-t"), plain_bytes(pane_bytes(pane))]
}

fn targeted(subcommand: &str, pane: PaneId) -> (r: Command)
    ensures
        r@ == command_with(subcommand, pane_target_args(pane@)),
{
    let c = Command::new(subcommand).target(pane.to_text());
    assert(c@.arguments =~= pane_target_args(pane@));
    c
}

/// `select-pane -T TITLE -t PANE`.
pub open spec fn set_title_spec(pane: u64, title: Seq<u8>) -> CommandView {
    command_with("select-pane", seq![plain("-T"), plain_bytes(title)] + pane_target_args(pane))
}

/// Builds the command that sets a pane title.
pub fn set_title_command(pane: PaneId, title: TmuxText) -> (r: Command)
    ensures
        r@ == set_title_spec(pane@, title@),
{
    let ghost t = title@;
    let c = Command::new("select-pane").arg("-T").arg_text(title).target(pane.to_text());
    assert(c@.arguments =~= set_title_spec(pane@, t).arguments);
    c
}

/// `resize-pane FLAG CELLS -t PANE`.
pub open spec fn resize_spec(pane: u64, direction: ResizeDirection, cells: u32) -> CommandView {
    command_with("resize-pane", seq![plain(direction_flag(direction)), plain_bytes(number_bytes(cells as nat))] + pane_target_args(pane))
}

/// Builds the command that resizes a pane by a non-zero number of cells.
pub fn resize_command(pane: PaneId, direction: ResizeDirection, cells: u32) -> (r: Result<Command, Error>)
    ensures
        cells != 0 ==> (r matches Ok(c) && c@ == resize_spec(pane@, direction, cells)),
        cells == 0 ==> (r matches Err(e) && e@ == invalid_argument("resize cells", "must be non-zero")),
{
    if cells == 0 {
        return Err(invalid_argument_error("resize cells", "must be non-zero"));
    }
    let c = Command::new("resize-pane").arg(direction.flag()).arg_text(number_text(cells as u64)).target(pane.to_text());
    assert(c@.arguments =~= resize_spec(pane@, direction, cells).arguments);
    Ok(c)
}

/// `resize-pane [-x W] [-y H] -t PANE`.
pub open spec fn resize_to_spec(pane: u64, width: Option<u32>, height: Option<u32>) -> CommandView {
    command_with("resize-pane", option_pair("-x", number_opt(widen(width))) + option_pair("-y", number_opt(widen(height)))
        + pane_target_args(pane))
}

/// Builds the command that resizes a pane to an absolute size: at least one
/// dimension, and no zero dimension.
pub fn resize_to_command(pane: PaneId, width: Option<u32>, height: Option<u32>) -> (r: Result<Command, Error>)
    ensures
        width is None && height is None ==> (r matches Err(e) && e@ == invalid_argument("absolute pane size", "width or height is required")),
        !(width is None && height is None) && (width == Some(0u32) || height == Some(0u32)) ==> (r matches Err(e)
            && e@ == invalid_argument("absolute pane size", "dimensions must be non-zero")),
        !(width is None && height is None) && !(width == Some(0u32) || height == Some(0u32)) ==> (r matches Ok(c)
            && c@ == resize_to_spec(pane@, width, height)),
{
    if width.is_none() && height.is_none() {
        return Err(invalid_argument_error("absolute pane size", "width or height is required"));
    }
    if width == Some(0u32) || height == Some(0u32) {
        return Err(invalid_argument_error("absolute pane size", "dimensions must be non-zero"));
    }
    let base = Command::new("resize-pane").option_number("-x", widen_exec(width));
    assert(base@.arguments =~= option_pair("-x", number_opt(widen(width))));
    let c = base.option_number("-y", widen_exec(height)).target(pane.to_text());
    assert(c@.arguments =~= resize_to_spec(pane@, width, height).arguments);
    Ok(c)
}

/// A percentage argument: the number followed by `%`.
pub open spec fn percent_bytes(p: u8) -> Seq<u8> {
    encode_utf8(decimal(p as nat) + "%"@)
}

fn percent_text(p: u8) -> (r: TmuxText)
    ensures
        r@ == percent_bytes(p),
{
    let digits = crate::numeric::decimal_chars(p as u64);
    let mut s = crate::text::string_from_chars(digits.as_slice());
    crate::text::append_str(&mut s, "%");
    TmuxText::from_string(s)
}

/// `resize-pane FLAG PERCENT% -t PANE`.
pub open spec fn resize_percent_spec(pane: u64, flag: &str, percent: u8) -> CommandView {
    command_with("resize-pane", seq![plain(flag), plain_bytes(percent_bytes(percent))] + pane_target_args(pane))
}

/// Builds the command that resizes a pane's width (`-x`) or height (`-y`) to a
/// percentage from 1 through 100.
pub fn resize_percent_command(pane: PaneId, flag: &str, percent: u8) -> (r: Result<Command, Error>)
    ensures
        1 <= percent <= 100 ==> (r matches Ok(c) && c@ == resize_percent_spec(pane@, flag, percent)),
        !(1 <= percent <= 100) ==> (r matches Err(e) && e@ == invalid_argument("pane size percentage", "must be between 1 and 100")),
{
    if percent < 1 || percent > 100 {
        return Err(invalid_argument_error("pane size percentage", "must be between 1 and 100"));
    }
    let c = Command::new("resize-pane").arg(flag).arg_text(percent_text(percent)).target(pane.to_text());
    assert(c@.arguments =~= resize_percent_spec(pane@, flag, percent).arguments);
    Ok(c)
}

/// `resize-pane FLAG -t PANE`, for the mouse (`-M`), trim (`-T`) and zoom (`-Z`) operations.
pub open spec fn resize_flag_spec(pane: u64, flag: &str) -> CommandView {
    command_with("resize-pane", seq![plain(flag)] + pane_target_args(pane))
}

/// Builds a `resize-pane` command with one flag.
pub fn resize_flag_command(pane: PaneId, flag: &str) -> (r: Command)
    ensures
        r@ == resize_flag_spec(pane@, flag),
{
    let c = Command::new("resize-pane").arg(flag).target(pane.to_text());
    assert(c@.arguments =~= resize_flag_spec(pane@, flag).arguments);
    c
}

/// Builds the command that clears a pane's history, resetting hyperlinks when
/// asked; that needs tmux 3.4, so only then does the server's version come along.
pub fn clear_history_command(pane: PaneId, reset_hyperlinks: bool, version: Option<&TmuxVersion>) -> (r: Result<Command, Error>)
    requires
        reset_hyperlinks ==> version is Some,
    ensures
        (!reset_hyperlinks || gate_passes(version->Some_0@, true, release_of(3, 4))) ==> (r matches Ok(c)
            && c@ == command_with("clear-history", pane_target_args(pane@) + flag_if(reset_hyperlinks, "-H"))),
        reset_hyperlinks && !gate_passes(version->Some_0@, true, release_of(3, 4)) ==> (r matches Err(e)
            && e@ == unsupported("reset pane hyperlinks", release_of(3, 4), version->Some_0@)),
{
    match version {
        Some(v) => match gate(v, reset_hyperlinks, "reset pane hyperlinks", 3, 4) {
            Err(e) => return Err(e),
            Ok(()) => {},
        },
        None => {},
    }
    Ok(targeted("clear-history", pane).flag(reset_hyperlinks, "-H"))
}

/// `send-keys -t PANE -R`, followed in the same invocation by `clear-history` when asked.
pub open spec fn reset_spec(pane: u64, clear_history: bool) -> CommandView {
    command_with("send-keys", pane_target_args(pane) + seq![plain("-R")]
        + if clear_history { seq![plain(";"), plain("clear-history"), plain("-t"), plain_bytes(pane_bytes(pane))] } else { seq![] })
}

/// Builds the command that resets a pane's terminal state.
pub fn reset_command(pane: PaneId, clear_history: bool) -> (r: Command)
    ensures
        r@ == reset_spec(pane@, clear_history),
{
    let c = targeted("send-keys", pane).arg("-R");
    let r = if clear_history {
        c.arg(";").arg("clear-history").arg("-t").arg_text(pane.to_text())
    } else {
        c
    };
    assert(r@.arguments =~= reset_spec(pane@, clear_history).arguments);
    r
}

/// `copy-mode` with its options, then the pane.
pub open spec fn copy_mode_spec(pane: u64, o: CopyModeView) -> CommandView {
    command_with("copy-mode", flag_if(o.scroll_up, "-u") + flag_if(o.exit_on_bottom, "-e") + flag_if(o.mouse_drag, "-M")
        + flag_if(o.page_down, "-d") + option_pair("-s", match o.source { Some(s) => Some(pane_bytes(s)), None => None })
        + flag_if(o.cancel, "-q") + pane_target_args(pane))
}

/// Builds the command that enters copy mode; paging down needs tmux 3.5.
pub fn copy_mode_command(pane: PaneId, options: &CopyMode, version: &TmuxVersion) -> (r: Result<Command, Error>)
    ensures
        gate_passes(version@, options@.page_down, release_of(3, 5)) ==> (r matches Ok(c) && c@ == copy_mode_spec(pane@, options@)),
        !gate_passes(version@, options@.page_down, release_of(3, 5)) ==> (r matches Err(e)
            && e@ == unsupported("copy-mode page down", release_of(3, 5), version@)),
{
    match gate(version, options.page_down, "copy-mode page down", 3, 5) {
        Err(e) => return Err(e),
        Ok(()) => {},
    }
    let source = match options.source {
        Some(s) => Some(s.to_text()),
        None => None,
    };
    let base = Command::new("copy-mode").flag(options.scroll_up, "-u");
    assert(base@.arguments =~= flag_if(options@.scroll_up, "-u"));
    let c = base.flag(options.exit_on_bottom, "-e").flag(options.mouse_drag, "-M").flag(options.page_down, "-d")
        .option_text("-s", &source).flag(options.cancel, "-q");
    let r = c.target(pane.to_text());
    assert(r@.arguments =~= copy_mode_spec(pane@, options@).arguments);
    Ok(r)
}

/// `paste-buffer -t PANE` with its options.
pub open spec fn paste_buffer_spec(pane: u64, o: PasteBufferView) -> CommandView {
    command_with("paste-buffer", pane_target_args(pane) + flag_if(o.delete_after, "-d") + flag_if(o.linefeed_separator, "-r")
        + flag_if(o.bracketed, "-p") + option_pair("-b", o.name) + option_pair("-s", o.separator) + flag_if(o.raw, "-S"))
}

/// Builds the command that pastes a buffer; raw mode needs tmux 3.7.
pub fn paste_buffer_command(pane: PaneId, options: &PasteBuffer, version: &TmuxVersion) -> (r: Result<Command, Error>)
    ensures
        gate_passes(version@, options@.raw, release_of(3, 7)) ==> (r matches Ok(c) && c@ == paste_buffer_spec(pane@, options@)),
        !gate_passes(version@, options@.raw, release_of(3, 7)) ==> (r matches Err(e)
            && e@ == unsupported("raw paste-buffer mode", release_of(3, 7), version@)),
{
    match gate(version, options.raw, "raw paste-buffer mode", 3, 7) {
        Err(e) => return Err(e),
        Ok(()) => {},
    }
    let name = match &options.name {
        Some(n) => Some(n.to_os_string()),
        None => None,
    };
    Ok(targeted("paste-buffer", pane).flag(options.delete_after, "-d").flag(options.linefeed_separator, "-r")
        .flag(options.bracketed, "-p").option_text("-b", &name).option_text("-s", &options.separator).flag(options.raw, "-S"))
}

/// `pipe-pane -t PANE` with its options; the shell command is hidden in diagnostics.
pub open spec fn pipe_spec(pane: u64, o: PipePaneView) -> CommandView {
    command_with("pipe-pane", pane_target_args(pane) + flag_if(o.output_only, "-O") + flag_if(o.input_only, "-I")
        + flag_if(o.toggle, "-o") + hidden_opt(o.command))
}

/// Builds the command that pipes a pane; output-only and input-only exclude each other.
pub fn pipe_command(pane: PaneId, options: &PipePane) -> (r: Result<Command, Error>)
    ensures
        options@.output_only && options@.input_only ==> (r matches Err(e)
            && e@ == invalid_argument("pane pipe direction", "output_only and input_only are mutually exclusive")),
        !(options@.output_only && options@.input_only) ==> (r matches Ok(c) && c@ == pipe_spec(pane@, options@)),
{
    if options.output_only && options.input_only {
        return Err(invalid_argument_error("pane pipe direction", "output_only and input_only are mutually exclusive"));
    }
    Ok(targeted("pipe-pane", pane).flag(options.output_only, "-O").flag(options.input_only, "-I")
        .flag(options.toggle, "-o").hidden_text(&options.command))
}

/// Builds a command that only names the pane: `clock-mode`, `choose-buffer`,
/// `choose-client`, `customize-mode`, `kill-pane` and the like.
pub fn pane_command(subcommand: &str, pane: PaneId) -> (r: Command)
    ensures
        r@ == command_with(subcommand, pane_target_args(pane@)),
{
    targeted(subcommand, pane)
}

/// `display-panes [-d MILLIS] [-N]`.
pub open spec fn display_panes_spec(duration_millis: Option<u32>, no_select: bool) -> CommandView {
    command_with("display-panes", option_pair("-d", number_opt(widen(duration_millis))) + flag_if(no_select, "-N"))
}

/// Builds the command that shows pane numbers.
pub fn display_panes_command(duration_millis: Option<u32>, no_select: bool) -> (r: Command)
    ensures
        r@ == display_panes_spec(duration_millis, no_select),
{
    let base = Command::new("display-panes").option_number("-d", widen_exec(duration_millis));
    assert(base@.arguments =~= option_pair("-d", number_opt(widen(duration_millis))));
    base.flag(no_select, "-N")
}

/// `choose-tree -t PANE` with its options.
pub open spec fn choose_tree_spec(pane: u64, o: ChooseTreeView) -> CommandView {
    command_with("choose-tree", pane_target_args(pane) + flag_if(o.sessions_collapsed, "-s") + flag_if(o.windows_collapsed, "-w")
        + flag_if(o.zoom, "-Z") + flag_if(o.reverse, "-r") + option_pair("-F", o.format) + option_pair("-f", o.native_filter)
        + match o.sort { Some(s) => seq![plain("-O"), plain(tree_sort_name(s))], None => seq![] })
}

/// Builds the command that opens the tree chooser.
pub fn choose_tree_command(pane: PaneId, options: &ChooseTree) -> (r: Command)
    ensures
        r@ == choose_tree_spec(pane@, options@),
{
    let c = targeted("choose-tree", pane).flag(options.sessions_collapsed, "-s").flag(options.windows_collapsed, "-w")
        .flag(options.zoom, "-Z").flag(options.reverse, "-r").option_text("-F", &options.format).option_text("-f", &options.native_filter);
    let r = match options.sort {
        Some(s) => c.arg("-O").arg(s.as_str()),
        None => c,
    };
    assert(r@.arguments =~= choose_tree_spec(pane@, options@).arguments);
    r
}

/// `find-window -t PANE` with its options, then the pattern.
pub open spec fn find_window_spec(pane: u64, o: FindWindowView) -> CommandView {
    command_with("find-window", pane_target_args(pane) + flag_if(o.content, "-C") + flag_if(o.case_insensitive, "-i")
        + flag_if(o.name_only, "-N") + flag_if(o.regex, "-r") + flag_if(o.title, "-T") + seq![plain_bytes(o.pattern)])
}

/// Builds the command that searches windows.
pub fn find_window_command(pane: PaneId, options: &FindWindow) -> (r: Command)
    ensures
        r@ == find_window_spec(pane@, options@),
{
    targeted("find-window", pane).flag(options.content, "-C").flag(options.case_insensitive, "-i").flag(options.name_only, "-N")
        .flag(options.regex, "-r").flag(options.title, "-T").arg_text(options.pattern.clone())
}

/// Builds the command that sends the prefix key, the secondary one when asked.
pub fn send_prefix_command(pane: PaneId, secondary: bool) -> (r: Command)
    ensures
        r@ == command_with("send-prefix", pane_target_args(pane@) + flag_if(secondary, "-2")),
{
    targeted("send-prefix", pane).flag(secondary, "-2")
}

/// `swap-pane -s PANE [-d] -t DESTINATION`.
pub open spec fn swap_with_spec(pane: u64, destination: u64, detached: bool) -> CommandView {
    command_with("swap-pane", seq![plain("-s"), plain_bytes(pane_bytes(pane))] + flag_if(detached, "-d")
        + seq![plain("-t"), plain_bytes(pane_bytes(destination))])
}

/// Builds the command that swaps two panes.
pub fn swap_with_command(pane: PaneId, destination: PaneId, detached: bool) -> (r: Command)
    ensures
        r@ == swap_with_spec(pane@, destination@, detached),
{
    let base = Command::new("swap-pane").arg("-s").arg_text(pane.to_text());
    assert(base@.arguments =~= seq![plain("-s"), plain_bytes(pane_bytes(pane@))]);
    let c = base.flag(detached, "-d");
    let r = c.arg("-t").arg_text(destination.to_text());
    assert(r@.arguments =~= swap_with_spec(pane@, destination@, detached).arguments);
    r
}

/// `swap-pane -s PANE` with its options.
pub open spec fn swap_spec(pane: u64, o: SwapPaneView) -> CommandView {
    command_with("swap-pane", seq![plain("-s"), plain_bytes(pane_bytes(pane))]
        + option_pair("-t", match o.destination { Some(d) => Some(pane_bytes(d)), None => None })
        + match o.direction { Some(SwapPaneDirection::Up) => seq![plain("-U")], Some(SwapPaneDirection::Down) => seq![plain("-D")], None => seq![] }
        + flag_if(o.detached, "-d") + flag_if(o.keep_zoom, "-Z"))
}

/// Builds the command that swaps a pane; a destination excludes a direction.
pub fn swap_command(pane: PaneId, options: &SwapPane) -> (r: Result<Command, Error>)
    ensures
        options@.destination is Some && options@.direction is Some ==> (r matches Err(e)
            && e@ == invalid_argument("pane swap", "destination and relative direction are mutually exclusive")),
        !(options@.destination is Some && options@.direction is Some) ==> (r matches Ok(c) && c@ == swap_spec(pane@, options@)),
{
    if options.destination.is_some() && options.direction.is_some() {
        return Err(invalid_argument_error("pane swap", "destination and relative direction are mutually exclusive"));
    }
    let destination = match options.destination {
        Some(d) => Some(d.to_text()),
        None => None,
    };
    let base = Command::new("swap-pane").arg("-s").arg_text(pane.to_text());
    assert(base@.arguments =~= seq![plain("-s"), plain_bytes(pane_bytes(pane@))]);
    let c = base.option_text("-t", &destination);
    let d = match options.direction {
        Some(SwapPaneDirection::Up) => c.arg("-U"),
        Some(SwapPaneDirection::Down) => c.arg("-D"),
        None => c,
    };
    assert(d@.arguments =~= c@.arguments + match options@.direction { Some(SwapPaneDirection::Up) => seq![plain("-U")],
        Some(SwapPaneDirection::Down) => seq![plain("-D")], None => seq![] });
    Ok(d.flag(options.detached, "-d").flag(options.keep_zoom, "-Z"))
}

/// The size argument of a relocation: `-l CELLS` or `-l PERCENT%`.
pub open spec fn relocate_size_args(size: Option<PaneSize>) -> Seq<(Seq<u8>, bool)> {
    match size {
        Some(PaneSize::Cells(c)) => seq![plain("-l"), plain_bytes(number_bytes(c as nat))],
        Some(PaneSize::Percent(p)) => seq![plain("-l"), plain_bytes(percent_bytes(p))],
        None => seq![],
    }
}

/// `move-pane` or `join-pane` for a pane and destination.
pub open spec fn relocate_spec(subcommand: &str, pane: u64, o: RelocatePaneView) -> CommandView {
    command_with(subcommand, seq![plain(if o.direction == SplitDirection::Vertical { "-v" } else { "-h" }),
        plain("-s"), plain_bytes(pane_bytes(pane)), plain("-t"), plain_bytes(destination_bytes(o.destination))]
        + flag_if(o.detached, "-d") + flag_if(o.full_window, "-f") + relocate_size_args(o.size) + flag_if(o.before, "-b"))
}

/// Builds the command that moves (`move-pane`) or joins (`join-pane`) a pane.
pub fn relocate_command(subcommand: &str, pane: PaneId, options: &RelocatePane) -> (r: Command)
    ensures
        r@ == relocate_spec(subcommand, pane@, options@),
{
    let direction = if options.direction == SplitDirection::Vertical { "-v" } else { "-h" };
    let base = Command::new(subcommand).arg(direction).arg("-s").arg_text(pane.to_text()).arg("-t").arg_text(options.destination.to_text());
    assert(base@.arguments =~= seq![plain(direction), plain("-s"), plain_bytes(pane_bytes(pane@)), plain("-t"),
        plain_bytes(destination_bytes(options@.destination))]);
    let c = base.flag(options.detached, "-d").flag(options.full_window, "-f");
    let s = match options.size {
        Some(PaneSize::Cells(n)) => c.arg("-l").arg_text(number_text(n as u64)),
        Some(PaneSize::Percent(p)) => c.arg("-l").arg_text(percent_text(p)),
        None => c,
    };
    assert(s@.arguments =~= c@.arguments + relocate_size_args(options@.size));
    s.flag(options.before, "-b")
}

/// `join-pane -s PANE -t DESTINATION [-h] [-b] [-l PERCENT%]`.
pub open spec fn join_to_spec(pane: u64, destination: WindowTargetView, horizontal: bool, before: bool, percent: Option<u8>) -> CommandView {
    command_with("join-pane", seq![plain("-s"), plain_bytes(pane_bytes(pane)), plain("-t"),
        plain_bytes(encode_utf8(window_target_text(destination)))]
        + flag_if(horizontal, "-h") + flag_if(before, "-b")
        + option_pair("-l", match percent { Some(p) => Some(percent_bytes(p)), None => None }))
}

/// Builds the command that joins a pane into a window; a percentage must lie from 1 through 100.
pub fn join_to_command(pane: PaneId, destination: &WindowTarget, horizontal: bool, before: bool, percent: Option<u8>) -> (r: Result<Command, Error>)
    ensures
        (percent matches Some(p) && !(1 <= p <= 100)) ==> (r matches Err(e)
            && e@ == invalid_argument("join pane percentage", "must be between 1 and 100")),
        !(percent matches Some(p) && !(1 <= p <= 100)) ==> (r matches Ok(c)
            && c@ == join_to_spec(pane@, destination@, horizontal, before, percent)),
{
    match percent {
        Some(p) => if p < 1 || p > 100 {
            return Err(invalid_argument_error("join pane percentage", "must be between 1 and 100"));
        },
        None => {},
    }
    let base = Command::new("join-pane").arg("-s").arg_text(pane.to_text()).arg("-t").arg_text(destination.to_text());
    assert(base@.arguments =~= seq![plain("-s"), plain_bytes(pane_bytes(pane@)), plain("-t"),
        plain_bytes(encode_utf8(window_target_text(destination@)))]);
    let size = match percent {
        Some(p) => Some(percent_text(p)),
        None => None,
    };
    Ok(base.flag(horizontal, "-h").flag(before, "-b").option_text("-l", &size))
}

/// `break-pane -P -F #{window_id} -t PANE [-d] [-n NAME]`: it prints the new window's ID.
pub open spec fn break_pane_spec(pane: u64, detached: bool, name: Option<Seq<u8>>) -> CommandView {
    command_with("break-pane", seq![plain("-P"), plain("-F"), plain("#{window_id}")] + pane_target_args(pane)
        + flag_if(detached, "-d") + option_pair("-n", name))
}

/// Builds the command that breaks a pane out into a new window.
pub fn break_pane_command(pane: PaneId, detached: bool, name: Option<&str>) -> (r: Command)
    ensures
        r@ == break_pane_spec(pane@, detached, crate::server::str_opt(name)),
{
    let name_text = match name {
        Some(n) => Some(TmuxText::from_str(n)),
        None => None,
    };
    let base = Command::new("break-pane").arg("-P").arg("-F").arg("#{window_id}").target(pane.to_text());
    assert(base@.arguments =~= seq![plain("-P"), plain("-F"), plain("#{window_id}")] + pane_target_args(pane@));
    base.flag(detached, "-d").option_text("-n", &name_text)
}

/// `respawn-pane -t PANE` with its options.
pub open spec fn respawn_spec(pane: u64, o: RespawnPaneView) -> CommandView {
    command_with("respawn-pane", pane_target_args(pane) + flag_if(o.kill, "-k") + option_pair("-c", o.cwd)
        + env_args(o.environment) + hidden_opt(o.shell_command))
}

/// Builds the command that respawns a pane.
pub fn respawn_command(pane: PaneId, options: &RespawnPane) -> (r: Command)
    ensures
        r@ == respawn_spec(pane@, options@),
{
    targeted("respawn-pane", pane).flag(options.kill, "-k").option_text("-c", &options.cwd)
        .environment(&options.environment).hidden_text(&options.shell_command)
}

/// Builds the command that kills a pane, or every other pane when asked.
pub fn kill_command(pane: PaneId, all_except: bool) -> (r: Command)
    ensures
        r@ == command_with("kill-pane", pane_target_args(pane@) + flag_if(all_except, "-a")),
{
    targeted("kill-pane", pane).flag(all_except, "-a")
}

/// Swap arguments as builders: each setter keeps the last value it was
/// given, setters of different arguments commute, setting a direction keeps a
/// destination beside it (for `swap_command` to refuse the pair), and
/// `detached(false)` or `keep_zoom(false)` leaves fresh arguments unchanged.
pub proof fn law_swap_setters(v: SwapPaneView, a: u64, b: u64, x: SwapPaneDirection, y: SwapPaneDirection, f: bool, g: bool)
    ensures
        (SwapPaneView { destination: Some(b), ..SwapPaneView { destination: Some(a), ..v } }) == (SwapPaneView { destination: Some(b), ..v }),
        (SwapPaneView { direction: Some(y), ..SwapPaneView { direction: Some(x), ..v } }) == (SwapPaneView { direction: Some(y), ..v }),
        (SwapPaneView { detached: g, ..SwapPaneView { detached: f, ..v } }) == (SwapPaneView { detached: g, ..v }),
        (SwapPaneView { keep_zoom: g, ..SwapPaneView { keep_zoom: f, ..v } }) == (SwapPaneView { keep_zoom: g, ..v }),
        (SwapPaneView { direction: Some(x), ..SwapPaneView { destination: Some(a), ..v } })
            == (SwapPaneView { destination: Some(a), ..SwapPaneView { direction: Some(x), ..v } }),
        (SwapPaneView { detached: f, ..SwapPaneView { destination: Some(a), ..v } })
            == (SwapPaneView { destination: Some(a), ..SwapPaneView { detached: f, ..v } }),
        (SwapPaneView { keep_zoom: g, ..SwapPaneView { detached: f, ..v } })
            == (SwapPaneView { detached: f, ..SwapPaneView { keep_zoom: g, ..v } }),
        (SwapPaneView { direction: Some(x), ..SwapPaneView { destination: Some(a), ..v } }).destination == Some(a),
        (SwapPaneView { detached: false, ..SwapPaneView { destination: None, direction: None, detached: false, keep_zoom: false } })
            == (SwapPaneView { destination: None, direction: None, detached: false, keep_zoom: false }),
        (SwapPaneView { keep_zoom: false, ..SwapPaneView { destination: None, direction: None, detached: false, keep_zoom: false } })
            == (SwapPaneView { destination: None, direction: None, detached: false, keep_zoom: false }),
        (SwapPaneView { detached: true, ..SwapPaneView { destination: None, direction: None, detached: false, keep_zoom: false } })
            != (SwapPaneView { destination: None, direction: None, detached: false, keep_zoom: false }),
{
}

/// Relocation arguments hold one size: `cells` and `percent` fill the same
/// slot, the later call winning, and the other setters keep the last value
/// they were given.
pub proof fn law_relocate_size_slot(v: RelocatePaneView, c: u32, p: u8, d: SplitDirection, e: SplitDirection, f: bool, g: bool)
    ensures
        (RelocatePaneView { size: Some(PaneSize::Percent(p)), ..RelocatePaneView { size: Some(PaneSize::Cells(c)), ..v } })
            == (RelocatePaneView { size: Some(PaneSize::Percent(p)), ..v }),
        (RelocatePaneView { size: Some(PaneSize::Cells(c)), ..RelocatePaneView { size: Some(PaneSize::Percent(p)), ..v } })
            == (RelocatePaneView { size: Some(PaneSize::Cells(c)), ..v }),
        (RelocatePaneView { direction: e, ..RelocatePaneView { direction: d, ..v } }) == (RelocatePaneView { direction: e, ..v }),
        (RelocatePaneView { detached: g, ..RelocatePaneView { detached: f, ..v } }) == (RelocatePaneView { detached: g, ..v }),
        (RelocatePaneView { full_window: g, ..RelocatePaneView { full_window: f, ..v } }) == (RelocatePaneView { full_window: g, ..v }),
        (RelocatePaneView { before: g, ..RelocatePaneView { before: f, ..v } }) == (RelocatePaneView { before: g, ..v }),
{
}

/// The send-keys arguments after the target and the literal and
/// hexadecimal flags.
spec fn send_keys_rest(o: SendKeysView) -> Seq<(Seq<u8>, bool)> {
    flag_if(o.reset, "-R")
        + flag_if(o.expand_formats, "-F")
        + flag_if(o.key_name, "-K")
        + option_pair("-c", o.target_client)
        + option_pair("-N", number_opt(widen(o.repeat)))
        + match o.copy_mode_command {
            Some(c) => seq![plain("-X"), (c, o.sensitive)],
            None => flag_if(o.suppress_history, " ") + key_args(o.keys, o.sensitive),
        }
}

proof fn lemma_send_keys_parts(pane: u64, o: SendKeysView)
    ensures
        send_keys_spec(pane, o).arguments == seq![plain("-t"), plain_bytes(pane_bytes(pane))]
            + flag_if(o.literal, "-l") + flag_if(o.hexadecimal, "-H") + send_keys_rest(o),
{
    let t = seq![plain("-t"), plain_bytes(pane_bytes(pane))];
    let l = flag_if(o.literal, "-l");
    let h = flag_if(o.hexadecimal, "-H");
    let r = flag_if(o.reset, "-R");
    let f = flag_if(o.expand_formats, "-F");
    let k = flag_if(o.key_name, "-K");
    let c = option_pair("-c", o.target_client);
    let n = option_pair("-N", number_opt(widen(o.repeat)));
    let x = match o.copy_mode_command {
        Some(c) => seq![plain("-X"), (c, o.sensitive)],
        None => flag_if(o.suppress_history, " ") + key_args(o.keys, o.sensitive),
    };
    lemma_regroup(t + l + h, r, f, k, c, n, x);
}

/// Regrouping a left-nested concatenation after its head.
proof fn lemma_regroup<A>(head: Seq<A>, p1: Seq<A>, p2: Seq<A>, p3: Seq<A>, p4: Seq<A>, p5: Seq<A>, p6: Seq<A>)
    ensures
        head + p1 + p2 + p3 + p4 + p5 + p6 == head + (p1 + p2 + p3 + p4 + p5 + p6),
{
    assert(head + p1 + p2 =~= head + (p1 + p2));
    assert(head + p1 + p2 + p3 =~= head + (p1 + p2 + p3));
    assert(head + p1 + p2 + p3 + p4 =~= head + (p1 + p2 + p3 + p4));
    assert(head + p1 + p2 + p3 + p4 + p5 =~= head + (p1 + p2 + p3 + p4 + p5));
    assert(head + p1 + p2 + p3 + p4 + p5 + p6 =~= head + (p1 + p2 + p3 + p4 + p5 + p6));
}

/// Literal and hexadecimal modes of send-keys: the command targets the pane
/// first; asking for literal mode adds exactly `-l` right after the target,
/// hexadecimal mode exactly `-H` there, and both add `-l` then `-H`, the
/// rest of the command staying as it was.
pub proof fn law_send_keys_modes(pane: u64, o: SendKeysView)
    requires
        !o.literal,
        !o.hexadecimal,
    ensures
        send_keys_plan(pane, o)[0].subcommand == "send-keys".spec_bytes(),
        send_keys_plan(pane, o)[0].arguments.take(2) == seq![plain("-t"), plain_bytes(pane_bytes(pane))],
        send_keys_plan(pane, SendKeysView { literal: true, ..o })[0].arguments
            == seq![plain("-t"), plain_bytes(pane_bytes(pane)), plain("-l")] + send_keys_plan(pane, o)[0].arguments.skip(2),
        send_keys_plan(pane, SendKeysView { hexadecimal: true, ..o })[0].arguments
            == seq![plain("-t"), plain_bytes(pane_bytes(pane)), plain("-H")] + send_keys_plan(pane, o)[0].arguments.skip(2),
        send_keys_plan(pane, SendKeysView { literal: true, hexadecimal: true, ..o })[0].arguments
            == seq![plain("-t"), plain_bytes(pane_bytes(pane)), plain("-l"), plain("-H")] + send_keys_plan(pane, o)[0].arguments.skip(2),
{
    let t = seq![plain("-t"), plain_bytes(pane_bytes(pane))];
    let lit = SendKeysView { literal: true, ..o };
    let hex = SendKeysView { hexadecimal: true, ..o };
    let both = SendKeysView { literal: true, hexadecimal: true, ..o };
    lemma_send_keys_parts(pane, o);
    lemma_send_keys_parts(pane, lit);
    lemma_send_keys_parts(pane, hex);
    lemma_send_keys_parts(pane, both);
    let rest = send_keys_rest(o);
    assert(send_keys_rest(lit) == rest);
    assert(send_keys_rest(hex) == rest);
    assert(send_keys_rest(both) == rest);
    let a = send_keys_spec(pane, o).arguments;
    assert(a =~= t + rest);
    assert(a.take(2) =~= t);
    assert(a.skip(2) =~= rest);
    assert(send_keys_spec(pane, lit).arguments =~= t.push(plain("-l")) + rest);
    assert(send_keys_spec(pane, hex).arguments =~= t.push(plain("-H")) + rest);
    assert(send_keys_spec(pane, both).arguments =~= t.push(plain("-l")).push(plain("-H")) + rest);
}

/// The capture arguments after the target and the line range.
#[verifier::opaque]
spec fn capture_rest(o: CapturePaneView) -> Seq<(Seq<u8>, bool)> {
    flag_if(o.alternate, "-a")
        + flag_if(o.escape_sequences, "-e")
        + flag_if(o.escape_non_printable, "-C")
        + flag_if(o.join_wrapped, "-J")
        + flag_if(o.preserve_trailing, "-N")
        + flag_if(o.pending, "-P")
        + flag_if(o.trim_trailing, "-T")
        + flag_if(o.quiet, "-q")
        + flag_if(o.mode_screen, "-M")
        + flag_if(o.hyperlinks, "-H")
        + flag_if(o.line_numbers, "-L")
        + flag_if(o.line_flags, "-F")
}

/// The line-range arguments of a capture.
#[verifier::opaque]
spec fn capture_range(o: CapturePaneView) -> Seq<(Seq<u8>, bool)> {
    option_pair("-S", match o.start { Some(l) => Some(capture_line_bytes(l)), None => None })
        + option_pair("-E", match o.end { Some(l) => Some(capture_line_bytes(l)), None => None })
}

proof fn lemma_capture_parts(pane: u64, o: CapturePaneView)
    ensures
        capture_spec(pane, o).arguments == seq![plain("-t"), plain_bytes(pane_bytes(pane))] + capture_range(o) + capture_rest(o),
{
    reveal(capture_rest);
    reveal(capture_range);
    let t = seq![plain("-t"), plain_bytes(pane_bytes(pane))];
    let s0 = option_pair("-S", match o.start { Some(l) => Some(capture_line_bytes(l)), None => None });
    let e0 = option_pair("-E", match o.end { Some(l) => Some(capture_line_bytes(l)), None => None });
    let h = t + s0 + e0;
    let f0 = flag_if(o.alternate, "-a");
    let f1 = flag_if(o.escape_sequences, "-e");
    let f2 = flag_if(o.escape_non_printable, "-C");
    let f3 = flag_if(o.join_wrapped, "-J");
    let f4 = flag_if(o.preserve_trailing, "-N");
    let f5 = flag_if(o.pending, "-P");
    let f6 = flag_if(o.trim_trailing, "-T");
    let f7 = flag_if(o.quiet, "-q");
    let f8 = flag_if(o.mode_screen, "-M");
    let f9 = flag_if(o.hyperlinks, "-H");
    let f10 = flag_if(o.line_numbers, "-L");
    let f11 = flag_if(o.line_flags, "-F");
    let first = f0 + f1 + f2 + f3 + f4 + f5;
    let second = f6 + f7 + f8 + f9 + f10 + f11;
    lemma_regroup(h, f0, f1, f2, f3, f4, f5);
    lemma_regroup(h + f0 + f1 + f2 + f3 + f4 + f5, f6, f7, f8, f9, f10, f11);
    lemma_regroup(first, f6, f7, f8, f9, f10, f11);
    vstd::seq_lib::lemma_concat_associative(h, first, second);
    vstd::seq_lib::lemma_concat_associative(t, s0, e0);
}

/// The line range of a capture: the command targets the pane first; a start
/// line adds exactly `-S` and that line's text right after the target, an end
/// line adds exactly `-E` and its text after the start, and the rest of the
/// command stays as it was.
#[verifier::spinoff_prover]
#[verifier::rlimit(30)]
pub proof fn law_capture_range(pane: u64, o: CapturePaneView, start: CaptureLine, end: CaptureLine)
    requires
        o.start is None,
        o.end is None,
    ensures
        capture_spec(pane, o).arguments.take(2) == seq![plain("-t"), plain_bytes(pane_bytes(pane))],
        capture_spec(pane, CapturePaneView { start: Some(start), ..o }).arguments
            == seq![plain("-t"), plain_bytes(pane_bytes(pane)), plain("-S"), plain_bytes(capture_line_bytes(start))]
                + capture_spec(pane, o).arguments.skip(2),
        capture_spec(pane, CapturePaneView { end: Some(end), ..o }).arguments
            == seq![plain("-t"), plain_bytes(pane_bytes(pane)), plain("-E"), plain_bytes(capture_line_bytes(end))]
                + capture_spec(pane, o).arguments.skip(2),
        capture_spec(pane, CapturePaneView { start: Some(start), end: Some(end), ..o }).arguments
            == seq![plain("-t"), plain_bytes(pane_bytes(pane)), plain("-S"), plain_bytes(capture_line_bytes(start)),
                plain("-E"), plain_bytes(capture_line_bytes(end))] + capture_spec(pane, o).arguments.skip(2),
{
    let t = seq![plain("-t"), plain_bytes(pane_bytes(pane))];
    let s1 = CapturePaneView { start: Some(start), ..o };
    let e1 = CapturePaneView { end: Some(end), ..o };
    let both = CapturePaneView { start: Some(start), end: Some(end), ..o };
    lemma_capture_parts(pane, o);
    lemma_capture_parts(pane, s1);
    lemma_capture_parts(pane, e1);
    lemma_capture_parts(pane, both);
    let rest = capture_rest(o);
    assert(capture_rest(s1) == rest && capture_rest(e1) == rest && capture_rest(both) == rest) by {
        reveal(capture_rest);
    }
    let sp = seq![plain("-S"), plain_bytes(capture_line_bytes(start))];
    let ep = seq![plain("-E"), plain_bytes(capture_line_bytes(end))];
    let none = Seq::<(Seq<u8>, bool)>::empty();
    assert(capture_range(o) == none && capture_range(s1) == sp && capture_range(e1) == ep && capture_range(both) == sp + ep) by {
        reveal(capture_range);
        assert(capture_range(o) =~= none);
        assert(capture_range(s1) =~= sp);
        assert(capture_range(e1) =~= ep);
    }
    let a = capture_spec(pane, o).arguments;
    assert(a =~= t + rest);
    assert(a.take(2) =~= t);
    assert(a.skip(2) =~= rest);
    assert(capture_spec(pane, s1).arguments =~= t + sp + rest);
    assert(capture_spec(pane, e1).arguments =~= t + ep + rest);
    assert(capture_spec(pane, both).arguments =~= t + (sp + ep) + rest);
    assert(sp + ep =~= seq![plain("-S"), plain_bytes(capture_line_bytes(start)), plain("-E"), plain_bytes(capture_line_bytes(end))]);
}

/// The argument groups of a send-keys command, in order: the target, one
/// group per mode flag, the client, the repeat count, then the keys or the
/// copy-mode command.
#[verifier::opaque]
spec fn send_keys_groups(pane: u64, o: SendKeysView) -> Seq<Seq<(Seq<u8>, bool)>> {
    seq![
        seq![plain("-t"), plain_bytes(pane_bytes(pane))],
        flag_if(o.literal, "-l"),
        flag_if(o.hexadecimal, "-H"),
        flag_if(o.reset, "-R"),
        flag_if(o.expand_formats, "-F"),
        flag_if(o.key_name, "-K"),
        option_pair("-c", o.target_client),
        option_pair("-N", number_opt(widen(o.repeat))),
        match o.copy_mode_command {
            Some(c) => seq![plain("-X"), (c, o.sensitive)],
            None => flag_if(o.suppress_history, " ") + key_args(o.keys, o.sensitive),
        },
    ]
}

proof fn lemma_send_keys_groups(pane: u64, o: SendKeysView)
    ensures
        send_keys_spec(pane, o).arguments == concat_groups(send_keys_groups(pane, o)),
{
    reveal(send_keys_groups);
    let g = send_keys_groups(pane, o);
    let e = Seq::<Seq<(Seq<u8>, bool)>>::empty();
    assert(concat_groups(e) == Seq::<(Seq<u8>, bool)>::empty());
    lemma_concat_groups_push(e, g[0]);
    lemma_concat_groups_push(e.push(g[0]), g[1]);
    lemma_concat_groups_push(e.push(g[0]).push(g[1]), g[2]);
    lemma_concat_groups_push(e.push(g[0]).push(g[1]).push(g[2]), g[3]);
    lemma_concat_groups_push(e.push(g[0]).push(g[1]).push(g[2]).push(g[3]), g[4]);
    lemma_concat_groups_push(e.push(g[0]).push(g[1]).push(g[2]).push(g[3]).push(g[4]), g[5]);
    lemma_concat_groups_push(e.push(g[0]).push(g[1]).push(g[2]).push(g[3]).push(g[4]).push(g[5]), g[6]);
    lemma_concat_groups_push(e.push(g[0]).push(g[1]).push(g[2]).push(g[3]).push(g[4]).push(g[5]).push(g[6]), g[7]);
    lemma_concat_groups_push(e.push(g[0]).push(g[1]).push(g[2]).push(g[3]).push(g[4]).push(g[5]).push(g[6]).push(g[7]), g[8]);
    assert(g =~= e.push(g[0]).push(g[1]).push(g[2]).push(g[3]).push(g[4]).push(g[5]).push(g[6]).push(g[7]).push(g[8]));
    assert(Seq::<(Seq<u8>, bool)>::empty() + g[0] =~= g[0]);
}

proof fn lemma_send_keys_fill(pane: u64, off: SendKeysView, on: SendKeysView, i: int, added: Seq<(Seq<u8>, bool)>)
    requires
        0 <= i < send_keys_groups(pane, off).len(),
        send_keys_groups(pane, off)[i].len() == 0,
        send_keys_groups(pane, on) == send_keys_groups(pane, off).update(i, added),
    ensures
        inserts(send_keys_spec(pane, off).arguments, send_keys_spec(pane, on).arguments, added),
{
    lemma_send_keys_groups(pane, off);
    lemma_send_keys_groups(pane, on);
    lemma_fill_group(send_keys_groups(pane, off), i, added);
}

/// The input modes of send-keys each contribute exactly their own flag:
/// switching on literal mode puts in `-l`, hexadecimal mode `-H`, and the
/// rest of the command stays as it was.
#[verifier::spinoff_prover]
pub proof fn law_send_keys_input_modes(pane: u64, o: SendKeysView)
    ensures
        !o.literal ==> inserts(send_keys_spec(pane, o).arguments,
            send_keys_spec(pane, SendKeysView { literal: true, ..o }).arguments, seq![plain("-l")]),
        !o.hexadecimal ==> inserts(send_keys_spec(pane, o).arguments,
            send_keys_spec(pane, SendKeysView { hexadecimal: true, ..o }).arguments, seq![plain("-H")]),
{
    if !o.literal {
        let on = SendKeysView { literal: true, ..o };
        assert(send_keys_groups(pane, on) =~= send_keys_groups(pane, o).update(1, seq![plain("-l")]) && send_keys_groups(pane, o)[1].len() == 0 && send_keys_groups(pane, o).len() == 9) by {
            reveal(send_keys_groups);
        }
        lemma_send_keys_fill(pane, o, on, 1, seq![plain("-l")]);
    }
    if !o.hexadecimal {
        let on = SendKeysView { hexadecimal: true, ..o };
        assert(send_keys_groups(pane, on) =~= send_keys_groups(pane, o).update(2, seq![plain("-H")]) && send_keys_groups(pane, o)[2].len() == 0 && send_keys_groups(pane, o).len() == 9) by {
            reveal(send_keys_groups);
        }
        lemma_send_keys_fill(pane, o, on, 2, seq![plain("-H")]);
    }
}

/// Switching on reset mode puts in exactly `-R`, the rest of the send-keys command
/// staying as it was.
#[verifier::spinoff_prover]
pub proof fn law_send_keys_reset_flag(pane: u64, o: SendKeysView)
    requires
        !o.reset,
    ensures
        inserts(send_keys_spec(pane, o).arguments, send_keys_spec(pane, SendKeysView { reset: true, ..o }).arguments, seq![plain("-R")]),
{
    let on = SendKeysView { reset: true, ..o };
    assert(send_keys_groups(pane, on) =~= send_keys_groups(pane, o).update(3, seq![plain("-R")])
        && send_keys_groups(pane, o)[3].len() == 0 && send_keys_groups(pane, o).len() == 9) by {
        reveal(send_keys_groups);
    }
    lemma_send_keys_fill(pane, o, on, 3, seq![plain("-R")]);
}

/// Switching on format expansion puts in exactly `-F`, the rest of the send-keys command
/// staying as it was.
#[verifier::spinoff_prover]
pub proof fn law_send_keys_expand_formats_flag(pane: u64, o: SendKeysView)
    requires
        !o.expand_formats,
    ensures
        inserts(send_keys_spec(pane, o).arguments, send_keys_spec(pane, SendKeysView { expand_formats: true, ..o }).arguments, seq![plain("-F")]),
{
    let on = SendKeysView { expand_formats: true, ..o };
    assert(send_keys_groups(pane, on) =~= send_keys_groups(pane, o).update(4, seq![plain("-F")])
        && send_keys_groups(pane, o)[4].len() == 0 && send_keys_groups(pane, o).len() == 9) by {
        reveal(send_keys_groups);
    }
    lemma_send_keys_fill(pane, o, on, 4, seq![plain("-F")]);
}

/// Switching on sending key names puts in exactly `-K`, the rest of the send-keys command
/// staying as it was.
#[verifier::spinoff_prover]
pub proof fn law_send_keys_key_name_flag(pane: u64, o: SendKeysView)
    requires
        !o.key_name,
    ensures
        inserts(send_keys_spec(pane, o).arguments, send_keys_spec(pane, SendKeysView { key_name: true, ..o }).arguments, seq![plain("-K")]),
{
    let on = SendKeysView { key_name: true, ..o };
    assert(send_keys_groups(pane, on) =~= send_keys_groups(pane, o).update(5, seq![plain("-K")])
        && send_keys_groups(pane, o)[5].len() == 0 && send_keys_groups(pane, o).len() == 9) by {
        reveal(send_keys_groups);
    }
    lemma_send_keys_fill(pane, o, on, 5, seq![plain("-K")]);
}

/// A target client puts in exactly `-c` and the client's name, and a repeat
/// count exactly `-N` and the count, the rest of the send-keys command
/// staying as it was.
#[verifier::spinoff_prover]
pub proof fn law_send_keys_client_and_count(pane: u64, o: SendKeysView, client: Seq<u8>, count: u32)
    ensures
        o.target_client is None ==> inserts(send_keys_spec(pane, o).arguments,
            send_keys_spec(pane, SendKeysView { target_client: Some(client), ..o }).arguments,
            seq![plain("-c"), plain_bytes(client)]),
        o.repeat is None ==> inserts(send_keys_spec(pane, o).arguments,
            send_keys_spec(pane, SendKeysView { repeat: Some(count), ..o }).arguments,
            seq![plain("-N"), plain_bytes(number_bytes(count as nat))]),
{
    if o.target_client is None {
        let on = SendKeysView { target_client: Some(client), ..o };
        assert(send_keys_groups(pane, on) =~= send_keys_groups(pane, o).update(6, seq![plain("-c"), plain_bytes(client)]) && send_keys_groups(pane, o)[6].len() == 0 && send_keys_groups(pane, o).len() == 9) by {
            reveal(send_keys_groups);
        }
        lemma_send_keys_fill(pane, o, on, 6, seq![plain("-c"), plain_bytes(client)]);
    }
    if o.repeat is None {
        let on = SendKeysView { repeat: Some(count), ..o };
        assert(send_keys_groups(pane, on) =~= send_keys_groups(pane, o).update(7, seq![plain("-N"), plain_bytes(number_bytes(count as nat))]) && send_keys_groups(pane, o)[7].len() == 0 && send_keys_groups(pane, o).len() == 9) by {
            reveal(send_keys_groups);
        }
        lemma_send_keys_fill(pane, o, on, 7, seq![plain("-N"), plain_bytes(number_bytes(count as nat))]);
    }
}

} // verus!
