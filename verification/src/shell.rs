//! Window registry, lifecycle operations and menu attachment policy.
//!
//! `AppContext` is the application context owned by the event loop driver:
//! the registry of live windows, the termination flag, and the build-mode
//! flag that gates developer tooling. Every lifecycle operation mutates this
//! context and returns an [`Effect`], the one platform action the unverified
//! front end must perform against the host window system.

use vstd::prelude::*;
use crate::command::EditCommand;
use crate::str_eq;

verus! {

/// Declarative window creation parameters.
#[derive(Debug)]
pub struct WindowSpec {
    pub title: String,
    pub width: u32,
    pub height: u32,
    pub resizable: bool,
    pub centered: bool,
    /// Navigable resource identifier handed unchanged to the rendering
    /// subsystem; empty when the window has no reloadable content.
    pub content: String,
}

/// Mathematical model of a `WindowSpec`.
#[verifier::ext_equal]
pub struct WindowSpecView {
    pub title: Seq<char>,
    pub width: u32,
    pub height: u32,
    pub resizable: bool,
    pub centered: bool,
    pub content: Seq<char>,
}

impl View for WindowSpec {
    type V = WindowSpecView;

    open spec fn view(&self) -> WindowSpecView {
        WindowSpecView {
            title: self.title@,
            width: self.width,
            height: self.height,
            resizable: self.resizable,
            centered: self.centered,
            content: self.content@,
        }
    }
}

/// One live window as the controller sees it.
#[derive(Debug)]
pub struct WindowState {
    pub name: String,
    pub params: WindowSpec,
    pub fullscreen: bool,
    pub visible: bool,
    pub focused: bool,
    /// Whether the process-wide shared native menu is attached to this window.
    pub menu_attached: bool,
}

/// Mathematical model of a `WindowState`.
#[verifier::ext_equal]
pub struct WindowView {
    pub name: Seq<char>,
    pub params: WindowSpecView,
    pub fullscreen: bool,
    pub visible: bool,
    pub focused: bool,
    pub menu_attached: bool,
}

impl View for WindowState {
    type V = WindowView;

    open spec fn view(&self) -> WindowView {
        WindowView {
            name: self.name@,
            params: self.params@,
            fullscreen: self.fullscreen,
            visible: self.visible,
            focused: self.focused,
            menu_attached: self.menu_attached,
        }
    }
}

/// The application context: registry of live windows and process-wide flags.
#[derive(Debug)]
pub struct AppContext {
    pub windows: Vec<WindowState>,
    pub terminated: bool,
    /// Development build flag; gates the developer-tools command only.
    pub dev_mode: bool,
}

/// Mathematical model of the application context.
#[verifier::ext_equal]
pub struct ContextView {
    pub windows: Seq<WindowView>,
    pub terminated: bool,
    pub dev_mode: bool,
}

impl View for AppContext {
    type V = ContextView;

    open spec fn view(&self) -> ContextView {
        ContextView {
            windows: self.windows@.map_values(|w: WindowState| w@),
            terminated: self.terminated,
            dev_mode: self.dev_mode,
        }
    }
}

/// Per-window reuse semantics, keyed by logical window name.
#[derive(Clone, Copy, PartialEq, Eq, Structural, Debug)]
pub enum ReusePolicy {
    /// An existing window with the name is shown and focused; a window is
    /// created only when none is live.
    ReuseAndFocus,
    /// A fresh window is created on every request, with no reuse check.
    CreateAnew,
}

/// The one platform action the front end performs after a lifecycle decision.
#[derive(Debug)]
pub enum Effect {
    /// Build the window now registered at `index` and attach or detach the
    /// shared menu as its record says.
    CreateWindow { index: usize },
    /// Show the window at `index` and give it input focus.
    ShowFocus { index: usize },
    /// Set the fullscreen state of the window at `index` to `on`.
    SetFullscreen { index: usize, on: bool },
    /// Re-fetch the content of the window at `index`.
    ReloadContent { index: usize },
    /// Forward a text-editing command to the content surface at `index`.
    ForwardEdit { index: usize, cmd: EditCommand },
    /// Open the developer inspection surface for the window at `index`.
    OpenDevtools { index: usize },
    /// Open `url` through the host system's default resource opener,
    /// fire-and-forget.
    OpenExternal { url: String },
    /// End the process with the given exit status.
    Terminate { code: i32 },
    /// Nothing to perform.
    NoOp,
}

/// Mathematical model of an `Effect`.
#[verifier::ext_equal]
pub enum EffectView {
    CreateWindow { index: int },
    ShowFocus { index: int },
    SetFullscreen { index: int, on: bool },
    ReloadContent { index: int },
    ForwardEdit { index: int, cmd: EditCommand },
    OpenDevtools { index: int },
    OpenExternal { url: Seq<char> },
    Terminate { code: int },
    NoOp,
}

impl View for Effect {
    type V = EffectView;

    open spec fn view(&self) -> EffectView {
        match self {
            Effect::CreateWindow { index } => EffectView::CreateWindow { index: *index as int },
            Effect::ShowFocus { index } => EffectView::ShowFocus { index: *index as int },
            Effect::SetFullscreen { index, on } => EffectView::SetFullscreen {
                index: *index as int,
                on: *on,
            },
            Effect::ReloadContent { index } => EffectView::ReloadContent { index: *index as int },
            Effect::ForwardEdit { index, cmd } => EffectView::ForwardEdit {
                index: *index as int,
                cmd: *cmd,
            },
            Effect::OpenDevtools { index } => EffectView::OpenDevtools { index: *index as int },
            Effect::OpenExternal { url } => EffectView::OpenExternal { url: url@ },
            Effect::Terminate { code } => EffectView::Terminate { code: *code as int },
            Effect::NoOp => EffectView::NoOp,
        }
    }
}

/// The window at index `i` is live and carries `name`.
pub open spec fn named_at(ws: Seq<WindowView>, name: Seq<char>, i: int) -> bool {
    0 <= i < ws.len() && ws[i].name == name
}

/// No two live windows carry `name`.
pub open spec fn unique_named(ws: Seq<WindowView>, name: Seq<char>) -> bool {
    forall|i: int, j: int| named_at(ws, name, i) && named_at(ws, name, j) ==> i == j
}

/// Exactly one live window carries `name`.
pub open spec fn exactly_one_named(ws: Seq<WindowView>, name: Seq<char>) -> bool {
    (exists|i: int| named_at(ws, name, i)) && unique_named(ws, name)
}

/// Index of the first window carrying `name`; the length when none does.
pub open spec fn first_named(ws: Seq<WindowView>, name: Seq<char>) -> int
    decreases ws.len(),
{
    if ws.len() == 0 {
        0
    } else if ws[0].name == name {
        0
    } else {
        1 + first_named(ws.drop_first(), name)
    }
}

/// `first_named` is the least index carrying the name, or the length.
pub proof fn lemma_first_named(ws: Seq<WindowView>, name: Seq<char>)
    ensures
        0 <= first_named(ws, name) <= ws.len(),
        first_named(ws, name) < ws.len() ==> ws[first_named(ws, name)].name == name,
        forall|j: int| 0 <= j < first_named(ws, name) ==> ws[j].name != name,
        first_named(ws, name) == ws.len() ==> forall|j: int|
            0 <= j < ws.len() ==> ws[j].name != name,
    decreases ws.len(),
{
    if ws.len() == 0 {
    } else if ws[0].name == name {
    } else {
        lemma_first_named(ws.drop_first(), name);
        assert(forall|j: int| 0 <= j < ws.drop_first().len() ==> ws.drop_first()[j] == ws[j + 1]);
        assert forall|j: int| 0 <= j < first_named(ws, name) implies ws[j].name != name by {
            if j >= 1 {
                assert(ws.drop_first()[j - 1] == ws[j]);
            }
        }
        if first_named(ws, name) == ws.len() {
            assert forall|j: int| 0 <= j < ws.len() implies ws[j].name != name by {
                if j >= 1 {
                    assert(ws.drop_first()[j - 1] == ws[j]);
                }
            }
        }
    }
}

/// Whether the shared native menu is attached to a window of this name:
/// the declarative per-window-name attachment policy table. Every window
/// gets the platform default (attached) except the designated utility
/// windows listed here.
pub open spec fn menu_attach_of(name: Seq<char>) -> bool {
    if name == "preferences"@ {
        false
    } else {
        true
    }
}

/// Attachment policy table, executable side.
pub fn menu_policy(name: &str) -> (attach: bool)
    ensures
        attach == menu_attach_of(name@),
{
    if str_eq(name, "preferences") {
        false
    } else {
        true
    }
}

/// Reuse semantics of a window of this name: the declarative per-window-name
/// reuse policy table. The about window is recreated on every request; all
/// other names reuse a live window.
pub open spec fn reuse_policy_of(name: Seq<char>) -> ReusePolicy {
    if name == "about"@ {
        ReusePolicy::CreateAnew
    } else {
        ReusePolicy::ReuseAndFocus
    }
}

/// Reuse policy table, executable side.
pub fn reuse_policy(name: &str) -> (p: ReusePolicy)
    ensures
        p == reuse_policy_of(name@),
{
    if str_eq(name, "about") {
        ReusePolicy::CreateAnew
    } else {
        ReusePolicy::ReuseAndFocus
    }
}

/// The record of a window just created: visible, focused, windowed, with the
/// shared menu attached as the attachment policy says.
pub open spec fn new_window(name: Seq<char>, p: WindowSpecView) -> WindowView {
    WindowView {
        name: name,
        params: p,
        fullscreen: false,
        visible: true,
        focused: true,
        menu_attached: menu_attach_of(name),
    }
}

/// A window record after being shown and focused.
pub open spec fn shown_window(w: WindowView) -> WindowView {
    WindowView { visible: true, focused: true, ..w }
}

/// A window record after its fullscreen state is negated.
pub open spec fn toggled_window(w: WindowView) -> WindowView {
    WindowView { fullscreen: !w.fullscreen, ..w }
}

/// The context after a window of `name` is created with parameters `p`.
pub open spec fn create_state(s: ContextView, name: Seq<char>, p: WindowSpecView) -> ContextView {
    ContextView { windows: s.windows.push(new_window(name, p)), ..s }
}

/// The context after the window at `i` is shown and focused.
pub open spec fn show_state(s: ContextView, i: int) -> ContextView {
    ContextView { windows: s.windows.update(i, shown_window(s.windows[i])), ..s }
}

/// The context after a show-or-create request for `name`.
pub open spec fn show_or_create_state(
    s: ContextView,
    name: Seq<char>,
    p: WindowSpecView,
) -> ContextView {
    if first_named(s.windows, name) < s.windows.len() {
        show_state(s, first_named(s.windows, name))
    } else {
        create_state(s, name, p)
    }
}

/// The effect of a show-or-create request for `name`.
pub open spec fn show_or_create_effect(s: ContextView, name: Seq<char>) -> EffectView {
    if first_named(s.windows, name) < s.windows.len() {
        EffectView::ShowFocus { index: first_named(s.windows, name) }
    } else {
        EffectView::CreateWindow { index: s.windows.len() as int }
    }
}

/// The context after an open request for `name`, under its reuse policy.
pub open spec fn open_state(s: ContextView, name: Seq<char>, p: WindowSpecView) -> ContextView {
    match reuse_policy_of(name) {
        ReusePolicy::ReuseAndFocus => show_or_create_state(s, name, p),
        ReusePolicy::CreateAnew => create_state(s, name, p),
    }
}

/// The effect of an open request for `name`, under its reuse policy.
pub open spec fn open_effect(s: ContextView, name: Seq<char>) -> EffectView {
    match reuse_policy_of(name) {
        ReusePolicy::ReuseAndFocus => show_or_create_effect(s, name),
        ReusePolicy::CreateAnew => EffectView::CreateWindow { index: s.windows.len() as int },
    }
}

/// The context after the window at `i` has its fullscreen state negated.
pub open spec fn toggle_state(s: ContextView, i: int) -> ContextView {
    ContextView { windows: s.windows.update(i, toggled_window(s.windows[i])), ..s }
}

impl AppContext {
    /// A fresh context: no live windows, not terminated.
    pub fn new(dev_mode: bool) -> (ctx: AppContext)
        ensures
            ctx@.windows == Seq::<WindowView>::empty(),
            !ctx@.terminated,
            ctx@.dev_mode == dev_mode,
    {
        let ctx = AppContext { windows: Vec::new(), terminated: false, dev_mode };
        proof {
            assert(ctx@.windows =~= Seq::<WindowView>::empty());
        }
        ctx
    }

    /// Registry lookup: the first live window with this logical name.
    pub fn find(&self, name: &str) -> (r: Option<usize>)
        ensures
            r matches Some(i) ==> i as int == first_named(self@.windows, name@) && named_at(
                self@.windows,
                name@,
                i as int,
            ),
            r is None ==> first_named(self@.windows, name@) == self@.windows.len(),
    {
        let n = self.windows.len();
        let mut i: usize = 0;
        while i < n
            invariant
                i <= n,
                n == self@.windows.len(),
                forall|j: int| 0 <= j < i ==> self@.windows[j].name != name@,
            decreases n - i,
        {
            if str_eq(self.windows[i].name.as_str(), name) {
                proof {
                    assert(self@.windows[i as int] == self.windows@[i as int]@);
                    assert(self@.windows[i as int].name == name@);
                    lemma_first_named(self@.windows, name@);
                    let f = first_named(self@.windows, name@);
                    if f < i as int {
                        assert(self@.windows[f].name == name@);
                        assert(false);
                    }
                    if f > i as int {
                        assert(self@.windows[i as int].name != name@);
                        assert(false);
                    }
                }
                return Some(i);
            }
            i += 1;
        }
        proof {
            lemma_first_named(self@.windows, name@);
        }
        None
    }

    /// Registers and reports a new window of `name`, with the shared menu
    /// attached or detached as the attachment policy says.
    pub fn create_window(&mut self, name: &str, params: WindowSpec) -> (idx: usize)
        ensures
            final(self)@ == create_state(old(self)@, name@, params@),
            idx == old(self)@.windows.len(),
            final(self)@.windows[idx as int].menu_attached == menu_attach_of(name@),
    {
        let idx = self.windows.len();
        let attach = menu_policy(name);
        let w = WindowState {
            name: name.to_owned(),
            params,
            fullscreen: false,
            visible: true,
            focused: true,
            menu_attached: attach,
        };
        self.windows.push(w);
        proof {
            assert(self@.windows =~= old(self)@.windows.push(new_window(name@, params@)));
            assert(self@ =~= create_state(old(self)@, name@, params@));
        }
        idx
    }

    /// Creates a fresh window unconditionally: the lifecycle operation for
    /// windows whose policy is `CreateAnew`, such as the about window, which
    /// is recreated on every request.
    pub fn create_singleton(&mut self, name: &str, params: WindowSpec) -> (e: Effect)
        ensures
            final(self)@ == create_state(old(self)@, name@, params@),
            e@ == (EffectView::CreateWindow { index: old(self)@.windows.len() as int }),
    {
        let idx = self.create_window(name, params);
        Effect::CreateWindow { index: idx }
    }

    /// Shows and focuses the live window of `name`, or creates one: the
    /// lifecycle operation for windows whose policy is `ReuseAndFocus`. A
    /// stale name whose window is gone from the registry falls into the
    /// creation branch rather than failing.
    pub fn show_or_create(&mut self, name: &str, params: WindowSpec) -> (e: Effect)
        ensures
            final(self)@ == show_or_create_state(old(self)@, name@, params@),
            e@ == show_or_create_effect(old(self)@, name@),
    {
        match self.find(name) {
            Some(i) => {
                self.windows[i].visible = true;
                self.windows[i].focused = true;
                proof {
                    assert(self@.windows =~= old(self)@.windows.update(
                        i as int,
                        shown_window(old(self)@.windows[i as int]),
                    ));
                    assert(self@ =~= show_state(old(self)@, i as int));
                }
                Effect::ShowFocus { index: i }
            },
            None => {
                let idx = self.create_window(name, params);
                Effect::CreateWindow { index: idx }
            },
        }
    }

    /// Opens a window of `name` under its declared reuse policy.
    pub fn open_window(&mut self, name: &str, params: WindowSpec) -> (e: Effect)
        ensures
            final(self)@ == open_state(old(self)@, name@, params@),
            e@ == open_effect(old(self)@, name@),
    {
        match reuse_policy(name) {
            ReusePolicy::ReuseAndFocus => self.show_or_create(name, params),
            ReusePolicy::CreateAnew => self.create_singleton(name, params),
        }
    }

    /// Negates the recorded fullscreen state of the window at `idx` and asks
    /// the front end to apply it. The platform call may still fail at the OS
    /// boundary; the front end logs such a failure and drops it.
    pub fn toggle_fullscreen(&mut self, idx: usize) -> (e: Effect)
        requires
            idx < old(self)@.windows.len(),
        ensures
            final(self)@ == toggle_state(old(self)@, idx as int),
            e@ == (EffectView::SetFullscreen {
                index: idx as int,
                on: !old(self)@.windows[idx as int].fullscreen,
            }),
    {
        let on = !self.windows[idx].fullscreen;
        self.windows[idx].fullscreen = on;
        proof {
            assert(self@.windows =~= old(self)@.windows.update(
                idx as int,
                toggled_window(old(self)@.windows[idx as int]),
            ));
            assert(self@ =~= toggle_state(old(self)@, idx as int));
        }
        Effect::SetFullscreen { index: idx, on }
    }

    /// Asks the front end to re-fetch the content of the window at `idx`;
    /// a no-op when the window has no reloadable content.
    pub fn reload_content(&self, idx: usize) -> (e: Effect)
        requires
            idx < self@.windows.len(),
        ensures
            self@.windows[idx as int].params.content.len() == 0 ==> e@ == EffectView::NoOp,
            self@.windows[idx as int].params.content.len() > 0 ==> e@ == (EffectView::ReloadContent {
                index: idx as int,
            }),
    {
        if self.windows[idx].params.content.as_str().is_empty() {
            Effect::NoOp
        } else {
            Effect::ReloadContent { index: idx }
        }
    }

    /// Marks the process as ending, abruptly; the returned exit status is
    /// always zero, the only exit code this controller defines.
    pub fn terminate_process(&mut self) -> (code: i32)
        ensures
            final(self)@ == (ContextView { terminated: true, ..old(self)@ }),
            code == 0,
    {
        self.terminated = true;
        proof {
            assert(self@ =~= (ContextView { terminated: true, ..old(self)@ }));
        }
        0
    }

    /// Removes a window from the registry once the host system destroys it,
    /// so that lookups reflect the true live set.
    pub fn window_closed(&mut self, idx: usize)
        requires
            idx < old(self)@.windows.len(),
        ensures
            final(self)@.windows == old(self)@.windows.remove(idx as int),
            final(self)@.terminated == old(self)@.terminated,
            final(self)@.dev_mode == old(self)@.dev_mode,
    {
        self.windows.remove(idx);
        proof {
            assert(self@.windows =~= old(self)@.windows.remove(idx as int));
        }
    }
}

} // verus!
