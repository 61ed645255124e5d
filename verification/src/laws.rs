//! Laws of the window lifecycle controller, proved over the transition
//! function of the dispatcher.

use vstd::prelude::*;
use crate::command::CommandId;
use crate::shell::{
    create_state, exactly_one_named, first_named, lemma_first_named, named_at,
    show_or_create_state, shown_window, toggled_window, unique_named, ContextView, EffectView,
    WindowSpecView,
};
use crate::dispatch::{preferences_params_view, step_effect, step_state};

verus! {

/// A show-or-create request on a registry with at most one window of `name`
/// leaves exactly one window of `name`, visible and focused, and touches no
/// other window's name.
pub proof fn lemma_show_or_create_one(s: ContextView, name: Seq<char>, p: WindowSpecView)
    requires
        unique_named(s.windows, name),
    ensures
        ({
            let s1 = show_or_create_state(s, name, p);
            &&& exactly_one_named(s1.windows, name)
            &&& s1.windows[first_named(s1.windows, name)].focused
            &&& s1.windows[first_named(s1.windows, name)].visible
            &&& s1.terminated == s.terminated
        }),
{
    lemma_first_named(s.windows, name);
    let f = first_named(s.windows, name);
    let s1 = show_or_create_state(s, name, p);
    if f < s.windows.len() {
        assert(forall|j: int|
            0 <= j < s1.windows.len() ==> s1.windows[j].name == s.windows[j].name);
        assert(named_at(s1.windows, name, f));
        assert forall|i: int, j: int|
            named_at(s1.windows, name, i) && named_at(s1.windows, name, j) implies i == j by {
            assert(named_at(s.windows, name, i));
            assert(named_at(s.windows, name, j));
        }
        lemma_first_named(s1.windows, name);
        let f1 = first_named(s1.windows, name);
        if f1 < f {
            assert(s.windows[f1].name != name);
            assert(false);
        }
        if f1 > f {
            assert(s1.windows[f].name != name);
            assert(false);
        }
        assert(s1.windows[f] == shown_window(s.windows[f]));
    } else {
        let n = s.windows.len() as int;
        assert(forall|j: int| 0 <= j < n ==> s1.windows[j] == s.windows[j]);
        assert(named_at(s1.windows, name, n));
        assert forall|i: int, j: int|
            named_at(s1.windows, name, i) && named_at(s1.windows, name, j) implies i == j by {
            if i < n {
                assert(s.windows[i].name != name);
            }
            if j < n {
                assert(s.windows[j].name != name);
            }
        }
        lemma_first_named(s1.windows, name);
        let f1 = first_named(s1.windows, name);
        if f1 < n {
            assert(s.windows[f1].name != name);
            assert(false);
        }
    }
}

/// Dispatching the preferences command twice in succession, with no close in
/// between, leaves exactly one live preferences window, focused after each of
/// the two calls.
pub proof fn lemma_preferences_reuse(s: ContextView, src1: int, src2: int)
    requires
        unique_named(s.windows, "preferences"@),
        !s.terminated,
    ensures
        ({
            let s1 = step_state(s, CommandId::Preferences, src1);
            let s2 = step_state(s1, CommandId::Preferences, src2);
            &&& exactly_one_named(s1.windows, "preferences"@)
            &&& s1.windows[first_named(s1.windows, "preferences"@)].focused
            &&& exactly_one_named(s2.windows, "preferences"@)
            &&& s2.windows[first_named(s2.windows, "preferences"@)].focused
        }),
{
    proof_preferences_not_about();
    lemma_show_or_create_one(s, "preferences"@, preferences_params_view());
    let s1 = step_state(s, CommandId::Preferences, src1);
    lemma_show_or_create_one(s1, "preferences"@, preferences_params_view());
}

/// The names "preferences" and "about" differ, so the preferences window
/// falls under the reuse policy.
proof fn proof_preferences_not_about()
    ensures
        "preferences"@ != "about"@,
{
    reveal_strlit("preferences");
    reveal_strlit("about");
    assert("preferences"@.len() == 11);
    assert("about"@.len() == 5);
}

/// Toggling fullscreen twice from the same window returns the context to its
/// original state: the pair of toggles is the identity.
pub proof fn lemma_toggle_fullscreen_pair(s: ContextView, src: int)
    requires
        !s.terminated,
        0 <= src < s.windows.len(),
    ensures
        step_state(step_state(s, CommandId::Fullscreen, src), CommandId::Fullscreen, src) == s,
{
    let s1 = step_state(s, CommandId::Fullscreen, src);
    let s2 = step_state(s1, CommandId::Fullscreen, src);
    assert(toggled_window(toggled_window(s.windows[src])) =~= s.windows[src]);
    assert(s2.windows =~= s.windows);
    assert(s2 =~= s);
}

/// An unrecognized command identifier changes nothing and requests nothing:
/// the explicit forward-compatible default of the dispatch table.
pub proof fn lemma_unknown_no_op(s: ContextView, src: int)
    ensures
        step_state(s, CommandId::Unknown, src) == s,
        step_effect(s, CommandId::Unknown, src) == EffectView::NoOp,
{
}

/// The quit command terminates with exit status zero, and after it no
/// further command changes the context or requests an action.
pub proof fn lemma_quit_terminates(s: ContextView, src: int, c: CommandId, src2: int)
    requires
        !s.terminated,
    ensures
        ({
            let s1 = step_state(s, CommandId::Quit, src);
            &&& s1.terminated
            &&& s1.windows == s.windows
            &&& step_effect(s, CommandId::Quit, src) == (EffectView::Terminate { code: 0 })
            &&& step_state(s1, c, src2) == s1
            &&& step_effect(s1, c, src2) == EffectView::NoOp
        }),
{
}

/// Creating the main window attaches the shared menu to it; creating the
/// preferences window leaves it detached.
pub proof fn lemma_menu_attachment(s: ContextView, p: WindowSpecView, q: WindowSpecView)
    ensures
        create_state(s, "main"@, p).windows.last().menu_attached,
        !create_state(s, "preferences"@, q).windows.last().menu_attached,
{
    reveal_strlit("main");
    reveal_strlit("preferences");
    assert("main"@.len() == 4);
    assert("preferences"@.len() == 11);
}

/// Every dispatch preserves the registry invariant that at most one live
/// window is the preferences window.
pub proof fn lemma_step_preserves_preferences_unique(s: ContextView, c: CommandId, src: int)
    requires
        unique_named(s.windows, "preferences"@),
        c is Fullscreen ==> 0 <= src < s.windows.len(),
    ensures
        unique_named(step_state(s, c, src).windows, "preferences"@),
{
    let s1 = step_state(s, c, src);
    if !s.terminated {
        match c {
            CommandId::Preferences => {
                proof_preferences_not_about();
                lemma_show_or_create_one(s, "preferences"@, preferences_params_view());
            },
            CommandId::About => {
                proof_preferences_not_about();
                let n = s.windows.len() as int;
                assert(forall|j: int| 0 <= j < n ==> s1.windows[j] == s.windows[j]);
                assert(s1.windows[n].name == "about"@);
                assert forall|i: int, j: int|
                    named_at(s1.windows, "preferences"@, i) && named_at(
                        s1.windows,
                        "preferences"@,
                        j,
                    ) implies i == j by {
                    assert(i < n && j < n);
                    assert(named_at(s.windows, "preferences"@, i));
                    assert(named_at(s.windows, "preferences"@, j));
                }
            },
            CommandId::Fullscreen => {
                assert(forall|j: int|
                    0 <= j < s1.windows.len() ==> s1.windows[j].name == s.windows[j].name);
                assert forall|i: int, j: int|
                    named_at(s1.windows, "preferences"@, i) && named_at(
                        s1.windows,
                        "preferences"@,
                        j,
                    ) implies i == j by {
                    assert(named_at(s.windows, "preferences"@, i));
                    assert(named_at(s.windows, "preferences"@, j));
                }
            },
            _ => {
            },
        }
    }
}

} // verus!
