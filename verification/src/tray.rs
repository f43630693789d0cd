//! The tray controller: menu identifiers, tray actions, and what each
//! action does to the registry and to the outside world.
//!
//! The tray menu exposes three items with the fixed identifiers `show`,
//! `hide` and `quit`. An identifier is decoded once at the boundary into
//! a closed `MenuAction`; an unrecognized identifier is ignored. `Show`
//! and `Hide` fan out to every non-primary tracked window and notify the
//! primary control window, if present, so it can coordinate its own
//! presentation; `Quit` commands process termination with no further
//! state change.

use vstd::prelude::*;

use crate::registry::apply_vis;
use crate::registry::contains_label;
use crate::registry::is_primary;
use crate::registry::labels_unique;
use crate::registry::lemma_apply_vis_keeps_labels;
use crate::registry::lemma_vis_of_apply_vis;
use crate::registry::non_primary_labels;
use crate::registry::primary_label;
use crate::registry::views_of;
use crate::registry::vis_of;
use crate::registry::Registry;
use crate::registry::Visibility;
use crate::registry::WinState;

verus! {

/// A decoded tray-menu action.
#[derive(Clone, Copy, Debug, PartialEq, Eq, Structural)]
pub enum MenuAction {
    Show,
    Hide,
    Quit,
}

/// A lifecycle notification for the primary control window.
#[derive(Clone, Copy, Debug, PartialEq, Eq, Structural)]
pub enum Notification {
    SurfaceShown,
    SurfaceHidden,
}

/// The abstract outward effect of one tray action: which windows to
/// show, which to hide, whether and how to notify the primary window,
/// and whether to terminate the process.
#[verifier::ext_equal]
pub struct TrayEffects {
    pub show: Seq<Seq<char>>,
    pub hide: Seq<Seq<char>>,
    pub notify: Option<Notification>,
    pub quit: bool,
}

/// The identifier-to-action decoding: `show`, `hide` and `quit` decode
/// to their actions, anything else to `None`.
pub open spec fn parse_spec(id: Seq<char>) -> Option<MenuAction> {
    if id == "show"@ {
        Some(MenuAction::Show)
    } else if id == "hide"@ {
        Some(MenuAction::Hide)
    } else if id == "quit"@ {
        Some(MenuAction::Quit)
    } else {
        None
    }
}

/// The registry transition for one tray action: `Show` and `Hide` set
/// every non-primary window's visibility, `Quit` changes nothing.
pub open spec fn action_step(m: Seq<WinState>, a: MenuAction) -> Seq<WinState> {
    match a {
        MenuAction::Show => apply_vis(m, Visibility::Visible),
        MenuAction::Hide => apply_vis(m, Visibility::Hidden),
        MenuAction::Quit => m,
    }
}

/// The effects of doing nothing.
pub open spec fn no_effects() -> TrayEffects {
    TrayEffects { show: Seq::empty(), hide: Seq::empty(), notify: None, quit: false }
}

/// The outward effects of one tray action on a given registry state.
pub open spec fn action_effects(m: Seq<WinState>, a: MenuAction) -> TrayEffects {
    match a {
        MenuAction::Show => TrayEffects {
            show: non_primary_labels(m),
            hide: Seq::empty(),
            notify: if contains_label(m, primary_label()) {
                Some(Notification::SurfaceShown)
            } else {
                None
            },
            quit: false,
        },
        MenuAction::Hide => TrayEffects {
            show: Seq::empty(),
            hide: non_primary_labels(m),
            notify: if contains_label(m, primary_label()) {
                Some(Notification::SurfaceHidden)
            } else {
                None
            },
            quit: false,
        },
        MenuAction::Quit => TrayEffects { show: Seq::empty(), hide: Seq::empty(), notify: None, quit: true },
    }
}

/// The concrete outward effect of one tray action, for the host layer
/// to perform: labels to show and hide in registry order, an optional
/// notification to the primary window, and the termination command.
pub struct Effects {
    pub show_labels: Vec<String>,
    pub hide_labels: Vec<String>,
    pub notify: Option<Notification>,
    pub quit: bool,
}

impl View for Effects {
    type V = TrayEffects;

    open spec fn view(&self) -> TrayEffects {
        TrayEffects {
            show: views_of(self.show_labels@),
            hide: views_of(self.hide_labels@),
            notify: self.notify,
            quit: self.quit,
        }
    }
}

/// Decode one menu identifier, exactly as the tray handler does.
pub fn parse_menu_id(id: &str) -> (r: Option<MenuAction>)
    ensures
        r == parse_spec(id@),
{
    let id_s: String = id.to_owned();
    let show_id: String = "show".to_owned();
    let hide_id: String = "hide".to_owned();
    let quit_id: String = "quit".to_owned();
    if id_s == show_id {
        Some(MenuAction::Show)
    } else if id_s == hide_id {
        Some(MenuAction::Hide)
    } else if id_s == quit_id {
        Some(MenuAction::Quit)
    } else {
        None
    }
}

/// Perform one decoded tray action on the registry and report what the
/// host layer must do: the registry is stepped, the affected labels are
/// listed in registry order, and the primary window, if tracked, gets
/// the matching notification. `Quit` touches nothing and commands
/// termination.
pub fn apply_action(reg: &mut Registry, action: MenuAction) -> (e: Effects)
    requires
        old(reg).wf(),
    ensures
        final(reg).wf(),
        final(reg)@ == action_step(old(reg)@, action),
        e@ == action_effects(old(reg)@, action),
{
    match action {
        MenuAction::Show => {
            let notify = if reg.has_primary() {
                Some(Notification::SurfaceShown)
            } else {
                None
            };
            let shown = reg.set_visibility_all(Visibility::Visible);
            let e = Effects { show_labels: shown, hide_labels: Vec::new(), notify, quit: false };
            proof {
                assert(views_of(e.hide_labels@) =~= Seq::<Seq<char>>::empty());
                assert(e@ =~= action_effects(old(reg)@, action));
            }
            e
        },
        MenuAction::Hide => {
            let notify = if reg.has_primary() {
                Some(Notification::SurfaceHidden)
            } else {
                None
            };
            let hidden = reg.set_visibility_all(Visibility::Hidden);
            let e = Effects { show_labels: Vec::new(), hide_labels: hidden, notify, quit: false };
            proof {
                assert(views_of(e.show_labels@) =~= Seq::<Seq<char>>::empty());
                assert(e@ =~= action_effects(old(reg)@, action));
            }
            e
        },
        MenuAction::Quit => {
            let e = Effects {
                show_labels: Vec::new(),
                hide_labels: Vec::new(),
                notify: None,
                quit: true,
            };
            proof {
                assert(views_of(e.show_labels@) =~= Seq::<Seq<char>>::empty());
                assert(views_of(e.hide_labels@) =~= Seq::<Seq<char>>::empty());
                assert(e@ =~= action_effects(old(reg)@, action));
            }
            e
        },
    }
}

/// Handle one raw menu event: decode the identifier and perform the
/// action; an unrecognized identifier changes nothing and asks for
/// nothing.
pub fn handle_menu_event(reg: &mut Registry, id: &str) -> (e: Effects)
    requires
        old(reg).wf(),
    ensures
        final(reg).wf(),
        match parse_spec(id@) {
            Some(action) => final(reg)@ == action_step(old(reg)@, action) && e@ == action_effects(
                old(reg)@,
                action,
            ),
            None => final(reg)@ == old(reg)@ && e@ == no_effects(),
        },
{
    match parse_menu_id(id) {
        Some(action) => apply_action(reg, action),
        None => {
            let e = Effects {
                show_labels: Vec::new(),
                hide_labels: Vec::new(),
                notify: None,
                quit: false,
            };
            proof {
                assert(views_of(e.show_labels@) =~= Seq::<Seq<char>>::empty());
                assert(views_of(e.hide_labels@) =~= Seq::<Seq<char>>::empty());
                assert(e@ =~= no_effects());
            }
            e
        },
    }
}

/// Every tracked window other than the primary control window is in
/// state `Hidden`.
pub open spec fn all_non_primary_hidden(m: Seq<WinState>) -> bool {
    forall|i: int|
        0 <= i < m.len() && !is_primary(#[trigger] m[i].label) ==> m[i].vis == Visibility::Hidden
}

/// A window's visibility survives every tray action except `Show`, and
/// in particular a `Hidden` window stays `Hidden`: only a `Show` action
/// can surface it.
pub proof fn lemma_hidden_until_show(m: Seq<WinState>, label: Seq<char>, a: MenuAction)
    requires
        vis_of(m, label) == Some(Visibility::Hidden),
        a != MenuAction::Show,
    ensures
        vis_of(action_step(m, a), label) == Some(Visibility::Hidden),
{
    match a {
        MenuAction::Hide => {
            lemma_vis_of_apply_vis(m, Visibility::Hidden, label);
        },
        _ => {},
    }
}

/// A `Show` action followed immediately by a `Hide` action leaves every
/// non-primary tracked window `Hidden`, and the primary window, if
/// present, is told exactly once that the surface was shown and then
/// exactly once that it was hidden, in that order.
pub proof fn lemma_show_then_hide(m: Seq<WinState>)
    ensures
        all_non_primary_hidden(action_step(action_step(m, MenuAction::Show), MenuAction::Hide)),
        action_effects(m, MenuAction::Show).notify == (if contains_label(m, primary_label()) {
            Some(Notification::SurfaceShown)
        } else {
            None::<Notification>
        }),
        action_effects(action_step(m, MenuAction::Show), MenuAction::Hide).notify == (if contains_label(
            m,
            primary_label(),
        ) {
            Some(Notification::SurfaceHidden)
        } else {
            None::<Notification>
        }),
{
    let m1 = action_step(m, MenuAction::Show);
    lemma_apply_vis_keeps_labels(m, Visibility::Visible);
    assert(contains_label(m1, primary_label()) == contains_label(m, primary_label()));
}

/// `Quit` commands process termination in every registry state, no
/// other action does, and `Quit` itself changes no window state.
pub proof fn lemma_quit_terminates(m: Seq<WinState>, a: MenuAction)
    ensures
        action_effects(m, a).quit == (a == MenuAction::Quit),
        action_step(m, MenuAction::Quit) == m,
{
}

/// Every tray action preserves the registry's label structure: the same
/// labels, in the same order, with uniqueness kept.
pub proof fn lemma_action_keeps_labels(m: Seq<WinState>, a: MenuAction)
    ensures
        action_step(m, a).len() == m.len(),
        forall|i: int| 0 <= i < m.len() ==> #[trigger] action_step(m, a)[i].label == m[i].label,
        forall|label: Seq<char>|
            contains_label(action_step(m, a), label) == #[trigger] contains_label(m, label),
        labels_unique(m) ==> labels_unique(action_step(m, a)),
{
    match a {
        MenuAction::Show => {
            lemma_apply_vis_keeps_labels(m, Visibility::Visible);
        },
        MenuAction::Hide => {
            lemma_apply_vis_keeps_labels(m, Visibility::Hidden);
        },
        MenuAction::Quit => {},
    }
}

} // verus!
