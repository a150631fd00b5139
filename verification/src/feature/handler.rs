//! Where a key event goes, by the app's mode.
use crate::chords::chord::opt_string_view;
use crate::chords::loaded::LoadedAppChords;
use crate::feature::chorder::{action_views, chorder_step, empty_chorder, ActionView, Chorder, ChorderAction};
use crate::input::key::{key_names, Key};
use crate::input::key_event::KeyEvent;
use crate::mode::AppMode;
use vstd::prelude::*;

verus! {

/// What the app does with a key event.
#[derive(Debug, Clone)]
pub enum AppAction {
    /// Clear the clicker and hide its overlay.
    HideClicker,
    /// What the chorder asks for.
    Chorder(ChorderAction),
}

/// The contents of an [`AppAction`].
pub enum AppActionView {
    HideClicker,
    Chorder(ActionView),
}

impl View for AppAction {
    type V = AppActionView;

    open spec fn view(&self) -> AppActionView {
        match self {
            AppAction::HideClicker => AppActionView::HideClicker,
            AppAction::Chorder(a) => AppActionView::Chorder(a@),
        }
    }
}

pub open spec fn app_action_views(s: Seq<AppAction>) -> Seq<AppActionView> {
    s.map_values(|a: AppAction| a@)
}

pub open spec fn chorder_actions(s: Seq<ActionView>) -> Seq<AppActionView> {
    s.map_values(|a: ActionView| AppActionView::Chorder(a))
}

/// Handles a key event after the mode machine saw it: in chord mode the
/// clicker is put away and the chorder handles the event; in no mode both are
/// put away.
pub fn handle_key_event(
    mode: AppMode,
    chorder: &mut Chorder,
    key_event: &KeyEvent,
    device_keys: Option<&Vec<Key>>,
    loaded_app_chords: &LoadedAppChords,
    frontmost_application_id: Option<String>,
) -> (r: Vec<AppAction>)
    requires
        loaded_app_chords.wf(),
    ensures
        mode == AppMode::Chord ==> {
            let (next, actions) = chorder_step(
                old(chorder).state@,
                key_event@,
                match device_keys {
                    Some(d) => Some(key_names(d@)),
                    None => None,
                },
                loaded_app_chords.global(),
                loaded_app_chords.runtime_views(),
                opt_string_view(frontmost_application_id),
            );
            &&& final(chorder).state@ == next
            &&& app_action_views(r@) == seq![AppActionView::HideClicker] + chorder_actions(actions)
        },
        mode == AppMode::Idle ==> final(chorder).state@ == empty_chorder() && app_action_views(r@)
            == seq![AppActionView::HideClicker, AppActionView::Chorder(ActionView::HideIndicator)],
{
    let mut out: Vec<AppAction> = Vec::new();
    out.push(AppAction::HideClicker);
    match mode {
        AppMode::Chord => {
            let actions = chorder.handle_key_event(
                key_event,
                device_keys,
                loaded_app_chords,
                frontmost_application_id,
            );
            let n = actions.len();
            let mut rest = actions;
            let ghost all = rest@;
            let ghost mut k: int = 0;
            assert(rest@ =~= all.skip(0));
            while rest.len() > 0
                invariant
                    0 <= k <= all.len(),
                    rest@ == all.skip(k),
                    app_action_views(out@) == seq![AppActionView::HideClicker] + chorder_actions(
                        action_views(all.take(k)),
                    ),
                decreases rest@.len(),
            {
                let a = rest.remove(0);
                assert(a == all[k]);
                let ghost before = out@;
                out.push(AppAction::Chorder(a));
                proof {
                    assert(app_action_views(out@) =~= app_action_views(before).push(AppActionView::Chorder(a@)));
                    assert(action_views(all.take(k + 1)) =~= action_views(all.take(k)).push(a@));
                    assert(chorder_actions(action_views(all.take(k + 1))) =~= chorder_actions(
                        action_views(all.take(k)),
                    ).push(AppActionView::Chorder(a@)));
                    k = k + 1;
                }
                assert(rest@ =~= all.skip(k));
            }
            assert(all.take(all.len() as int) =~= all);
        },
        AppMode::Idle => {
            let a = chorder.ensure_inactive();
            out.push(AppAction::Chorder(a));
            assert(app_action_views(out@) =~= seq![
                AppActionView::HideClicker,
                AppActionView::Chorder(ActionView::HideIndicator),
            ]);
        },
    }
    out
}

} // verus!
