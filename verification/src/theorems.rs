use crate::app::{initial_state, Action, AppView, Phase, SelectedBlock};
use crate::changelog::ChangelogView;
use crate::deployment::{default_checklist, lemma_step_wraps, ChecklistView};
use vstd::prelude::*;

verus! {

/// Moving the cursor keeps it on an entry and touches nothing else. It goes to
/// the neighbouring entry, and round the end of the checklist where there is
/// none: up from the first entry is the last, down from the last is the first.
pub proof fn lemma_cursor_wraps(checklist: ChecklistView)
    requires
        checklist.wf(),
    ensures
        checklist.up().wf(),
        checklist.down().wf(),
        checklist.up().options == checklist.options,
        checklist.down().options == checklist.options,
        checklist.up().running == checklist.running,
        checklist.down().running == checklist.running,
        checklist.up().cursor == (if checklist.cursor == 0 {
            checklist.options.len() - 1
        } else {
            checklist.cursor - 1
        }),
        checklist.down().cursor == (if checklist.cursor == checklist.options.len() - 1 {
            0
        } else {
            checklist.cursor + 1
        }),
{
    lemma_step_wraps(checklist.cursor, checklist.options.len() as int);
}

/// Moving the cursor down and then up, or up and then down, brings it back.
pub proof fn lemma_cursor_moves_undo_each_other(checklist: ChecklistView)
    requires
        checklist.wf(),
    ensures
        checklist.down().up() == checklist,
        checklist.up().down() == checklist,
{
    lemma_cursor_wraps(checklist);
    lemma_cursor_wraps(checklist.down());
    lemma_cursor_wraps(checklist.up());
}

/// Toggling switches the entry under the cursor over and leaves the labels,
/// the other entries, the cursor and the started flag as they were.
pub proof fn lemma_toggle_touches_one_entry(checklist: ChecklistView)
    requires
        checklist.wf(),
    ensures
        checklist.toggle().wf(),
        checklist.toggle().cursor == checklist.cursor,
        checklist.toggle().running == checklist.running,
        checklist.toggle().options.len() == checklist.options.len(),
        forall|i: int|
            0 <= i < checklist.options.len() ==> #[trigger] checklist.toggle().options[i].label
                == checklist.options[i].label,
        forall|i: int|
            0 <= i < checklist.options.len() ==> #[trigger] checklist.toggle().options[i].value
                == (if i == checklist.cursor {
                !checklist.options[i].value
            } else {
                checklist.options[i].value
            }),
{
}

/// Toggling the same entry twice leaves the checklist as it was.
pub proof fn lemma_toggle_twice(checklist: ChecklistView)
    requires
        checklist.wf(),
    ensures
        checklist.toggle().toggle() == checklist,
{
    assert(checklist.toggle().toggle().options =~= checklist.options);
}

/// Starting is done once: starting again changes nothing.
pub proof fn lemma_start_twice(checklist: ChecklistView)
    ensures
        checklist.start().running,
        checklist.start().start() == checklist.start(),
{
}

/// Every action leaves a state that is well formed, with the same two
/// changelogs and a checklist of the same length.
pub proof fn lemma_step_keeps_shape(state: AppView, action: Action)
    requires
        state.wf(),
    ensures
        state.step(action).wf(),
        state.step(action).changelog == state.changelog,
        state.step(action).deployment.options.len() == state.deployment.options.len(),
{
    lemma_cursor_wraps(state.deployment);
    lemma_toggle_touches_one_entry(state.deployment);
}

/// Whatever actions are taken, and however many, there are two changelogs,
/// the same as at the start, and the cursor is on an entry of a checklist
/// that has kept its length.
pub proof fn lemma_run_keeps_shape(state: AppView, actions: Seq<Action>)
    requires
        state.wf(),
    ensures
        state.run(actions).wf(),
        state.run(actions).changelog == state.changelog,
        state.run(actions).deployment.options.len() == state.deployment.options.len(),
        0 <= state.run(actions).deployment.cursor < state.deployment.options.len(),
    decreases actions.len(),
{
    if actions.len() > 0 {
        lemma_run_keeps_shape(state, actions.drop_last());
        lemma_step_keeps_shape(state.run(actions.drop_last()), actions.last());
    }
}

/// Over any sequence of cursor moves, up or down in any order, the cursor
/// stays on an entry of the checklist, whatever its length, and nothing but
/// the cursor changes.
pub proof fn lemma_cursor_moves_keep_the_cursor_on_an_entry(state: AppView, actions: Seq<Action>)
    requires
        state.wf(),
        forall|i: int|
            0 <= i < actions.len() ==> actions[i] == Action::CursorUp || actions[i]
                == Action::CursorDown,
    ensures
        0 <= state.run(actions).deployment.cursor < state.deployment.options.len(),
        state.run(actions).deployment.options == state.deployment.options,
        state.run(actions).deployment.running == state.deployment.running,
        state.run(actions).selected == state.selected,
        state.run(actions).phase == state.phase,
        state.run(actions).changelog == state.changelog,
        state.phase == Phase::Reviewing ==> state.run(actions) == state,
    decreases actions.len(),
{
    if actions.len() > 0 {
        let before = actions.drop_last();
        lemma_cursor_moves_keep_the_cursor_on_an_entry(state, before);
        lemma_cursor_wraps(state.run(before).deployment);
    }
}

/// While deploying, toggling twice in a row leaves the whole state as it was.
pub proof fn lemma_toggle_twice_while_deploying(state: AppView)
    requires
        state.wf(),
        state.phase == Phase::Deploying,
    ensures
        state.step(Action::Toggle).step(Action::Toggle) == state,
{
    lemma_toggle_twice(state.deployment);
}

/// Quitting and the reserved action change nothing, in either phase.
pub proof fn lemma_quit_and_noop_change_nothing(state: AppView)
    ensures
        state.step(Action::Quit) == state,
        state.step(Action::Noop) == state,
{
}

/// While reviewing, the checklist does not move: its actions and starting
/// change nothing.
pub proof fn lemma_checklist_rests_while_reviewing(state: AppView, action: Action)
    requires
        state.phase == Phase::Reviewing,
    ensures
        state.step(action).deployment == state.deployment,
        action == Action::CursorUp || action == Action::CursorDown || action == Action::Toggle
            || action == Action::Start ==> state.step(action) == state,
{
}

/// The selection changes only while reviewing: an action that changes it was
/// taken in that phase, and while deploying, moving left or right changes
/// nothing at all.
pub proof fn lemma_selection_moves_only_while_reviewing(state: AppView, action: Action)
    ensures
        state.step(action).selected != state.selected ==> state.phase == Phase::Reviewing,
        state.phase == Phase::Deploying && (action == Action::MoveLeft || action
            == Action::MoveRight) ==> state.step(action) == state,
{
}

/// While reviewing, moving right selects the right panel and moving left the
/// left one, whichever was selected; on the panel that is selected already,
/// and so the second time, the action changes nothing.
pub proof fn lemma_moves_stop_at_the_edge(state: AppView)
    requires
        state.phase == Phase::Reviewing,
    ensures
        state.step(Action::MoveRight) == (AppView { selected: SelectedBlock::Right, ..state }),
        state.step(Action::MoveLeft) == (AppView { selected: SelectedBlock::Left, ..state }),
        state.selected == SelectedBlock::Right ==> state.step(Action::MoveRight) == state,
        state.selected == SelectedBlock::Left ==> state.step(Action::MoveLeft) == state,
        state.step(Action::MoveRight).step(Action::MoveRight) == state.step(Action::MoveRight),
        state.step(Action::MoveLeft).step(Action::MoveLeft) == state.step(Action::MoveLeft),
{
}

/// Confirming while reviewing leads to deploying and changes nothing else;
/// confirming while deploying changes nothing.
pub proof fn lemma_confirm(state: AppView)
    ensures
        state.phase == Phase::Reviewing ==> state.step(Action::Confirm) == (AppView {
            phase: Phase::Deploying,
            ..state
        }),
        state.phase == Phase::Deploying ==> state.step(Action::Confirm) == state,
        state.step(Action::Confirm).phase == Phase::Deploying,
        state.step(Action::Confirm).step(Action::Confirm) == state.step(Action::Confirm),
{
}

/// The phase changes only by confirming while reviewing.
pub proof fn lemma_phase_changes_only_by_confirming(state: AppView, action: Action)
    ensures
        state.step(action).phase != state.phase ==> state.phase == Phase::Reviewing && action
            == Action::Confirm,
{
}

/// There is no way back from deploying: whatever actions follow, the
/// dashboard stays in that phase and the selection stays where it was.
pub proof fn lemma_deploying_is_final(state: AppView, actions: Seq<Action>)
    requires
        state.phase == Phase::Deploying,
    ensures
        state.run(actions).phase == Phase::Deploying,
        state.run(actions).selected == state.selected,
    decreases actions.len(),
{
    if actions.len() > 0 {
        lemma_deploying_is_final(state, actions.drop_last());
    }
}

/// A run begins with nothing started, on the left panel, reviewing.
pub proof fn lemma_initial_state(changelog: Seq<ChangelogView>)
    requires
        changelog.len() == 2,
    ensures
        initial_state(changelog).wf(),
        !initial_state(changelog).deployment.running,
        initial_state(changelog).selected == SelectedBlock::Left,
        initial_state(changelog).phase == Phase::Reviewing,
        initial_state(changelog).deployment.cursor == 0,
        initial_state(changelog).deployment.options.len() == 3,
        !initial_state(changelog).deployment.options[0].value,
        initial_state(changelog).deployment.options[1].value,
        initial_state(changelog).deployment.options[2].value,
{
    assert(default_checklist().options.len() == 3);
}

/// After an action the deployment is started exactly if it was started
/// before, or the action was to start it while deploying.
pub proof fn lemma_started_by_start_alone(state: AppView, action: Action)
    ensures
        state.step(action).deployment.running == (state.deployment.running || (state.phase
            == Phase::Deploying && action == Action::Start)),
{
}

/// Once started, always started: no sequence of actions takes it back.
pub proof fn lemma_started_stays(state: AppView, actions: Seq<Action>)
    requires
        state.deployment.running,
    ensures
        state.run(actions).deployment.running,
    decreases actions.len(),
{
    if actions.len() > 0 {
        lemma_started_stays(state, actions.drop_last());
        lemma_started_by_start_alone(state.run(actions.drop_last()), actions.last());
    }
}

/// A deployment that was not started and now is was started by an action of
/// the sequence: one of them was to start, taken while deploying.
pub proof fn lemma_started_only_after_start(state: AppView, actions: Seq<Action>)
    requires
        !state.deployment.running,
        state.run(actions).deployment.running,
    ensures
        exists|i: int|
            0 <= i < actions.len() && actions[i] == Action::Start && (#[trigger] state.run(
                actions.take(i),
            )).phase == Phase::Deploying,
    decreases actions.len(),
{
    if actions.len() > 0 {
        let before = actions.drop_last();
        let last = actions.len() - 1;
        lemma_started_by_start_alone(state.run(before), actions.last());
        if state.run(before).deployment.running {
            lemma_started_only_after_start(state, before);
            let i = choose|i: int|
                0 <= i < before.len() && before[i] == Action::Start && (#[trigger] state.run(
                    before.take(i),
                )).phase == Phase::Deploying;
            assert(before.take(i) =~= actions.take(i));
            assert(actions[i] == before[i]);
        } else {
            assert(actions.take(last) =~= before);
            assert(actions[last] == Action::Start);
            assert(state.run(actions.take(last)).phase == Phase::Deploying);
        }
    }
}

} // verus!
