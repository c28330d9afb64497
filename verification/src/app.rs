use crate::changelog::{Changelog, ChangelogView};
use crate::deployment::{default_checklist, ChecklistView, Deployment};
use crate::fetch::FetchError;
use vstd::prelude::*;

verus! {

/// Which of the two panels is selected.
#[derive(Clone, Copy, Debug, PartialEq, Eq, Structural)]
pub enum SelectedBlock {
    Left,
    Right,
}

impl SelectedBlock {
    /// The position of the panel in the pair: 0 for the left one, 1 for the right one.
    pub open spec fn spec_index(self) -> int {
        match self {
            SelectedBlock::Left => 0,
            SelectedBlock::Right => 1,
        }
    }

    /// The position of the panel in the pair.
    pub fn index(self) -> (i: usize)
        ensures
            i == self.spec_index(),
    {
        match self {
            SelectedBlock::Left => 0,
            SelectedBlock::Right => 1,
        }
    }
}

/// The mode the dashboard is in: looking at the two changelogs, or going
/// through the checklist.
#[derive(Clone, Copy, Debug, PartialEq, Eq, Structural)]
pub enum Phase {
    Reviewing,
    Deploying,
}

/// What the operator can ask for.
#[derive(Clone, Copy, Debug, PartialEq, Eq, Structural)]
pub enum Action {
    Quit,
    MoveLeft,
    MoveRight,
    Confirm,
    CursorUp,
    CursorDown,
    Toggle,
    Start,
    Noop,
}

/// A key of the keyboard, as far as the dashboard tells keys apart.
#[derive(Clone, Copy, Debug, PartialEq, Eq, Structural)]
pub enum Key {
    Char(char),
    Backspace,
    Enter,
    Left,
    Right,
    Up,
    Down,
    Tab,
    Other,
}

/// What the event loop does after an action.
#[derive(Clone, Copy, Debug, PartialEq, Eq, Structural)]
pub enum Flow {
    Continue,
    Quit,
}

/// The action bound to a key. Keys without a binding, the space bar and
/// backspace among them, do nothing.
pub open spec fn action_of(key: Key) -> Action {
    match key {
        Key::Char(c) => if c == 'q' {
            Action::Quit
        } else if c == 'c' {
            Action::Confirm
        } else {
            Action::Noop
        },
        Key::Left => Action::MoveLeft,
        Key::Right => Action::MoveRight,
        Key::Up => Action::CursorUp,
        Key::Down => Action::CursorDown,
        Key::Tab => Action::Toggle,
        Key::Enter => Action::Start,
        Key::Backspace => Action::Noop,
        Key::Other => Action::Noop,
    }
}

/// Only quitting ends the loop.
pub open spec fn flow_of(action: Action) -> Flow {
    if action == Action::Quit {
        Flow::Quit
    } else {
        Flow::Continue
    }
}

/// The action bound to a key.
pub fn action_for_key(key: Key) -> (action: Action)
    ensures
        action == action_of(key),
{
    match key {
        Key::Char(c) => {
            if c == 'q' {
                Action::Quit
            } else if c == 'c' {
                Action::Confirm
            } else {
                Action::Noop
            }
        },
        Key::Left => Action::MoveLeft,
        Key::Right => Action::MoveRight,
        Key::Up => Action::CursorUp,
        Key::Down => Action::CursorDown,
        Key::Tab => Action::Toggle,
        Key::Enter => Action::Start,
        Key::Backspace => Action::Noop,
        Key::Other => Action::Noop,
    }
}

/// What the dashboard is at one moment: the selected panel, the phase, the
/// checklist and the two changelogs, left one first.
pub struct AppView {
    pub selected: SelectedBlock,
    pub phase: Phase,
    pub deployment: ChecklistView,
    pub changelog: Seq<ChangelogView>,
}

impl AppView {
    /// There are exactly two panels and the checklist is a checklist.
    pub open spec fn wf(self) -> bool {
        &&& self.changelog.len() == 2
        &&& self.deployment.wf()
    }

    /// The changelog of the selected panel.
    pub open spec fn selected_changelog(self) -> ChangelogView {
        self.changelog[self.selected.spec_index()]
    }

    /// The state after one action. While reviewing, only moving the selection
    /// and confirming do anything; while deploying, only the checklist actions
    /// and starting. Quitting never changes the state.
    pub open spec fn step(self, action: Action) -> AppView {
        match self.phase {
            Phase::Reviewing => match action {
                Action::MoveLeft => AppView { selected: SelectedBlock::Left, ..self },
                Action::MoveRight => AppView { selected: SelectedBlock::Right, ..self },
                Action::Confirm => AppView { phase: Phase::Deploying, ..self },
                _ => self,
            },
            Phase::Deploying => match action {
                Action::CursorUp => AppView { deployment: self.deployment.up(), ..self },
                Action::CursorDown => AppView { deployment: self.deployment.down(), ..self },
                Action::Toggle => AppView { deployment: self.deployment.toggle(), ..self },
                Action::Start => AppView { deployment: self.deployment.start(), ..self },
                _ => self,
            },
        }
    }

    /// The state after a sequence of actions, taken in order.
    pub open spec fn run(self, actions: Seq<Action>) -> AppView
        decreases actions.len(),
    {
        if actions.len() == 0 {
            self
        } else {
            self.run(actions.drop_last()).step(actions.last())
        }
    }
}

/// The state every run begins with: the left panel selected, reviewing, the
/// default checklist.
pub open spec fn initial_state(changelog: Seq<ChangelogView>) -> AppView {
    AppView {
        selected: SelectedBlock::Left,
        phase: Phase::Reviewing,
        deployment: default_checklist(),
        changelog,
    }
}

/// The dashboard: two changelogs side by side, and the checklist that follows.
pub struct App {
    selected: SelectedBlock,
    phase: Phase,
    deployment: Deployment,
    changelog: Vec<Changelog>,
}

impl View for App {
    type V = AppView;

    closed spec fn view(&self) -> AppView {
        AppView {
            selected: self.selected,
            phase: self.phase,
            deployment: self.deployment@,
            changelog: self.changelog@.map_values(|c: Changelog| c@),
        }
    }
}

impl App {
    #[verifier::type_invariant]
    spec fn inv(self) -> bool {
        &&& self.changelog@.len() == 2
        &&& self.deployment@.wf()
    }

    /// The dashboard over two changelogs, the left one first.
    pub fn new(changelog: Vec<Changelog>) -> (app: Self)
        requires
            changelog@.len() == 2,
        ensures
            app@ == initial_state(changelog@.map_values(|c: Changelog| c@)),
            app@.wf(),
    {
        Self {
            selected: SelectedBlock::Left,
            phase: Phase::Reviewing,
            deployment: Deployment::new(),
            changelog,
        }
    }

    /// The dashboard over the outcome of the two fetches, the left one first.
    /// There is a dashboard only where both fetches gave a changelog; else
    /// the failure is handed on, the left one where both failed.
    pub fn from_fetches(
        left: Result<Changelog, FetchError>,
        right: Result<Changelog, FetchError>,
    ) -> (result: Result<Self, FetchError>)
        ensures
            match (left, right) {
                (Ok(l), Ok(r)) => result is Ok && result->Ok_0@ == initial_state(seq![l@, r@])
                    && result->Ok_0@.wf(),
                (Err(e), _) => result is Err && result->Err_0 == e,
                (Ok(_), Err(e)) => result is Err && result->Err_0 == e,
            },
    {
        match left {
            Err(e) => Err(e),
            Ok(l) => match right {
                Err(e) => Err(e),
                Ok(r) => {
                    let mut changelog: Vec<Changelog> = Vec::new();
                    changelog.push(l);
                    changelog.push(r);
                    assert(changelog@.map_values(|c: Changelog| c@) =~= seq![l@, r@]);
                    Ok(Self::new(changelog))
                },
            },
        }
    }

    /// The selected panel.
    pub fn selected(&self) -> (selected: SelectedBlock)
        ensures
            selected == self@.selected,
    {
        self.selected
    }

    /// The phase the dashboard is in.
    pub fn phase(&self) -> (phase: Phase)
        ensures
            phase == self@.phase,
    {
        self.phase
    }

    /// The checklist.
    pub fn deployment(&self) -> (deployment: &Deployment)
        ensures
            deployment@ == self@.deployment,
            self@.wf(),
    {
        proof {
            use_type_invariant(self);
        }
        &self.deployment
    }

    /// Whether the deployment has been started.
    pub fn deployment_started(&self) -> (started: bool)
        ensures
            started == self@.deployment.running,
    {
        self.deployment.deployment_running()
    }

    /// The changelog of the left panel.
    pub fn left(&self) -> (changelog: &Changelog)
        ensures
            changelog@ == self@.changelog[0],
            self@.wf(),
    {
        proof {
            use_type_invariant(self);
        }
        &self.changelog[0]
    }

    /// The changelog of the right panel.
    pub fn right(&self) -> (changelog: &Changelog)
        ensures
            changelog@ == self@.changelog[1],
            self@.wf(),
    {
        proof {
            use_type_invariant(self);
        }
        &self.changelog[1]
    }

    /// The changelog of the selected panel.
    pub fn get_current_commit_status(&self) -> (changelog: &Changelog)
        ensures
            changelog@ == self@.selected_changelog(),
            self@.wf(),
    {
        proof {
            use_type_invariant(self);
        }
        &self.changelog[self.selected.index()]
    }

    /// Takes one action and says whether the loop goes on.
    pub fn dispatch(&mut self, action: Action) -> (flow: Flow)
        ensures
            final(self)@ == old(self)@.step(action),
            final(self)@.wf(),
            flow == flow_of(action),
    {
        proof {
            use_type_invariant(&*self);
        }
        match self.phase {
            Phase::Reviewing => match action {
                Action::MoveLeft => {
                    self.selected = SelectedBlock::Left;
                },
                Action::MoveRight => {
                    self.selected = SelectedBlock::Right;
                },
                Action::Confirm => {
                    self.phase = Phase::Deploying;
                },
                _ => {},
            },
            Phase::Deploying => match action {
                Action::CursorUp => {
                    self.deployment.cursor_up();
                },
                Action::CursorDown => {
                    self.deployment.cursor_down();
                },
                Action::Toggle => {
                    self.deployment.toggle();
                },
                Action::Start => {
                    self.deployment.start();
                },
                _ => {},
            },
        }
        match action {
            Action::Quit => Flow::Quit,
            _ => Flow::Continue,
        }
    }

    /// Takes the action bound to a key and says whether the loop goes on.
    pub fn handle_key(&mut self, key: Key) -> (flow: Flow)
        ensures
            final(self)@ == old(self)@.step(action_of(key)),
            final(self)@.wf(),
            flow == flow_of(action_of(key)),
    {
        self.dispatch(action_for_key(key))
    }
}

} // verus!
