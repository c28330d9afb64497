use vstd::arithmetic::div_mod::{lemma_mod_add_multiples_vanish, lemma_mod_self_0, lemma_small_mod};
use vstd::prelude::*;

verus! {

/// Stepping a position by one, modulo the length, moves it to its neighbour,
/// and round the end where there is none.
pub proof fn lemma_step_wraps(cursor: int, len: int)
    requires
        0 <= cursor < len,
    ensures
        (cursor + 1) % len == (if cursor == len - 1 { 0 } else { cursor + 1 }),
        (cursor - 1 + len) % len == (if cursor == 0 { len - 1 } else { cursor - 1 }),
{
    if cursor == len - 1 {
        lemma_mod_self_0(len);
    } else {
        lemma_small_mod((cursor + 1) as nat, len as nat);
    }
    if cursor == 0 {
        lemma_small_mod((len - 1) as nat, len as nat);
    } else {
        lemma_mod_add_multiples_vanish(cursor - 1, len);
        lemma_small_mod((cursor - 1) as nat, len as nat);
    }
}

/// What a checklist entry is: its label and whether it is switched on.
pub struct OptionView {
    pub label: Seq<char>,
    pub value: bool,
}

/// What a checklist is: its entries in order, the position of the cursor, and
/// whether the deployment has been started.
pub struct ChecklistView {
    pub options: Seq<OptionView>,
    pub cursor: int,
    pub running: bool,
}

impl ChecklistView {
    /// A checklist has at least one entry and its cursor points at one of them.
    pub open spec fn wf(self) -> bool {
        0 <= self.cursor < self.options.len()
    }

    /// The cursor moved one entry up, from the first entry round to the last.
    pub open spec fn up(self) -> ChecklistView {
        ChecklistView {
            cursor: (self.cursor - 1 + self.options.len()) % (self.options.len() as int),
            ..self
        }
    }

    /// The cursor moved one entry down, from the last entry round to the first.
    pub open spec fn down(self) -> ChecklistView {
        ChecklistView { cursor: (self.cursor + 1) % (self.options.len() as int), ..self }
    }

    /// The entry under the cursor switched over; every other entry as it was.
    pub open spec fn toggle(self) -> ChecklistView {
        ChecklistView {
            options: self.options.update(
                self.cursor,
                OptionView {
                    label: self.options[self.cursor].label,
                    value: !self.options[self.cursor].value,
                },
            ),
            ..self
        }
    }

    /// The deployment marked as started.
    pub open spec fn start(self) -> ChecklistView {
        ChecklistView { running: true, ..self }
    }
}

/// The checklist every run begins with: the release mail is off, both
/// pipelines are on, the cursor is on the first entry and nothing is started.
pub open spec fn default_checklist() -> ChecklistView {
    ChecklistView {
        options: seq![
            OptionView { label: "Send Release Mail"@, value: false },
            OptionView { label: "Pipeline A"@, value: true },
            OptionView { label: "Pipeline B"@, value: true },
        ],
        cursor: 0,
        running: false,
    }
}

/// One entry of the checklist.
pub struct DeploymentOption {
    value: bool,
    label: String,
}

impl View for DeploymentOption {
    type V = OptionView;

    closed spec fn view(&self) -> OptionView {
        OptionView { label: self.label@, value: self.value }
    }
}

impl DeploymentOption {
    /// The text that names the entry.
    pub fn label(&self) -> (label: &String)
        ensures
            label@ == self@.label,
    {
        &self.label
    }

    /// Whether the entry is switched on.
    pub fn value(&self) -> (value: bool)
        ensures
            value == self@.value,
    {
        self.value
    }
}

/// The checklist that is gone through before a deployment is started.
pub struct Deployment {
    selected_options: Vec<DeploymentOption>,
    current_option: usize,
    deployment_running: bool,
}

impl View for Deployment {
    type V = ChecklistView;

    closed spec fn view(&self) -> ChecklistView {
        ChecklistView {
            options: self.selected_options@.map_values(|o: DeploymentOption| o@),
            cursor: self.current_option as int,
            running: self.deployment_running,
        }
    }
}

impl Deployment {
    #[verifier::type_invariant]
    spec fn inv(self) -> bool {
        self.current_option < self.selected_options@.len()
    }

    /// The default checklist.
    pub fn new() -> (deployment: Self)
        ensures
            deployment@ == default_checklist(),
            deployment@.wf(),
    {
        let mut selected_options: Vec<DeploymentOption> = Vec::new();
        selected_options.push(
            DeploymentOption { value: false, label: "Send Release Mail".to_owned() },
        );
        selected_options.push(DeploymentOption { value: true, label: "Pipeline A".to_owned() });
        selected_options.push(DeploymentOption { value: true, label: "Pipeline B".to_owned() });
        let deployment = Self { selected_options, current_option: 0, deployment_running: false };
        assert(deployment@.options =~= default_checklist().options);
        deployment
    }

    /// The number of entries, which is never zero.
    pub fn len(&self) -> (n: usize)
        ensures
            n == self@.options.len(),
            n >= 1,
            self@.wf(),
    {
        proof {
            use_type_invariant(self);
        }
        self.selected_options.len()
    }

    /// The entry at a position, or nothing where the checklist has no such position.
    pub fn option(&self, index: usize) -> (entry: Option<&DeploymentOption>)
        ensures
            index < self@.options.len() ==> entry is Some && entry->Some_0@ == self@.options[
                index as int
            ],
            index >= self@.options.len() ==> entry is None,
    {
        if index < self.selected_options.len() {
            Some(&self.selected_options[index])
        } else {
            None
        }
    }

    /// The position of the cursor, which always points at an entry.
    pub fn current_option(&self) -> (cursor: usize)
        ensures
            cursor == self@.cursor,
            self@.wf(),
    {
        proof {
            use_type_invariant(self);
        }
        self.current_option
    }

    /// Whether the release mail goes out: what the first entry says.
    pub fn sends_release_mail(&self) -> (sends: bool)
        ensures
            sends == self@.options[0].value,
            self@.wf(),
    {
        proof {
            use_type_invariant(self);
        }
        self.selected_options[0].value
    }

    /// Whether the deployment has been started.
    pub fn deployment_running(&self) -> (running: bool)
        ensures
            running == self@.running,
    {
        self.deployment_running
    }

    /// Moves the cursor one entry up; from the first entry it goes to the last.
    pub fn cursor_up(&mut self)
        ensures
            final(self)@ == old(self)@.up(),
            final(self)@.wf(),
            final(self)@.cursor == (if old(self)@.cursor == 0 {
                old(self)@.options.len() - 1
            } else {
                old(self)@.cursor - 1
            }),
        no_unwind
    {
        proof {
            use_type_invariant(&*self);
        }
        let options_count: usize = self.selected_options.len();
        proof {
            lemma_step_wraps(self.current_option as int, options_count as int);
        }
        if self.current_option == 0 {
            self.current_option = options_count - 1;
        } else {
            self.current_option = self.current_option - 1;
        }
    }

    /// Moves the cursor one entry down; from the last entry it goes to the first.
    pub fn cursor_down(&mut self)
        ensures
            final(self)@ == old(self)@.down(),
            final(self)@.wf(),
            final(self)@.cursor == (if old(self)@.cursor == old(self)@.options.len() - 1 {
                0
            } else {
                old(self)@.cursor + 1
            }),
        no_unwind
    {
        proof {
            use_type_invariant(&*self);
        }
        let options_count: usize = self.selected_options.len();
        proof {
            lemma_step_wraps(self.current_option as int, options_count as int);
        }
        if self.current_option == options_count - 1 {
            self.current_option = 0;
        } else {
            self.current_option = self.current_option + 1;
        }
    }

    /// Switches the entry under the cursor over and leaves the others alone.
    pub fn toggle(&mut self)
        ensures
            final(self)@ == old(self)@.toggle(),
            final(self)@.wf(),
        no_unwind
    {
        proof {
            use_type_invariant(&*self);
        }
        let i: usize = self.current_option;
        self.selected_options[i].value = !self.selected_options[i].value;
        assert(self@.options =~= old(self)@.toggle().options);
    }

    /// Marks the deployment as started; nothing takes that back.
    pub fn start(&mut self)
        ensures
            final(self)@ == old(self)@.start(),
            final(self)@.wf(),
        no_unwind
    {
        proof {
            use_type_invariant(&*self);
        }
        self.deployment_running = true;
    }
}

} // verus!
