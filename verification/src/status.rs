//! Per-step status and the fixed-size table that holds one slot per step.

use vstd::prelude::*;

verus! {

/// Number of steps of the pipeline, and so of slots in a [`StepTable`].
pub const STEP_COUNT: usize = 4;

/// State of one pipeline step.
#[derive(Debug, PartialEq, Eq)]
pub enum StepStatus {
    NotStarted,
    InProgress,
    Completed,
    Failed(String),
}

/// Mathematical value of a [`StepStatus`]: the failure message as a sequence
/// of characters.
pub enum StepState {
    NotStarted,
    InProgress,
    Completed,
    Failed(Seq<char>),
}

impl StepState {
    /// Position of a state in the life of a step: not started, running,
    /// finished (either way).
    pub open spec fn rank(self) -> nat {
        match self {
            StepState::NotStarted => 0,
            StepState::InProgress => 1,
            StepState::Completed => 2,
            StepState::Failed(_) => 2,
        }
    }

    /// A step has finished, successfully or not.
    pub open spec fn is_terminal(self) -> bool {
        self.rank() == 2
    }

    /// Writing `next` over `self` moves the step forward.
    pub open spec fn advances_to(self, next: StepState) -> bool {
        self.rank() < next.rank()
    }

    /// Writing `next` over `self` does not move the step backward: the slot
    /// keeps its value or moves forward.
    pub open spec fn no_regress(self, next: StepState) -> bool {
        self == next || self.advances_to(next)
    }

    /// The glyph shown for a state.
    pub open spec fn icon(self) -> Seq<char> {
        match self {
            StepState::NotStarted => "⚪"@,
            StepState::InProgress => "⏳"@,
            StepState::Completed => "✅"@,
            StepState::Failed(_) => "❌"@,
        }
    }

    /// Red, green and blue of the colour shown for a state.
    pub open spec fn color(self) -> (u8, u8, u8) {
        match self {
            StepState::NotStarted => (160u8, 160u8, 160u8),
            StepState::InProgress => (255u8, 165u8, 0u8),
            StepState::Completed => (0u8, 200u8, 0u8),
            StepState::Failed(_) => (220u8, 0u8, 0u8),
        }
    }
}

impl View for StepStatus {
    type V = StepState;

    open spec fn view(&self) -> StepState {
        match self {
            StepStatus::NotStarted => StepState::NotStarted,
            StepStatus::InProgress => StepState::InProgress,
            StepStatus::Completed => StepState::Completed,
            StepStatus::Failed(msg) => StepState::Failed(msg@),
        }
    }
}

impl Clone for StepStatus {
    fn clone(&self) -> (copy: Self)
        ensures
            copy@ == self@,
    {
        match self {
            StepStatus::NotStarted => StepStatus::NotStarted,
            StepStatus::InProgress => StepStatus::InProgress,
            StepStatus::Completed => StepStatus::Completed,
            StepStatus::Failed(msg) => StepStatus::Failed(msg.clone()),
        }
    }
}

impl StepStatus {
    /// The glyph shown for this status.
    pub fn icon(&self) -> (glyph: &'static str)
        ensures
            glyph@ == self@.icon(),
    {
        match self {
            StepStatus::NotStarted => "⚪",
            StepStatus::InProgress => "⏳",
            StepStatus::Completed => "✅",
            StepStatus::Failed(_) => "❌",
        }
    }

    /// Red, green and blue of the colour shown for this status: grey, orange,
    /// green, red.
    pub fn color(&self) -> (rgb: (u8, u8, u8))
        ensures
            rgb == self@.color(),
    {
        match self {
            StepStatus::NotStarted => (160, 160, 160),
            StepStatus::InProgress => (255, 165, 0),
            StepStatus::Completed => (0, 200, 0),
            StepStatus::Failed(_) => (220, 0, 0),
        }
    }

    /// Whether the step has not been started.
    pub fn is_not_started(&self) -> (r: bool)
        ensures
            r == (self@ == StepState::NotStarted),
    {
        match self {
            StepStatus::NotStarted => true,
            _ => false,
        }
    }
}

/// One status slot per pipeline step, in pipeline order.
pub struct StepTable {
    slots: [StepStatus; 4],
}

impl View for StepTable {
    type V = Seq<StepState>;

    closed spec fn view(&self) -> Seq<StepState> {
        Seq::new(STEP_COUNT as nat, |i: int| self.slots[i]@)
    }
}

/// The table in which no step has been started.
pub open spec fn fresh_table() -> Seq<StepState> {
    Seq::new(STEP_COUNT as nat, |i: int| StepState::NotStarted)
}

/// No slot of `after` lies behind the same slot of `before`.
pub open spec fn table_no_regress(before: Seq<StepState>, after: Seq<StepState>) -> bool {
    &&& before.len() == after.len()
    &&& forall|i: int| 0 <= i < before.len() ==> (#[trigger] before[i]).no_regress(after[i])
}

impl StepTable {
    /// A table with every step not started.
    pub fn new() -> (table: Self)
        ensures
            table@ == fresh_table(),
    {
        let table = StepTable {
            slots: [
                StepStatus::NotStarted,
                StepStatus::NotStarted,
                StepStatus::NotStarted,
                StepStatus::NotStarted,
            ],
        };
        assert(table@ =~= fresh_table());
        table
    }

    /// Every table has one slot per step.
    pub proof fn lemma_len(&self)
        ensures
            self@.len() == STEP_COUNT,
    {
    }

    /// Overwrites the slot of `step`. A step outside the table is ignored.
    pub fn set(&mut self, step: usize, status: StepStatus)
        ensures
            step < STEP_COUNT ==> final(self)@ == old(self)@.update(step as int, status@),
            step >= STEP_COUNT ==> final(self)@ == old(self)@,
            final(self)@.len() == STEP_COUNT,
    {
        if step < 4 {
            self.slots[step] = status;
            assert(self@ =~= old(self)@.update(step as int, status@));
        }
    }

    /// The status of `step`, or `None` for a step outside the table.
    pub fn get(&self, step: usize) -> (status: Option<StepStatus>)
        ensures
            step < STEP_COUNT ==> status.is_some() && status.unwrap()@ == self@[step as int],
            step >= STEP_COUNT ==> status.is_none(),
    {
        if step < 4 {
            Some(self.slots[step].clone())
        } else {
            None
        }
    }

    /// A copy of every slot, in pipeline order.
    pub fn get_all(&self) -> (all: Vec<StepStatus>)
        ensures
            all@.len() == STEP_COUNT,
            forall|i: int| 0 <= i < STEP_COUNT ==> (#[trigger] all@[i])@ == self@[i],
    {
        let mut all: Vec<StepStatus> = Vec::new();
        let mut i: usize = 0;
        while i < 4
            invariant
                i <= 4,
                all@.len() == i,
                forall|j: int| 0 <= j < i ==> (#[trigger] all@[j])@ == self@[j],
            decreases 4 - i,
        {
            all.push(self.slots[i].clone());
            i += 1;
        }
        all
    }

    /// Whether no step has been started.
    pub fn all_not_started(&self) -> (r: bool)
        ensures
            r == (self@ == fresh_table()),
    {
        let r = self.slots[0].is_not_started() && self.slots[1].is_not_started()
            && self.slots[2].is_not_started() && self.slots[3].is_not_started();
        proof {
            if r {
                assert(self@ =~= fresh_table());
            } else {
                assert(fresh_table()[0] == StepState::NotStarted);
                assert(fresh_table()[1] == StepState::NotStarted);
                assert(fresh_table()[2] == StepState::NotStarted);
                assert(fresh_table()[3] == StepState::NotStarted);
            }
        }
        r
    }
}

} // verus!
