//! Updates for the observer, and the queue that carries them.

use vstd::prelude::*;
use vstd::string::*;

verus! {

/// Text and size of the progress indicator. The fraction is in thousandths,
/// from 0 to 1000.
#[derive(Debug, PartialEq, Eq)]
pub struct ProgressUpdate {
    pub label: String,
    pub permille: u16,
}

/// One message for the observer.
#[derive(Debug, PartialEq, Eq)]
pub enum AppUpdate {
    Idle,
    /// Shows the indicator, or clears it with `None`.
    Progress(Option<ProgressUpdate>),
    /// Some slot of the step table was written.
    StepStatusChanged,
    /// Size of the source directory, in bytes.
    SourceSize(u64),
    /// Free space on the destination's drive, in bytes.
    DestDriveAvailable(u64),
    /// One line for the log.
    Log(String),
}

/// Mathematical value of an [`AppUpdate`].
pub enum UpdateView {
    Idle,
    Progress(Option<(Seq<char>, int)>),
    StepStatusChanged,
    SourceSize(u64),
    DestDriveAvailable(u64),
    Log(Seq<char>),
}

impl View for AppUpdate {
    type V = UpdateView;

    open spec fn view(&self) -> UpdateView {
        match self {
            AppUpdate::Idle => UpdateView::Idle,
            AppUpdate::Progress(None) => UpdateView::Progress(None),
            AppUpdate::Progress(Some(p)) => UpdateView::Progress(
                Some((p.label@, p.permille as int)),
            ),
            AppUpdate::StepStatusChanged => UpdateView::StepStatusChanged,
            AppUpdate::SourceSize(n) => UpdateView::SourceSize(*n),
            AppUpdate::DestDriveAvailable(n) => UpdateView::DestDriveAvailable(*n),
            AppUpdate::Log(text) => UpdateView::Log(text@),
        }
    }
}

/// Queue of updates from any number of producers to one consumer. Sending
/// never waits and never fails; the consumer takes updates in the order in
/// which they were sent.
pub struct EventQueue {
    pending: Vec<AppUpdate>,
}

impl View for EventQueue {
    type V = Seq<UpdateView>;

    closed spec fn view(&self) -> Seq<UpdateView> {
        Seq::new(self.pending@.len(), |i: int| self.pending@[i]@)
    }
}

impl EventQueue {
    /// An empty queue.
    pub fn new() -> (queue: Self)
        ensures
            queue@ == Seq::<UpdateView>::empty(),
    {
        let queue = EventQueue { pending: Vec::new() };
        assert(queue@ =~= Seq::<UpdateView>::empty());
        queue
    }

    /// Number of updates that wait for the consumer.
    pub fn len(&self) -> (n: usize)
        ensures
            n == self@.len(),
    {
        self.pending.len()
    }

    /// Appends an update behind those that wait.
    pub fn send(&mut self, update: AppUpdate)
        ensures
            final(self)@ == old(self)@.push(update@),
    {
        self.pending.push(update);
        assert(self@ =~= old(self)@.push(update@));
    }

    /// Takes the oldest update, if any waits. Never blocks.
    pub fn try_recv(&mut self) -> (update: Option<AppUpdate>)
        ensures
            old(self)@.len() == 0 ==> update.is_none() && final(self)@ == old(self)@,
            old(self)@.len() > 0 ==> update.is_some() && update.unwrap()@ == old(self)@[0]
                && final(self)@ == old(self)@.subrange(1, old(self)@.len() as int),
    {
        if self.pending.len() == 0 {
            None
        } else {
            let first = self.pending.remove(0);
            assert(self@ =~= old(self)@.subrange(1, old(self)@.len() as int));
            Some(first)
        }
    }

    /// Takes every update that waits, oldest first, and leaves the queue
    /// empty.
    pub fn drain(&mut self) -> (updates: Vec<AppUpdate>)
        ensures
            final(self)@ == Seq::<UpdateView>::empty(),
            updates@.len() == old(self)@.len(),
            forall|i: int| 0 <= i < updates@.len() ==> (#[trigger] updates@[i])@ == old(self)@[i],
    {
        let mut updates: Vec<AppUpdate> = Vec::new();
        std::mem::swap(&mut updates, &mut self.pending);
        assert(self@ =~= Seq::<UpdateView>::empty());
        updates
    }
}

} // verus!
