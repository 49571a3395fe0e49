//! What the one observer keeps of the updates it has drained, and the
//! decisions it takes from that and from the shared state.

use vstd::prelude::*;
use crate::ctx::{Context, ContextView};
use crate::event::{AppUpdate, ProgressUpdate, UpdateView};
use crate::status::fresh_table;

verus! {

/// Most lines that the log keeps.
pub const LOG_CAPACITY: usize = 100;

/// Most lines of the log that are shown.
pub const LOG_SHOWN: usize = 50;

/// State of the observer.
pub struct App {
    pub state: Option<String>,
    pub error: Option<String>,
    pub progress: Option<ProgressUpdate>,
    pub logs: Vec<String>,
    pub required_space: Option<u64>,
    pub available_space: Option<u64>,
}

/// What stands above everything else on the screen.
#[derive(Debug, PartialEq, Eq)]
pub enum Banner {
    /// Nothing.
    Clear,
    /// An error, which goes before any state.
    Error(String),
    /// What is being worked on.
    Working(String),
}

/// Mathematical value of a [`Banner`].
pub enum BannerView {
    Clear,
    Error(Seq<char>),
    Working(Seq<char>),
}

impl View for Banner {
    type V = BannerView;

    open spec fn view(&self) -> BannerView {
        match self {
            Banner::Clear => BannerView::Clear,
            Banner::Error(text) => BannerView::Error(text@),
            Banner::Working(text) => BannerView::Working(text@),
        }
    }
}

/// What of an [`App`] the updates can change.
pub struct AppView {
    pub progress: Option<(Seq<char>, int)>,
    pub logs: Seq<Seq<char>>,
    pub required_space: Option<u64>,
    pub available_space: Option<u64>,
}

/// The log after one more line: the oldest line leaves once there are more
/// than the log keeps.
pub open spec fn log_added(logs: Seq<Seq<char>>, line: Seq<char>) -> Seq<Seq<char>> {
    if logs.len() + 1 > LOG_CAPACITY {
        logs.push(line).drop_first()
    } else {
        logs.push(line)
    }
}

impl AppView {
    /// The value after one update was taken in.
    pub open spec fn applied(self, update: UpdateView) -> AppView {
        match update {
            UpdateView::Progress(progress) => AppView { progress, ..self },
            UpdateView::SourceSize(required) => AppView { required_space: Some(required), ..self },
            UpdateView::DestDriveAvailable(available) => AppView {
                available_space: Some(available),
                ..self
            },
            UpdateView::Log(line) => AppView { logs: log_added(self.logs, line), ..self },
            UpdateView::StepStatusChanged => self,
            UpdateView::Idle => self,
        }
    }

    /// The value after every update of `updates` was taken in, oldest first.
    pub open spec fn applied_all(self, updates: Seq<UpdateView>) -> AppView
        decreases updates.len(),
    {
        if updates.len() == 0 {
            self
        } else {
            self.applied(updates[0]).applied_all(updates.drop_first())
        }
    }

    /// Whether the destination's drive has more free space than the source
    /// needs; a size that is not known counts as zero.
    pub open spec fn has_enough_space(self) -> bool {
        let required = match self.required_space {
            Some(n) => n,
            None => 0,
        };
        let available = match self.available_space {
            Some(n) => n,
            None => 0,
        };
        available > required
    }
}

impl View for App {
    type V = AppView;

    open spec fn view(&self) -> AppView {
        AppView {
            progress: match self.progress {
                Some(p) => Some((p.label@, p.permille as int)),
                None => None,
            },
            logs: Seq::new(self.logs@.len(), |i: int| self.logs@[i]@),
            required_space: self.required_space,
            available_space: self.available_space,
        }
    }
}

impl ContextView {
    /// Whether a run of every step may be started: a source is chosen, the
    /// execution slot is free, and no step has been started.
    pub open spec fn can_run_all(self) -> bool {
        self.sourcedir.is_some() && !self.is_busy() && self.steps == fresh_table()
    }
}

/// Whether a run of every step may be started: see
/// [`ContextView::can_run_all`].
pub fn can_run_all(ctx: &Context) -> (allowed: bool)
    ensures
        allowed == ctx@.can_run_all(),
{
    ctx.sourcedir().is_some() && !ctx.is_busy() && ctx.all_not_started()
}

impl App {
    /// An observer that has seen nothing.
    pub fn new() -> (app: Self)
        ensures
            app@ == (AppView {
                progress: None,
                logs: Seq::<Seq<char>>::empty(),
                required_space: None,
                available_space: None,
            }),
            app.state.is_none(),
            app.error.is_none(),
    {
        let app = App {
            state: None,
            error: None,
            progress: None,
            logs: Vec::new(),
            required_space: None,
            available_space: None,
        };
        assert(app@.logs =~= Seq::<Seq<char>>::empty());
        app
    }

    /// Appends a line to the log and drops the oldest line once the log
    /// holds more than it keeps.
    pub fn add_log(&mut self, msg: String)
        ensures
            final(self)@ == (AppView { logs: log_added(old(self)@.logs, msg@), ..old(self)@ }),
            final(self).state == old(self).state,
            final(self).error == old(self).error,
    {
        self.logs.push(msg);
        if self.logs.len() > LOG_CAPACITY {
            self.logs.remove(0);
        }
        assert(self@.logs =~= log_added(old(self)@.logs, msg@));
    }

    /// Takes in one update.
    pub fn apply(&mut self, update: AppUpdate)
        ensures
            final(self)@ == old(self)@.applied(update@),
            final(self).state == old(self).state,
            final(self).error == old(self).error,
    {
        match update {
            AppUpdate::Progress(progress) => {
                self.progress = progress;
            },
            AppUpdate::SourceSize(required) => {
                self.required_space = Some(required);
            },
            AppUpdate::DestDriveAvailable(available) => {
                self.available_space = Some(available);
            },
            AppUpdate::Log(line) => {
                self.add_log(line);
            },
            AppUpdate::StepStatusChanged => {},
            AppUpdate::Idle => {},
        }
    }

    /// Takes in every update that waits in `ctx`, oldest first, without
    /// blocking, and leaves none behind.
    pub fn poll(&mut self, ctx: &mut Context)
        ensures
            final(self)@ == old(self)@.applied_all(old(ctx)@.updates),
            final(ctx)@ == (ContextView { updates: Seq::<UpdateView>::empty(), ..old(ctx)@ }),
            final(self).state == old(self).state,
            final(self).error == old(self).error,
    {
        loop
            invariant
                self@.applied_all(ctx@.updates) == old(self)@.applied_all(old(ctx)@.updates),
                ctx@ == (ContextView { updates: ctx@.updates, ..old(ctx)@ }),
                self.state == old(self).state,
                self.error == old(self).error,
            ensures
                ctx@.updates.len() == 0,
            decreases ctx@.updates.len(),
        {
            let ghost before = ctx@.updates;
            match ctx.try_recv() {
                None => {
                    break ;
                },
                Some(update) => {
                    assert(ctx@.updates =~= before.drop_first());
                    self.apply(update);
                },
            }
        }
        assert(ctx@.updates =~= Seq::<UpdateView>::empty());
    }

    /// The banner: the error where there is one, else the state where there
    /// is one.
    pub fn banner(&self) -> (banner: Banner)
        ensures
            banner@ == match (self.error, self.state) {
                (Some(error), _) => BannerView::Error(error@),
                (None, Some(state)) => BannerView::Working(state@),
                (None, None) => BannerView::Clear,
            },
    {
        match &self.error {
            Some(error) => Banner::Error(error.clone()),
            None => match &self.state {
                Some(state) => Banner::Working(state.clone()),
                None => Banner::Clear,
            },
        }
    }

    /// Whether anything stands above the rest of the screen: a banner or the
    /// progress indicator.
    pub fn has_banner(&self) -> (shown: bool)
        ensures
            shown == (self.error.is_some() || self.state.is_some() || self@.progress.is_some()),
    {
        self.error.is_some() || self.state.is_some() || self.progress.is_some()
    }

    /// Whether the destination's drive has more free space than the source
    /// needs; a size that is not known counts as zero.
    pub fn has_enough_space(&self) -> (enough: bool)
        ensures
            enough == self@.has_enough_space(),
    {
        let required: u64 = match self.required_space {
            Some(n) => n,
            None => 0,
        };
        let available: u64 = match self.available_space {
            Some(n) => n,
            None => 0,
        };
        available > required
    }

    /// The lines of the log that are shown: the newest first, and no more
    /// than are shown at once.
    pub fn visible_logs(&self) -> (shown: Vec<String>)
        ensures
            shown@.len() == if self@.logs.len() < LOG_SHOWN {
                self@.logs.len()
            } else {
                LOG_SHOWN as nat
            },
            forall|i: int|
                0 <= i < shown@.len() ==> (#[trigger] shown@[i])@ == self@.logs[self@.logs.len() - 1
                    - i],
    {
        let mut shown: Vec<String> = Vec::new();
        let n = self.logs.len();
        let mut i: usize = 0;
        while i < n && i < LOG_SHOWN
            invariant
                n == self.logs@.len(),
                i <= n,
                i <= LOG_SHOWN,
                shown@.len() == i,
                forall|j: int|
                    0 <= j < i ==> (#[trigger] shown@[j])@ == self@.logs[self@.logs.len() - 1 - j],
            decreases n - i,
        {
            shown.push(self.logs[n - 1 - i].clone());
            i += 1;
        }
        shown
    }
}

} // verus!
