//! Progress of a copy, measured by how far the destination has grown towards
//! the size of the source.

use vstd::prelude::*;
use vstd::string::*;
use crate::ctx::{Context, ContextView};
use crate::event::{AppUpdate, ProgressUpdate, UpdateView};

verus! {

/// Milliseconds between two samples.
pub const SAMPLE_INTERVAL_MS: u64 = 500;

/// The fraction `current / total` in thousandths, rounded down and never
/// above 1000. A destination that has outgrown the total, and a total of
/// zero, both count as done.
pub open spec fn spec_permille(current: u64, total: u64) -> int {
    if total == 0 || current >= total {
        1000
    } else {
        (current as int * 1000) / (total as int)
    }
}

/// Clamping: the fraction is between 0 and 1000 thousandths for every pair
/// of sizes, and reaches 1000 only where the destination is at least as large
/// as the total.
pub proof fn lemma_permille_clamped(current: u64, total: u64)
    ensures
        0 <= spec_permille(current, total) <= 1000,
        spec_permille(current, total) == 1000 <==> (total == 0 || current >= total),
{
    if total != 0 && current < total {
        let c = current as int;
        let t = total as int;
        assert(0 <= (c * 1000) / t < 1000) by (nonlinear_arith)
            requires
                0 <= c < t,
        ;
    }
}

/// The fraction `current / total` in thousandths: see [`spec_permille`].
pub fn progress_permille(current: u64, total: u64) -> (permille: u16)
    ensures
        permille == spec_permille(current, total),
        permille <= 1000,
{
    proof {
        lemma_permille_clamped(current, total);
    }
    if total == 0 || current >= total {
        1000
    } else {
        let scaled: u128 = (current as u128) * 1000;
        (scaled / (total as u128)) as u16
    }
}

/// The decimal digit `d` as text.
pub open spec fn digit_text(d: int) -> Seq<char> {
    if d == 0 {
        "0"@
    } else if d == 1 {
        "1"@
    } else if d == 2 {
        "2"@
    } else if d == 3 {
        "3"@
    } else if d == 4 {
        "4"@
    } else if d == 5 {
        "5"@
    } else if d == 6 {
        "6"@
    } else if d == 7 {
        "7"@
    } else if d == 8 {
        "8"@
    } else {
        "9"@
    }
}

/// The number `n` in decimal, without leading zeros.
pub open spec fn decimal_text(n: nat) -> Seq<char>
    decreases n,
{
    if n < 10 {
        digit_text(n as int)
    } else {
        decimal_text(n / 10) + digit_text((n % 10) as int)
    }
}

/// The label of the progress indicator: the percentage with one decimal.
pub open spec fn progress_label(permille: int) -> Seq<char> {
    "Copying... "@ + decimal_text((permille / 10) as nat) + "."@ + digit_text(permille % 10)
        + "%"@
}

fn digit(d: u16) -> (text: &'static str)
    requires
        d < 10,
    ensures
        text@ == digit_text(d as int),
{
    if d == 0 {
        "0"
    } else if d == 1 {
        "1"
    } else if d == 2 {
        "2"
    } else if d == 3 {
        "3"
    } else if d == 4 {
        "4"
    } else if d == 5 {
        "5"
    } else if d == 6 {
        "6"
    } else if d == 7 {
        "7"
    } else if d == 8 {
        "8"
    } else {
        "9"
    }
}

/// The number `n` in decimal, without leading zeros.
pub fn decimal(n: u16) -> (text: String)
    ensures
        text@ == decimal_text(n as nat),
    decreases n,
{
    if n < 10 {
        String::from_str(digit(n))
    } else {
        let mut text = decimal(n / 10);
        text.append(digit(n % 10));
        text
    }
}

/// The update that shows `current` of `total` bytes on the indicator.
pub fn progress_update(current: u64, total: u64) -> (update: ProgressUpdate)
    ensures
        update.permille == spec_permille(current, total),
        update.permille <= 1000,
        update.label@ == progress_label(spec_permille(current, total)),
{
    let permille = progress_permille(current, total);
    let mut label = String::from_str("Copying... ");
    let whole = decimal(permille / 10);
    label.append(whole.as_str());
    label.append(".");
    label.append(digit(permille % 10));
    label.append("%");
    ProgressUpdate { label, permille }
}

/// What the sampler does after one look.
#[derive(Debug, Clone, Copy, PartialEq, Eq, Structural)]
pub enum SamplerAction {
    /// Look again after this many milliseconds.
    Wait(u64),
    /// The copy has ended: stop.
    Stop,
}

impl ContextView {
    /// The value after one look of the sampler.
    pub open spec fn sampled(self, complete: bool, dest_size: Option<u64>, total: u64)
        -> ContextView {
        if complete {
            self.with_update(UpdateView::Progress(None))
        } else {
            match dest_size {
                Some(current) => self.with_update(
                    UpdateView::Progress(
                        Some(
                            (
                                progress_label(spec_permille(current, total)),
                                spec_permille(current, total),
                            ),
                        ),
                    ),
                ),
                None => self,
            }
        }
    }
}

/// One look of the sampler, at the top of its loop. `complete` is the
/// completion flag as just read, `dest_size` the size of the destination as
/// just measured (`None` where measuring failed), `total` the size to reach.
///
/// Where the flag is set the indicator is cleared and the sampler stops.
/// Otherwise a measured size is shown as a fraction of the total, never above
/// the whole, and the sampler waits for the next interval.
pub fn sample_progress(ctx: &mut Context, complete: bool, dest_size: Option<u64>, total: u64) -> (action:
    SamplerAction)
    ensures
        final(ctx)@ == old(ctx)@.sampled(complete, dest_size, total),
        action == if complete {
            SamplerAction::Stop
        } else {
            SamplerAction::Wait(SAMPLE_INTERVAL_MS)
        },
{
    if complete {
        ctx.send(AppUpdate::Progress(None));
        SamplerAction::Stop
    } else {
        if let Some(current) = dest_size {
            ctx.send(AppUpdate::Progress(Some(progress_update(current, total))));
        }
        SamplerAction::Wait(SAMPLE_INTERVAL_MS)
    }
}

} // verus!
