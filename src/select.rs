use vstd::prelude::*;

verus! {

/// What a probe of the available formats found.
#[derive(Clone, Copy, Debug, PartialEq, Eq, Structural)]
pub struct ProbeResult {
    /// At least one mp4 format with a height in `1..=1080`.
    pub has_mp4_under_1080: bool,
    /// The tallest video format is a known-throttled one.
    pub best_is_throttled: bool,
}

/// The format expression for the downloader, with two advisory flags.
#[derive(Clone, Debug)]
pub struct SelectionOutcome {
    pub format_expression: String,
    pub warn_throttled: bool,
    pub downgraded: bool,
}

impl SelectionOutcome {
    pub open spec fn view(&self) -> (Seq<char>, bool, bool) {
        (self.format_expression@, self.warn_throttled, self.downgraded)
    }
}

/// Best video with best audio, nothing to fall back on.
pub open spec fn best_pair_expr() -> Seq<char> {
    "bestvideo+bestaudio"@
}

/// Best video with best audio, or the best single file.
pub open spec fn best_or_single_expr() -> Seq<char> {
    "bestvideo+bestaudio/best"@
}

/// mp4 video no taller than 1080 with m4a audio, or the best mp4 file.
pub open spec fn mp4_capped_expr() -> Seq<char> {
    "bestvideo[ext=mp4][height<=1080]+bestaudio[ext=m4a]/best[ext=mp4]"@
}

/// The best single file.
pub open spec fn single_best_expr() -> Seq<char> {
    "best"@
}

/// The selection policy for a recognized video host: expression, throttle
/// warning, downgrade notice.
pub open spec fn selection_of(probe: Option<ProbeResult>, force_best_quality: bool) -> (
    Seq<char>,
    bool,
    bool,
) {
    match probe {
        Some(p) => if force_best_quality {
            (best_pair_expr(), p.best_is_throttled, false)
        } else if p.best_is_throttled && p.has_mp4_under_1080 {
            (mp4_capped_expr(), false, true)
        } else if p.best_is_throttled {
            (best_or_single_expr(), true, false)
        } else {
            (best_or_single_expr(), false, false)
        },
        None => if force_best_quality {
            (best_or_single_expr(), false, false)
        } else {
            (mp4_capped_expr(), false, false)
        },
    }
}

/// The policy for any other host: no probe, no warnings.
pub open spec fn other_host_selection_of(force_best_quality: bool) -> (Seq<char>, bool, bool) {
    if force_best_quality {
        (best_or_single_expr(), false, false)
    } else {
        (single_best_expr(), false, false)
    }
}

fn outcome(expr: &str, warn_throttled: bool, downgraded: bool) -> (r: SelectionOutcome)
    ensures
        r@ == (expr@, warn_throttled, downgraded),
{
    SelectionOutcome { format_expression: expr.to_string(), warn_throttled, downgraded }
}

/// Selects the format for a recognized host from what a probe found.
pub fn select_format(probe: Option<ProbeResult>, force_best_quality: bool) -> (r: SelectionOutcome)
    ensures
        r@ == selection_of(probe, force_best_quality),
{
    match probe {
        Some(p) => {
            if force_best_quality {
                outcome("bestvideo+bestaudio", p.best_is_throttled, false)
            } else if p.best_is_throttled && p.has_mp4_under_1080 {
                outcome(
                    "bestvideo[ext=mp4][height<=1080]+bestaudio[ext=m4a]/best[ext=mp4]",
                    false,
                    true,
                )
            } else {
                outcome("bestvideo+bestaudio/best", p.best_is_throttled, false)
            }
        },
        None => select_format_without_probe(force_best_quality),
    }
}

/// Selects the format for a recognized host when no probe was made or the
/// probe failed.
pub fn select_format_without_probe(force_best_quality: bool) -> (r: SelectionOutcome)
    ensures
        r@ == selection_of(None, force_best_quality),
{
    if force_best_quality {
        outcome("bestvideo+bestaudio/best", false, false)
    } else {
        outcome("bestvideo[ext=mp4][height<=1080]+bestaudio[ext=m4a]/best[ext=mp4]", false, false)
    }
}

/// Selects the format for a host that is not recognized.
pub fn select_format_for_other_host(force_best_quality: bool) -> (r: SelectionOutcome)
    ensures
        r@ == other_host_selection_of(force_best_quality),
{
    if force_best_quality {
        outcome("bestvideo+bestaudio/best", false, false)
    } else {
        outcome("best", false, false)
    }
}

/// Without a throttled best format, the selector neither warns nor
/// downgrades unless the best quality is forced.
pub proof fn lemma_unthrottled_needs_no_notice(p: ProbeResult)
    requires
        !p.best_is_throttled,
    ensures
        !selection_of(Some(p), false).1,
        !selection_of(Some(p), false).2,
{
}

/// Forcing the best quality asks for best video and audio, with the
/// single-file fallback only when nothing was probed, and never downgrades.
pub proof fn lemma_forced_best_quality(probe: Option<ProbeResult>)
    ensures
        probe is Some ==> selection_of(probe, true).0 == best_pair_expr(),
        probe is None ==> selection_of(probe, true).0 == best_or_single_expr(),
        !selection_of(probe, true).2,
        !other_host_selection_of(true).2,
{
}

/// The selector is a function of its inputs: two outcomes that meet its
/// contract on the same inputs are equal.
pub proof fn lemma_selection_deterministic(
    probe: Option<ProbeResult>,
    force_best_quality: bool,
    a: SelectionOutcome,
    b: SelectionOutcome,
)
    requires
        a@ == selection_of(probe, force_best_quality),
        b@ == selection_of(probe, force_best_quality),
    ensures
        a@ == b@,
{
}

} // verus!
