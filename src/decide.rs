use vstd::prelude::*;

use crate::select::{
    other_host_selection_of, select_format, select_format_for_other_host, selection_of,
    ProbeResult, SelectionOutcome,
};
use crate::hosts::{host_of, is_recognized_url_text};
use crate::text::{contains_text, seq_contains};

verus! {

/// The formats of a URL are probed only on a recognized host, and only
/// when probing is not skipped.
pub fn should_probe(recognized: bool, skip_probe: bool) -> (r: bool)
    ensures
        r == (recognized && !skip_probe),
{
    recognized && !skip_probe
}

/// The outcome for one URL: the probe's result is used on a recognized
/// host, where `None` stands for a skipped or failed probe; any other host
/// gets the plain policy.
pub fn choose_format(recognized: bool, probe: Option<ProbeResult>, force_best_quality: bool) -> (r:
    SelectionOutcome)
    ensures
        recognized ==> r@ == selection_of(probe, force_best_quality),
        !recognized ==> r@ == other_host_selection_of(force_best_quality),
{
    if recognized {
        select_format(probe, force_best_quality)
    } else {
        select_format_for_other_host(force_best_quality)
    }
}

/// The outcome for a URL, as `choose_format` gives it once the host is
/// classified.
pub open spec fn outcome_for_url(
    url: Seq<char>,
    probe: Option<ProbeResult>,
    force_best_quality: bool,
) -> (Seq<char>, bool, bool) {
    if is_recognized_url_text(url) {
        selection_of(probe, force_best_quality)
    } else {
        other_host_selection_of(force_best_quality)
    }
}

/// URLs on `www.youtube.com` and `youtu.be` are handled as the video
/// service's; a URL on any other host, or with no host, gets `best`, or
/// best video and audio when the best quality is forced, with no notice.
pub proof fn lemma_domain_classification(
    url: Seq<char>,
    probe: Option<ProbeResult>,
    force_best_quality: bool,
)
    ensures
        host_of(url) == Some("www.youtube.com"@) ==> is_recognized_url_text(url),
        host_of(url) == Some("youtu.be"@) ==> is_recognized_url_text(url),
        !is_recognized_url_text(url) ==> outcome_for_url(url, probe, force_best_quality) == (
            if force_best_quality {
                "bestvideo+bestaudio/best"@
            } else {
                "best"@
            },
            false,
            false,
        ),
{
}

/// Whether the accelerator downloads a URL: always when forced; otherwise
/// when it is enabled and present, and the URL is not on the recognized
/// host, which limits the rate of segmented downloads.
pub fn use_accelerator(forced: bool, available: bool, recognized: bool) -> (r: bool)
    ensures
        r == (forced || (available && !recognized)),
{
    if forced {
        true
    } else if available {
        !recognized
    } else {
        false
    }
}

/// Forcing the accelerator on the recognized host deserves a warning.
pub fn warn_forced_accelerator(forced: bool, recognized: bool) -> (r: bool)
    ensures
        r == (forced && recognized),
{
    forced && recognized
}

/// The downloader's update check reports a newer release.
pub open spec fn reports_outdated_text(out: Seq<char>) -> bool {
    seq_contains(out, "Latest version:"@) && seq_contains(out, "Current version:"@)
        && !seq_contains(out, "yt-dlp is up to date"@)
}

/// Whether the output of the downloader's update check reports a newer
/// release: it names both versions and does not say it is up to date.
pub fn reports_outdated(out: &str) -> (r: bool)
    ensures
        r == reports_outdated_text(out@),
{
    contains_text(out, "Latest version:") && contains_text(out, "Current version:")
        && !contains_text(out, "yt-dlp is up to date")
}

} // verus!
