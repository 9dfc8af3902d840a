use vstd::prelude::*;

use crate::select::ProbeResult;
use crate::text::{has_prefix, same_text};

verus! {

/// One format that a video host offers for a URL.
#[derive(Clone, Debug)]
pub struct FormatDescriptor {
    /// Opaque identifier of the encoding variant.
    pub id: String,
    /// Container, such as `mp4` or `webm`.
    pub container: String,
    /// Height in pixels; 0 when unknown or audio only.
    pub height: u64,
    /// Video codec; `none` for an audio-only format.
    pub video_codec: String,
}

/// What a format is, as the contracts see it.
pub struct FormatView {
    pub id: Seq<char>,
    pub container: Seq<char>,
    pub height: u64,
    pub video_codec: Seq<char>,
}

impl View for FormatDescriptor {
    type V = FormatView;

    open spec fn view(&self) -> FormatView {
        FormatView {
            id: self.id@,
            container: self.container@,
            height: self.height,
            video_codec: self.video_codec@,
        }
    }
}

/// The fields that a probe reports for one format, each possibly absent:
/// identifier, container, height, video codec.
pub type FieldsView = (Option<Seq<char>>, Option<Seq<char>>, Option<u64>, Option<Seq<char>>);

pub open spec fn text_or_empty_view(s: Option<Seq<char>>) -> Seq<char> {
    match s {
        Some(t) => t,
        None => Seq::empty(),
    }
}

/// The format that reported fields describe: an absent text field is
/// empty, an absent height 0.
pub open spec fn format_of_fields(e: FieldsView) -> FormatView {
    FormatView {
        id: text_or_empty_view(e.0),
        container: text_or_empty_view(e.1),
        height: match e.2 {
            Some(h) => h,
            None => 0,
        },
        video_codec: text_or_empty_view(e.3),
    }
}

pub open spec fn opt_text_view(s: Option<&str>) -> Option<Seq<char>> {
    match s {
        Some(t) => Some(t@),
        None => None,
    }
}

pub open spec fn views_of(fs: Seq<FormatDescriptor>) -> Seq<FormatView> {
    fs.map_values(|d: FormatDescriptor| d@)
}

/// The heuristics that mark a format as throttled by the host. Kept as
/// data so that a change in the host's behaviour is a change of table.
#[derive(Clone, Debug)]
pub struct ThrottleTable {
    /// Revision of the table, raised on each update.
    pub revision: u64,
    /// Identifiers known to be throttled.
    pub throttled_ids: Vec<String>,
    /// Container whose formats are throttled for some codecs.
    pub throttled_container: String,
    /// Codec prefixes throttled in `throttled_container`.
    pub throttled_codec_prefixes: Vec<String>,
}

pub open spec fn is_mp4_under_1080(d: FormatView) -> bool {
    d.container == "mp4"@ && 0 < d.height && d.height <= 1080
}

pub open spec fn has_mp4_under_1080(fs: Seq<FormatView>) -> bool {
    exists|i: int| 0 <= i < fs.len() && is_mp4_under_1080(#[trigger] fs[i])
}

/// A format that carries video.
pub open spec fn is_video(d: FormatView) -> bool {
    d.video_codec != "none"@
}

/// `fs[i]` is the best format: the first of the tallest video formats,
/// taller than 0.
pub open spec fn is_best(fs: Seq<FormatView>, i: int) -> bool {
    &&& 0 <= i < fs.len()
    &&& is_video(fs[i])
    &&& fs[i].height > 0
    &&& forall|j: int| 0 <= j < i && is_video(#[trigger] fs[j]) ==> fs[j].height < fs[i].height
    &&& forall|j: int| 0 <= j < fs.len() && is_video(#[trigger] fs[j]) ==> fs[j].height <= fs[i].height
}

pub open spec fn lists_id(table: ThrottleTable, id: Seq<char>) -> bool {
    exists|k: int| 0 <= k < table.throttled_ids@.len() && (#[trigger] table.throttled_ids@[k])@ == id
}

pub open spec fn has_throttled_codec(table: ThrottleTable, codec: Seq<char>) -> bool {
    exists|k: int|
        0 <= k < table.throttled_codec_prefixes@.len()
            && (#[trigger] table.throttled_codec_prefixes@[k])@.is_prefix_of(codec)
}

/// What `table` says of one format.
pub open spec fn is_throttled(table: ThrottleTable, d: FormatView) -> bool {
    lists_id(table, d.id) || (d.container == table.throttled_container@
        && has_throttled_codec(table, d.video_codec))
}

pub open spec fn best_is_throttled(table: ThrottleTable, fs: Seq<FormatView>) -> bool {
    exists|i: int| is_best(fs, i) && is_throttled(table, fs[i])
}

/// The summary of a list of formats under `table`.
pub open spec fn summary_of(table: ThrottleTable, fs: Seq<FormatView>) -> ProbeResult {
    ProbeResult {
        has_mp4_under_1080: has_mp4_under_1080(fs),
        best_is_throttled: best_is_throttled(table, fs),
    }
}

/// The table as the host behaves today.
pub fn default_throttle_table() -> (r: ThrottleTable)
    ensures
        r.revision == 1,
        r.throttled_ids@.map_values(|s: String| s@) == seq![
            "313"@,
            "248"@,
            "271"@,
            "308"@,
            "315"@,
        ],
        r.throttled_container@ == "webm"@,
        r.throttled_codec_prefixes@.map_values(|s: String| s@) == seq!["vp9"@, "av01"@],
{
    let ids = vec![
        "313".to_string(),
        "248".to_string(),
        "271".to_string(),
        "308".to_string(),
        "315".to_string(),
    ];
    let prefixes = vec!["vp9".to_string(), "av01".to_string()];
    let r = ThrottleTable {
        revision: 1,
        throttled_ids: ids,
        throttled_container: "webm".to_string(),
        throttled_codec_prefixes: prefixes,
    };
    assert(r.throttled_ids@.map_values(|s: String| s@) =~= seq![
        "313"@,
        "248"@,
        "271"@,
        "308"@,
        "315"@,
    ]);
    assert(r.throttled_codec_prefixes@.map_values(|s: String| s@) =~= seq!["vp9"@, "av01"@]);
    r
}

/// Builds a format from the fields a probe reported, an absent text
/// field being empty and an absent height 0.
pub fn descriptor_from_fields(
    id: Option<&str>,
    container: Option<&str>,
    height: Option<u64>,
    video_codec: Option<&str>,
) -> (r: FormatDescriptor)
    ensures
        r@ == format_of_fields(
            (opt_text_view(id), opt_text_view(container), height, opt_text_view(video_codec)),
        ),
{
    FormatDescriptor {
        id: text_or_empty(id),
        container: text_or_empty(container),
        height: match height { Some(h) => h, None => 0 },
        video_codec: text_or_empty(video_codec),
    }
}

fn text_or_empty(s: Option<&str>) -> (r: String)
    ensures
        r@ == (match s { Some(t) => t@, None => Seq::empty() }),
{
    match s {
        Some(t) => t.to_string(),
        None => String::new(),
    }
}

/// Whether `table` marks `d` as throttled.
pub fn classify_throttled(table: &ThrottleTable, d: &FormatDescriptor) -> (r: bool)
    ensures
        r == is_throttled(*table, d@),
{
    let mut k: usize = 0;
    while k < table.throttled_ids.len()
        invariant
            forall|j: int| 0 <= j < k ==> (#[trigger] table.throttled_ids@[j])@ != d.id@,
        decreases table.throttled_ids@.len() - k,
    {
        if same_text(table.throttled_ids[k].as_str(), d.id.as_str()) {
            assert(lists_id(*table, d.id@));
            return true;
        }
        k = k + 1;
    }
    if !same_text(d.container.as_str(), table.throttled_container.as_str()) {
        return false;
    }
    let mut k: usize = 0;
    while k < table.throttled_codec_prefixes.len()
        invariant
            d.container@ == table.throttled_container@,
            !lists_id(*table, d.id@),
            forall|j: int|
                0 <= j < k ==> !(#[trigger] table.throttled_codec_prefixes@[j])@.is_prefix_of(
                    d.video_codec@,
                ),
        decreases table.throttled_codec_prefixes@.len() - k,
    {
        if has_prefix(d.video_codec.as_str(), table.throttled_codec_prefixes[k].as_str()) {
            assert(has_throttled_codec(*table, d.video_codec@));
            return true;
        }
        k = k + 1;
    }
    false
}

/// Summarizes a list of formats: whether an mp4 of at most 1080 lines is
/// offered, and whether the best video format is throttled. Among video
/// formats of equal height the first listed is the best.
pub fn summarize_formats(table: &ThrottleTable, formats: &Vec<FormatDescriptor>) -> (r: ProbeResult)
    ensures
        r == summary_of(*table, views_of(formats@)),
{
    let fs = Ghost(views_of(formats@));
    let mut has_mp4 = false;
    let mut best: Option<usize> = None;
    let mut best_height: u64 = 0;
    let mut i: usize = 0;
    while i < formats.len()
        invariant
            fs@ == views_of(formats@),
            i <= fs@.len(),
            has_mp4 == exists|j: int| 0 <= j < i && is_mp4_under_1080(#[trigger] fs@[j]),
            match best {
                Some(b) => b < i && is_best(fs@.subrange(0, i as int), b as int) && best_height
                    == fs@[b as int].height,
                None => best_height == 0 && forall|j: int|
                    0 <= j < i && is_video(#[trigger] fs@[j]) ==> fs@[j].height == 0,
            },
        decreases fs@.len() - i,
    {
        let d = &formats[i];
        if same_text(d.container.as_str(), "mp4") && d.height <= 1080 && d.height > 0 {
            has_mp4 = true;
        }
        if !same_text(d.video_codec.as_str(), "none") && d.height > best_height {
            best = Some(i);
            best_height = d.height;
        }
        proof {
            let pre = fs@.subrange(0, i as int);
            let cur = fs@.subrange(0, i + 1);
            assert forall|j: int| 0 <= j < i implies cur[j] == pre[j] by {}
            assert(cur[i as int] == fs@[i as int]);
        }
        i = i + 1;
    }
    let best_throttled = match best {
        Some(b) => classify_throttled(table, &formats[b]),
        None => false,
    };
    proof {
        assert(fs@.subrange(0, fs@.len() as int) =~= fs@);
        match best {
            Some(b) => {
                assert forall|x: int| is_best(fs@, x) implies x == b by {}
            },
            None => {
                assert forall|x: int| !is_best(fs@, x) by {
                    if 0 <= x < fs@.len() && is_video(fs@[x]) {}
                }
            },
        }
    }
    ProbeResult { has_mp4_under_1080: has_mp4, best_is_throttled: best_throttled }
}

} // verus!
