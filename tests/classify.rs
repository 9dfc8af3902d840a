use vidbatch::formats::{
    classify_throttled, default_throttle_table, descriptor_from_fields, summarize_formats,
    FormatDescriptor, ThrottleTable,
};
use vidbatch::probe::{extract_formats, formats_of_json, ProbeError};

fn fmt(id: &str, ext: &str, height: u64, vcodec: &str) -> FormatDescriptor {
    descriptor_from_fields(Some(id), Some(ext), Some(height), Some(vcodec))
}

#[test]
fn default_table_contents() {
    let t = default_throttle_table();
    assert_eq!(t.throttled_ids, vec!["313", "248", "271", "308", "315"]);
    assert_eq!(t.throttled_container, "webm");
    assert_eq!(t.throttled_codec_prefixes, vec!["vp9", "av01"]);
}

#[test]
fn throttle_rules() {
    let t = default_throttle_table();
    assert!(classify_throttled(&t, &fmt("248", "mp4", 1080, "avc1")));
    assert!(classify_throttled(&t, &fmt("400", "webm", 1440, "av01.0.12M.08")));
    assert!(classify_throttled(&t, &fmt("400", "webm", 1440, "vp9")));
    assert!(!classify_throttled(&t, &fmt("400", "mp4", 1440, "vp9")));
    assert!(!classify_throttled(&t, &fmt("400", "webm", 1440, "vp8")));
    assert!(!classify_throttled(&t, &fmt("137", "mp4", 1080, "avc1.640028")));
}

#[test]
fn edited_table_changes_classification() {
    let t = ThrottleTable {
        revision: 2,
        throttled_ids: vec!["137".to_string()],
        throttled_container: "mp4".to_string(),
        throttled_codec_prefixes: vec!["avc1".to_string()],
    };
    assert!(classify_throttled(&t, &fmt("137", "webm", 1080, "x")));
    assert!(classify_throttled(&t, &fmt("1", "mp4", 1080, "avc1.64")));
    assert!(!classify_throttled(&t, &fmt("313", "webm", 1080, "vp9")));
}

#[test]
fn audio_only_is_never_best() {
    let t = default_throttle_table();
    let formats = vec![fmt("137", "mp4", 1080, "avc1"), fmt("313", "webm", 2160, "none")];
    let p = summarize_formats(&t, &formats);
    assert!(p.has_mp4_under_1080);
    assert!(!p.best_is_throttled);
}

#[test]
fn equal_heights_keep_the_first() {
    let t = default_throttle_table();
    let first_plain = vec![fmt("137", "mp4", 1080, "avc1"), fmt("248", "webm", 1080, "vp9")];
    assert!(!summarize_formats(&t, &first_plain).best_is_throttled);
    let first_throttled = vec![fmt("248", "webm", 1080, "vp9"), fmt("137", "mp4", 1080, "avc1")];
    assert!(summarize_formats(&t, &first_throttled).best_is_throttled);
}

#[test]
fn mp4_height_bounds() {
    let t = default_throttle_table();
    assert!(!summarize_formats(&t, &vec![fmt("1", "mp4", 0, "avc1")]).has_mp4_under_1080);
    assert!(!summarize_formats(&t, &vec![fmt("1", "mp4", 1081, "avc1")]).has_mp4_under_1080);
    assert!(summarize_formats(&t, &vec![fmt("1", "mp4", 1, "avc1")]).has_mp4_under_1080);
    assert!(summarize_formats(&t, &vec![fmt("1", "mp4", 1080, "none")]).has_mp4_under_1080);
}

#[test]
fn empty_format_list() {
    let t = default_throttle_table();
    let p = summarize_formats(&t, &vec![]);
    assert!(!p.has_mp4_under_1080);
    assert!(!p.best_is_throttled);
}

#[test]
fn absent_fields_take_defaults() {
    let d = descriptor_from_fields(None, None, None, None);
    assert_eq!(d.id, "");
    assert_eq!(d.container, "");
    assert_eq!(d.height, 0);
    assert_eq!(d.video_codec, "");
}

#[test]
fn probe_output_is_read() {
    let t = default_throttle_table();
    let out = br#"{"id":"x","formats":[
        {"format_id":"140","ext":"m4a","vcodec":"none","height":null},
        {"format_id":"313","ext":"webm","height":1080,"vcodec":"vp9.0"},
        {"format_id":"299","ext":"mp4","height":1080,"vcodec":"avc1"}]}"#;
    let fs = formats_of_json(out).unwrap();
    assert_eq!(fs.len(), 3);
    assert_eq!(fs[0].id, "140");
    assert_eq!(fs[0].height, 0);
    assert_eq!(fs[1].container, "webm");
    assert_eq!(fs[1].height, 1080);
    assert_eq!(fs[2].video_codec, "avc1");
    let p = extract_formats(true, out, &t).unwrap();
    assert!(p.has_mp4_under_1080);
    assert!(p.best_is_throttled);
}

#[test]
fn probe_output_errors() {
    let t = default_throttle_table();
    assert_eq!(extract_formats(true, b"not json", &t), Err(ProbeError::Unparsable));
    assert_eq!(extract_formats(true, br#"{"title":"x"}"#, &t), Err(ProbeError::NoFormats));
    assert_eq!(extract_formats(true, br#"{"formats":3}"#, &t), Err(ProbeError::NoFormats));
    assert_eq!(extract_formats(false, br#"{"formats":[]}"#, &t), Err(ProbeError::Failed));
    let p = extract_formats(true, br#"{"formats":[]}"#, &t).unwrap();
    assert!(!p.has_mp4_under_1080 && !p.best_is_throttled);
}

#[test]
fn probe_fields_of_other_types_are_absent() {
    let out = br#"{"formats":[{"format_id":313,"ext":"webm","height":"1080","vcodec":"vp9"}]}"#;
    let fs = formats_of_json(out).unwrap();
    assert_eq!(fs[0].id, "");
    assert_eq!(fs[0].height, 0);
}
