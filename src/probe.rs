use vstd::prelude::*;

use serde_json::Value;

use crate::formats::{
    descriptor_from_fields, format_of_fields, summarize_formats, summary_of, views_of,
    FieldsView, FormatDescriptor, FormatView, ThrottleTable,
};
use crate::select::ProbeResult;

verus! {

/// `b` is a JSON document that serde_json reads as a value.
pub uninterp spec fn is_json_text(b: Seq<u8>) -> bool;

/// The entries of the array member `formats` of the JSON document `b`,
/// each read as its members `format_id`, `ext`, `height` and `vcodec`;
/// `None` where `b` is not JSON or has no such array.
pub uninterp spec fn json_formats(b: Seq<u8>) -> Option<Seq<FieldsView>>;

/// The fields of one entry as read from the JSON text.
pub type Fields = (Option<String>, Option<String>, Option<u64>, Option<String>);

pub open spec fn opt_string_view(s: Option<String>) -> Option<Seq<char>> {
    match s {
        Some(t) => Some(t@),
        None => None,
    }
}

pub open spec fn fields_view(e: Fields) -> FieldsView {
    (opt_string_view(e.0), opt_string_view(e.1), e.2, opt_string_view(e.3))
}

/// Relies on serde_json::from_slice, Value::get, Value::as_array,
/// Value::as_str and Value::as_u64: `None` where `b` is not JSON; else the
/// entries of its `formats` array, `Some(None)` where that member is absent
/// or no array, and each field of an entry absent where it is missing or
/// of another type.
#[verifier::external_body]
fn read_format_fields(b: &[u8]) -> (r: Option<Option<Vec<Fields>>>)
    ensures
        r is Some <==> is_json_text(b@),
        r is None ==> json_formats(b@) is None,
        r is Some ==> (r->Some_0 is None <==> json_formats(b@) is None),
        r is Some && r->Some_0 is Some ==> json_formats(b@) == Some(
            r->Some_0->Some_0@.map_values(|e: Fields| fields_view(e)),
        ),
{
    let doc: Value = serde_json::from_slice(b).ok()?;
    let text = |f: &Value, k: &str| f.get(k).and_then(Value::as_str).map(String::from);
    let list = match doc.get("formats").and_then(Value::as_array) {
        Some(l) => l,
        None => return Some(None),
    };
    Some(Some(list.iter().map(|f| {
        (text(f, "format_id"), text(f, "ext"), f.get("height").and_then(Value::as_u64), text(f, "vcodec"))
    }).collect()))
}

/// Why a probe gave no information.
#[derive(Clone, Copy, Debug, PartialEq, Eq, Structural)]
pub enum ProbeError {
    /// The probe command did not succeed.
    Failed,
    /// Its output is not JSON.
    Unparsable,
    /// Its output holds no list of formats.
    NoFormats,
}

fn opt_str(s: &Option<String>) -> (r: Option<&str>)
    ensures
        match (r, *s) {
            (Some(a), Some(b)) => a@ == b@,
            (None, None) => true,
            _ => false,
        },
{
    match s {
        Some(t) => Some(t.as_str()),
        None => None,
    }
}

/// The formats that the probe's JSON output lists, in the order given.
pub open spec fn formats_listed(out: Seq<u8>) -> Option<Seq<FormatView>> {
    match json_formats(out) {
        Some(fs) => Some(fs.map_values(|e: FieldsView| format_of_fields(e))),
        None => None,
    }
}

/// Reads the format list of a probe's JSON output, in the order given.
pub fn formats_of_json(out: &[u8]) -> (r: Result<Vec<FormatDescriptor>, ProbeError>)
    ensures
        !is_json_text(out@) ==> r == Err::<Vec<FormatDescriptor>, ProbeError>(
            ProbeError::Unparsable,
        ),
        is_json_text(out@) && json_formats(out@) is None ==> r == Err::<
            Vec<FormatDescriptor>,
            ProbeError,
        >(ProbeError::NoFormats),
        json_formats(out@) is Some ==> r is Ok && Some(views_of(r->Ok_0@)) == formats_listed(
            out@,
        ),
{
    let entries = match read_format_fields(out) {
        Some(Some(es)) => es,
        Some(None) => return Err(ProbeError::NoFormats),
        None => return Err(ProbeError::Unparsable),
    };
    let ghost listed = entries@.map_values(|e: Fields| fields_view(e));
    let mut r: Vec<FormatDescriptor> = Vec::new();
    let mut i: usize = 0;
    while i < entries.len()
        invariant
            i <= entries@.len(),
            listed == entries@.map_values(|e: Fields| fields_view(e)),
            r@.len() == i,
            forall|j: int| 0 <= j < i ==> (#[trigger] r@[j])@ == format_of_fields(listed[j]),
        decreases entries@.len() - i,
    {
        let e = &entries[i];
        let d = descriptor_from_fields(opt_str(&e.0), opt_str(&e.1), e.2, opt_str(&e.3));
        r.push(d);
        i = i + 1;
    }
    assert(views_of(r@) =~= listed.map_values(|e: FieldsView| format_of_fields(e)));
    Ok(r)
}

/// Classifies what a probe returned: `succeeded` is whether the probe
/// command exited with success, `out` what it wrote. A probe that gives
/// no information is an error, never a summary.
pub fn extract_formats(succeeded: bool, out: &[u8], table: &ThrottleTable) -> (r: Result<
    ProbeResult,
    ProbeError,
>)
    ensures
        !succeeded ==> r == Err::<ProbeResult, ProbeError>(ProbeError::Failed),
        succeeded && !is_json_text(out@) ==> r == Err::<ProbeResult, ProbeError>(
            ProbeError::Unparsable,
        ),
        succeeded && is_json_text(out@) && json_formats(out@) is None ==> r == Err::<
            ProbeResult,
            ProbeError,
        >(ProbeError::NoFormats),
        succeeded && json_formats(out@) is Some ==> r == Ok::<ProbeResult, ProbeError>(
            summary_of(*table, formats_listed(out@)->Some_0),
        ),
{
    if !succeeded {
        return Err(ProbeError::Failed);
    }
    match formats_of_json(out) {
        Ok(fs) => Ok(summarize_formats(table, &fs)),
        Err(e) => Err(e),
    }
}

} // verus!
