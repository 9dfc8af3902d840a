use vstd::prelude::*;

use crate::text::same_text;

verus! {

/// The characters with the Unicode White_Space property.
pub open spec fn is_white_space(c: char) -> bool {
    ('\u{9}' <= c && c <= '\u{d}') || c == ' ' || c == '\u{85}' || c == '\u{a0}' || c
        == '\u{1680}' || ('\u{2000}' <= c && c <= '\u{200a}') || c == '\u{2028}' || c == '\u{2029}'
        || c == '\u{202f}' || c == '\u{205f}' || c == '\u{3000}'
}

/// A line with nothing but white space.
pub open spec fn is_blank(line: Seq<char>) -> bool {
    forall|i: int| 0 <= i < line.len() ==> is_white_space(#[trigger] line[i])
}

/// A line that starts with `#`.
pub open spec fn is_comment(line: Seq<char>) -> bool {
    line.len() > 0 && line[0] == '#'
}

/// A line of a list file that names a URL: neither blank nor a comment.
pub open spec fn is_url_line_text(line: Seq<char>) -> bool {
    !is_blank(line) && !is_comment(line)
}

pub open spec fn views(lines: Seq<String>) -> Seq<Seq<char>> {
    lines.map_values(|s: String| s@)
}

/// The lines that name URLs, in order.
pub open spec fn url_lines_of(lines: Seq<String>) -> Seq<Seq<char>> {
    views(lines).filter(|l: Seq<char>| is_url_line_text(l))
}

pub fn is_white_space_char(c: char) -> (r: bool)
    ensures
        r == is_white_space(c),
{
    ('\u{9}' <= c && c <= '\u{d}') || c == ' ' || c == '\u{85}' || c == '\u{a0}' || c
        == '\u{1680}' || ('\u{2000}' <= c && c <= '\u{200a}') || c == '\u{2028}' || c == '\u{2029}'
        || c == '\u{202f}' || c == '\u{205f}' || c == '\u{3000}'
}

/// Whether a line of a list file names a URL.
pub fn is_url_line(line: &str) -> (r: bool)
    ensures
        r == is_url_line_text(line@),
{
    let n = line.unicode_len();
    if n > 0 && line.get_char(0) == '#' {
        return false;
    }
    let mut i: usize = 0;
    while i < n
        invariant
            n == line@.len(),
            i <= n,
            !is_comment(line@),
            forall|j: int| 0 <= j < i ==> is_white_space(#[trigger] line@[j]),
        decreases n - i,
    {
        if !is_white_space_char(line.get_char(i)) {
            return true;
        }
        i = i + 1;
    }
    false
}

/// The lines of a list file that name URLs, in order.
pub fn url_lines(lines: &Vec<String>) -> (r: Vec<String>)
    ensures
        views(r@) == url_lines_of(lines@),
{
    let mut r: Vec<String> = Vec::new();
    let mut i: usize = 0;
    while i < lines.len()
        invariant
            i <= lines@.len(),
            views(r@) == views(lines@.subrange(0, i as int)).filter(
                |l: Seq<char>| is_url_line_text(l),
            ),
        decreases lines@.len() - i,
    {
        let keep = is_url_line(lines[i].as_str());
        let ghost before = r@;
        if keep {
            r.push(lines[i].clone());
        }
        proof {
            let pre = views(lines@.subrange(0, i as int));
            let cur = views(lines@.subrange(0, i + 1));
            assert(cur.drop_last() =~= pre);
            assert(cur.last() == lines@[i as int]@);
            reveal(Seq::filter);
            if keep {
                assert(views(r@) =~= views(before).push(lines@[i as int]@));
            }
        }
        i = i + 1;
    }
    assert(lines@.subrange(0, lines@.len() as int) =~= lines@);
    r
}

/// Where a list file's downloads go: `None` for the shared base
/// directory, which the list named `default` uses, else the subdirectory
/// named after the list.
pub fn output_subdir(list_name: &str) -> (r: Option<String>)
    ensures
        list_name@ == "default"@ ==> r is None,
        list_name@ != "default"@ ==> r is Some && r->Some_0@ == list_name@,
{
    if same_text(list_name, "default") {
        None
    } else {
        Some(list_name.to_string())
    }
}

/// A list names no URL exactly when it holds nothing but comment and
/// blank lines.
pub proof fn lemma_comments_name_no_urls(lines: Seq<String>)
    ensures
        url_lines_of(lines).len() == 0 <==> forall|i: int|
            0 <= i < lines.len() ==> is_blank((#[trigger] lines[i])@) || is_comment(lines[i]@),
    decreases lines.len(),
{
    reveal(Seq::filter);
    if lines.len() > 0 {
        let front = lines.drop_last();
        lemma_comments_name_no_urls(front);
        assert(views(lines).drop_last() =~= views(front));
        assert(views(lines).last() == lines[lines.len() - 1]@);
        assert forall|i: int| 0 <= i < front.len() implies #[trigger] front[i] == lines[i] by {}
        let f = |l: Seq<char>| is_url_line_text(l);
        views(front).lemma_filter_len(f);
        if url_lines_of(lines).len() == 0 {
            assert(!is_url_line_text(views(lines).last()));
            assert forall|i: int| 0 <= i < lines.len() implies is_blank((#[trigger] lines[i])@)
                || is_comment(lines[i]@) by {
                if i < front.len() {
                    assert(front[i] == lines[i]);
                }
            }
        }
    }
}

/// Some list names a URL.
pub open spec fn some_list_names_urls(lists: Seq<Vec<String>>) -> bool {
    exists|i: int| 0 <= i < lists.len() && url_lines_of((#[trigger] lists[i])@).len() > 0
}

/// Whether any of the lists names a URL; when none does, the run has
/// nothing to download.
pub fn any_url_lines(lists: &Vec<Vec<String>>) -> (r: bool)
    ensures
        r == some_list_names_urls(lists@),
{
    let mut i: usize = 0;
    while i < lists.len()
        invariant
            i <= lists@.len(),
            forall|j: int| 0 <= j < i ==> url_lines_of((#[trigger] lists@[j])@).len() == 0,
        decreases lists@.len() - i,
    {
        let found = url_lines(&lists[i]);
        if found.len() > 0 {
            assert(views(found@).len() == found@.len());
            assert(url_lines_of(lists@[i as int]@).len() > 0);
            return true;
        }
        assert(views(found@).len() == found@.len());
        i = i + 1;
    }
    false
}

/// The run finds no URL to download exactly when every list holds
/// nothing but comment and blank lines.
pub proof fn lemma_no_urls_iff_all_lists_empty(lists: Seq<Vec<String>>)
    ensures
        !some_list_names_urls(lists) <==> (forall|i: int|
            0 <= i < lists.len() ==> forall|k: int|
                0 <= k < (#[trigger] lists[i])@.len() ==> is_blank((#[trigger] lists[i]@[k])@)
                    || is_comment(lists[i]@[k]@)),
{
    assert forall|i: int| 0 <= i < lists.len() implies (url_lines_of((#[trigger] lists[i])@).len()
        == 0 <==> forall|k: int|
        0 <= k < lists[i]@.len() ==> is_blank((#[trigger] lists[i]@[k])@) || is_comment(
            lists[i]@[k]@,
        )) by {
        lemma_comments_name_no_urls(lists[i]@);
    }
}

} // verus!
