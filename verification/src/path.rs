//! Paths as text: joining, and the fixed layout of a draft entry.

use crate::date::DraftDate;
use crate::decimal::{
    four_digits, lemma_padded_four, lemma_padded_two, pad_number, padded, two_digits,
};
use vstd::prelude::*;

verus! {

/// The last component of `path` as `std::path::Path::file_name` gives it;
/// `None` where the path has none.
pub uninterp spec fn final_component(path: Seq<char>) -> Option<Seq<char>>;

/// `path` without its last component as `std::path::Path::parent` gives it;
/// `None` where nothing lies above the path.
pub uninterp spec fn parent_text(path: Seq<char>) -> Option<Seq<char>>;

/// `std::path::Path::file_name`, on text and back to text.  Claimed: the
/// result is a function of the path's text alone, named `final_component`.
#[verifier::external_body]
pub(crate) fn file_name(path: &str) -> (name: Option<String>)
    ensures
        match name {
            Some(n) => final_component(path@) == Some(n@),
            None => final_component(path@) is None,
        },
{
    match std::path::Path::new(path).file_name() {
        Some(name) => Some(name.to_string_lossy().into_owned()),
        None => None,
    }
}

/// `std::path::Path::parent`, on text and back to text.  Claimed: the
/// result is a function of the path's text alone, named `parent_text`.
#[verifier::external_body]
pub(crate) fn parent(path: &str) -> (dir: Option<String>)
    ensures
        match dir {
            Some(d) => parent_text(path@) == Some(d@),
            None => parent_text(path@) is None,
        },
{
    match std::path::Path::new(path).parent() {
        Some(dir) => Some(dir.to_string_lossy().into_owned()),
        None => None,
    }
}

/// Whether `path` starts at the root of the file system.
pub open spec fn is_absolute(path: Seq<char>) -> bool {
    path.len() > 0 && path[0] == '/'
}

/// `base` made ready to take a further segment: a `/` is added unless
/// `base` is empty or already ends in one.
pub open spec fn with_separator(base: Seq<char>) -> Seq<char> {
    if base.len() > 0 && base.last() != '/' {
        base.push('/')
    } else {
        base
    }
}

/// `rel` adjoined to `base`.  An absolute `rel` stands alone.
pub open spec fn joined(base: Seq<char>, rel: Seq<char>) -> Seq<char> {
    if is_absolute(rel) {
        rel
    } else {
        with_separator(base) + rel
    }
}

/// An entry's place below the drafts root:
/// `kind/year/month/day/slug`, the year filled to four characters, month
/// and day to two.
pub open spec fn entry_suffix(kind: Seq<char>, date: DraftDate, slug: Seq<char>) -> Seq<char> {
    kind + seq!['/'] + padded(date.year as int, 4) + seq!['/'] + padded(date.month as int, 2)
        + seq!['/'] + padded(date.day as int, 2) + seq!['/'] + slug
}

/// The directory of the entry `slug` of `kind`, filed under `date` below
/// `root`.
pub open spec fn entry_path(
    root: Seq<char>,
    kind: Seq<char>,
    date: DraftDate,
    slug: Seq<char>,
) -> Seq<char> {
    joined(root, entry_suffix(kind, date, slug))
}

/// The layout of an entry's path.  For a kind that is not empty and does
/// not start with `/`, and a date in the calendar's ranges whose year has at
/// most four digits, the path is the root, one separator, and then the
/// kind, the four digits of the year, the two of the month, the two of the
/// day and the slug, with `/` between them.
pub proof fn lemma_entry_layout(root: Seq<char>, kind: Seq<char>, date: DraftDate, slug: Seq<char>)
    requires
        kind.len() > 0,
        kind[0] != '/',
        date.wf(),
        0 <= date.year <= 9999,
    ensures
        entry_path(root, kind, date, slug) == with_separator(root) + kind + seq!['/']
            + four_digits(date.year as int) + seq!['/'] + two_digits(date.month as int)
            + seq!['/'] + two_digits(date.day as int) + seq!['/'] + slug,
        root.len() > 0 && root.last() != '/' ==> entry_path(root, kind, date, slug) == root
            + seq!['/'] + kind + seq!['/'] + four_digits(date.year as int) + seq!['/']
            + two_digits(date.month as int) + seq!['/'] + two_digits(date.day as int)
            + seq!['/'] + slug,
{
    lemma_padded_four(date.year as int);
    lemma_padded_two(date.month as int);
    lemma_padded_two(date.day as int);
    let suffix = kind + seq!['/'] + four_digits(date.year as int) + seq!['/'] + two_digits(
        date.month as int,
    ) + seq!['/'] + two_digits(date.day as int) + seq!['/'] + slug;
    assert(entry_suffix(kind, date, slug) == suffix);
    assert(suffix[0] == kind[0]);
    assert(with_separator(root) + suffix =~= with_separator(root) + kind + seq!['/']
        + four_digits(date.year as int) + seq!['/'] + two_digits(date.month as int) + seq!['/']
        + two_digits(date.day as int) + seq!['/'] + slug);
    if root.len() > 0 && root.last() != '/' {
        assert(with_separator(root) + suffix =~= root + seq!['/'] + kind + seq!['/']
            + four_digits(date.year as int) + seq!['/'] + two_digits(date.month as int)
            + seq!['/'] + two_digits(date.day as int) + seq!['/'] + slug);
    }
}

/// Adjoins `rel` to `base`.
pub fn join(base: &str, rel: &str) -> (path: String)
    ensures
        path@ == joined(base@, rel@),
{
    let rel_len: usize = rel.unicode_len();
    if rel_len > 0 && rel.get_char(0) == '/' {
        return rel.to_owned();
    }
    let base_len: usize = base.unicode_len();
    let mut path = base.to_owned();
    if base_len > 0 && base.get_char(base_len - 1) != '/' {
        proof {
            reveal_strlit("/");
        }
        path.append("/");
    }
    path.append(rel);
    assert(path@ =~= joined(base@, rel@));
    path
}

/// Builds the path of a draft entry.
pub fn build_path(root: &str, kind: &str, date: &DraftDate, slug: &str) -> (path: String)
    ensures
        path@ == entry_path(root@, kind@, *date, slug@),
{
    proof {
        reveal_strlit("/");
    }
    let year = pad_number(date.year as i64, 4);
    let month = pad_number(date.month as i64, 2);
    let day = pad_number(date.day as i64, 2);
    let mut suffix = kind.to_owned();
    suffix.append("/");
    suffix.append(year.as_str());
    suffix.append("/");
    suffix.append(month.as_str());
    suffix.append("/");
    suffix.append(day.as_str());
    suffix.append("/");
    suffix.append(slug);
    assert(suffix@ =~= entry_suffix(kind@, *date, slug@));
    join(root, suffix.as_str())
}

} // verus!
