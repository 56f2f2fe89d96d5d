//! Which paths a listing of the drafts root shows.

use crate::path::{file_name, final_component};
use crate::text::texts;
use vstd::prelude::*;

verus! {

/// How many directory levels lie between the drafts root and an entry:
/// kind, year, month, day and slug.
pub const ENTRY_DEPTH: usize = 5;

/// `count` times the segment `/*`, which matches any one name.
pub open spec fn any_levels(count: nat) -> Seq<char>
    decreases count,
{
    if count == 0 {
        Seq::empty()
    } else {
        any_levels((count - 1) as nat) + seq!['/', '*']
    }
}

/// The pattern that matches the entries below `root`: `root` followed by
/// one `/*` for each level.
pub open spec fn entries_pattern(root: Seq<char>) -> Seq<char> {
    root + any_levels(ENTRY_DEPTH as nat)
}

/// A name that starts with a period is hidden.
pub open spec fn is_hidden(name: Seq<char>) -> bool {
    name.len() > 0 && name[0] == '.'
}

/// Whether a listing shows `path`: it has a last component, and that
/// component is not hidden.
pub open spec fn is_shown(path: Seq<char>) -> bool {
    match final_component(path) {
        Some(name) => !is_hidden(name),
        None => false,
    }
}

/// The paths among `matches` that a listing shows, in their order.
pub open spec fn listed(matches: Seq<Seq<char>>) -> Seq<Seq<char>> {
    matches.filter(|path: Seq<char>| is_shown(path))
}

/// A path is listed exactly if it is among the matches and shown: no
/// match with a hidden last component is listed, and no other match is
/// left out.
pub proof fn lemma_listed(matches: Seq<Seq<char>>, path: Seq<char>)
    ensures
        listed(matches).contains(path) <==> matches.contains(path) && is_shown(path),
{
    let keep = |path: Seq<char>| is_shown(path);
    if listed(matches).contains(path) {
        matches.lemma_filter_contains_rev(keep, path);
        let i = choose|i: int| 0 <= i < listed(matches).len() && listed(matches)[i] == path;
        matches.lemma_filter_pred(keep, i);
    }
    if matches.contains(path) && is_shown(path) {
        let i = choose|i: int| 0 <= i < matches.len() && matches[i] == path;
        matches.lemma_filter_contains(keep, i);
    }
}

/// The pattern reaches exactly five levels below the root.
pub proof fn lemma_pattern_has_five_levels(root: Seq<char>)
    ensures
        entries_pattern(root) == root + seq!['/', '*', '/', '*', '/', '*', '/', '*', '/', '*'],
{
    reveal_with_fuel(any_levels, 6);
    assert(entries_pattern(root) =~= root + seq!['/', '*', '/', '*', '/', '*', '/', '*', '/', '*']);
}

/// The pattern under which the entries below `root` are looked up.
pub fn list_pattern(root: &str) -> (pattern: String)
    ensures
        pattern@ == entries_pattern(root@),
{
    let mut pattern = root.to_owned();
    let mut level: usize = 0;
    while level < ENTRY_DEPTH
        invariant
            level <= ENTRY_DEPTH,
            pattern@ == root@ + any_levels(level as nat),
        decreases ENTRY_DEPTH - level,
    {
        proof {
            reveal_strlit("/*");
        }
        pattern.append("/*");
        level = level + 1;
        assert(pattern@ =~= root@ + any_levels(level as nat));
    }
    pattern
}

/// Tells whether `name` is hidden.
pub fn hidden(name: &str) -> (yes: bool)
    ensures
        yes == is_hidden(name@),
{
    name.unicode_len() > 0 && name.get_char(0) == '.'
}

/// Tells whether a listing shows `path`.
pub fn shown(path: &str) -> (yes: bool)
    ensures
        yes == is_shown(path@),
{
    match file_name(path) {
        Some(name) => !hidden(name.as_str()),
        None => false,
    }
}

/// The paths among `matches` that a listing shows, in the order in which
/// they came.
pub fn list_entries(matches: &Vec<String>) -> (entries: Vec<String>)
    ensures
        texts(entries@) == listed(texts(matches@)),
{
    let mut entries: Vec<String> = Vec::new();
    let mut i: usize = 0;
    proof {
        reveal(Seq::filter);
        assert(texts(matches@).take(0) =~= Seq::<Seq<char>>::empty());
        assert(texts(entries@) =~= listed(texts(matches@).take(0)));
    }
    while i < matches.len()
        invariant
            i <= matches.len(),
            texts(entries@) == listed(texts(matches@).take(i as int)),
        decreases matches.len() - i,
    {
        let ghost before = texts(entries@);
        let ghost seen = texts(matches@).take(i as int);
        if shown(matches[i].as_str()) {
            entries.push(matches[i].clone());
            assert(texts(entries@) =~= before.push(matches[i as int]@));
        }
        i = i + 1;
        proof {
            let next = texts(matches@).take(i as int);
            assert(next.drop_last() =~= seen);
            assert(next.last() == matches[i - 1]@);
            reveal(Seq::filter);
        }
    }
    assert(texts(matches@).take(i as int) =~= texts(matches@));
    entries
}

} // verus!
