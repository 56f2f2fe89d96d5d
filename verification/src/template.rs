//! Templates: where they lie, how they are offered, and which one is taken.

use crate::path::{join, joined};
use crate::text::texts;
use vstd::prelude::*;

verus! {

/// The first line of the menu: the choice to go without a template.
pub const NO_TEMPLATE: &'static str = "Do not use template";

/// The directory of the template `name` of `kind`: `name` below `kind`
/// below the templates root.
pub open spec fn named_template(
    template_root: Seq<char>,
    kind: Seq<char>,
    name: Seq<char>,
) -> Seq<char> {
    joined(joined(template_root, kind), name)
}

/// The pattern that matches the templates of `kind`: whatever lies directly
/// in the directory `kind` of the templates root.
pub open spec fn templates_pattern(template_root: Seq<char>, kind: Seq<char>) -> Seq<char> {
    template_root + seq!['/'] + kind + seq!['/', '*']
}

/// The menu for the templates `found`: the choice of none, then the
/// templates in their order.
pub open spec fn menu(found: Seq<Seq<char>>) -> Seq<Seq<char>> {
    seq![NO_TEMPLATE@] + found
}

/// What a selection from the menu of `found` stands for: the template on
/// the selected line, or none where the first line, no line, or no line of
/// the menu was selected.
pub open spec fn selected(found: Seq<Seq<char>>, selection: Option<usize>) -> Option<Seq<char>> {
    match selection {
        Some(line) => if 1 <= line <= found.len() {
            Some(found[line - 1])
        } else {
            None
        },
        None => None,
    }
}

/// The directory of the template `name` of `kind`.
pub fn template_dir(template_root: &str, kind: &str, name: &str) -> (dir: String)
    ensures
        dir@ == named_template(template_root@, kind@, name@),
{
    let group = join(template_root, kind);
    join(group.as_str(), name)
}

/// The pattern under which the templates of `kind` are looked up.
pub fn template_pattern(template_root: &str, kind: &str) -> (pattern: String)
    ensures
        pattern@ == templates_pattern(template_root@, kind@),
{
    proof {
        reveal_strlit("/");
        reveal_strlit("/*");
    }
    let mut pattern = template_root.to_owned();
    pattern.append("/");
    pattern.append(kind);
    pattern.append("/*");
    assert(pattern@ =~= templates_pattern(template_root@, kind@));
    pattern
}

/// The lines of the menu that offers the templates `found`.
pub fn menu_items(found: &Vec<String>) -> (items: Vec<String>)
    ensures
        texts(items@) == menu(texts(found@)),
{
    let mut items: Vec<String> = Vec::new();
    items.push(NO_TEMPLATE.to_owned());
    let mut i: usize = 0;
    assert(texts(items@) =~= menu(texts(found@).take(0)));
    while i < found.len()
        invariant
            i <= found.len(),
            texts(items@) == menu(texts(found@).take(i as int)),
        decreases found.len() - i,
    {
        let ghost before = texts(items@);
        items.push(found[i].clone());
        i = i + 1;
        assert(texts(items@) =~= before.push(found[i - 1]@));
        assert(texts(found@).take(i as int) =~= texts(found@).take(i - 1).push(found[i - 1]@));
        assert(texts(items@) =~= menu(texts(found@).take(i as int)));
    }
    assert(texts(found@).take(i as int) =~= texts(found@));
    items
}

/// The template that `selection` picks from the menu of `found`.
pub fn pick_template(found: &Vec<String>, selection: Option<usize>) -> (template: Option<String>)
    ensures
        match template {
            Some(t) => selected(texts(found@), selection) == Some(t@),
            None => selected(texts(found@), selection) is None,
        },
{
    match selection {
        Some(line) => {
            if 1 <= line && line <= found.len() {
                Some(found[line - 1].clone())
            } else {
                None
            }
        },
        None => None,
    }
}

} // verus!
