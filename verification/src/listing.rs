use vstd::prelude::*;
use crate::paths::joined;

verus! {

/// One immediate child of the listed directory.
#[derive(Clone, Debug, PartialEq, Eq)]
pub struct Entry {
    pub name: String,
    pub full_path: String,
    pub is_dir: bool,
}

/// Why a directory could not be listed: the path itself could not be opened,
/// or it named something that is not a directory.
#[derive(Clone, Copy, PartialEq, Eq, Structural, Debug)]
pub enum ListError {
    CannotOpen,
    NotADirectory,
}

/// One item of a raw one-level walk: either a listed entry with its depth
/// (0 is the walked path itself, 1 an immediate child), or a failure at a
/// given depth.
#[derive(Clone, Debug, PartialEq, Eq)]
pub enum RawListItem {
    Listed { name: String, full_path: String, is_dir: bool, depth: usize },
    Failed { depth: usize },
}

/// A failure to read the walked path itself, as opposed to one of its children.
pub open spec fn is_root_failure(it: RawListItem) -> bool {
    match it {
        RawListItem::Failed { depth } => depth == 0,
        RawListItem::Listed { .. } => false,
    }
}

pub open spec fn has_root_failure(items: Seq<RawListItem>) -> bool {
    exists|i: int| 0 <= i < items.len() && is_root_failure(#[trigger] items[i])
}

/// The walk begins with the walked path itself, and that item is a directory.
pub open spec fn root_is_dir(items: Seq<RawListItem>) -> bool {
    items.len() > 0 && match items[0] {
        RawListItem::Listed { is_dir, .. } => is_dir,
        RawListItem::Failed { .. } => false,
    }
}

/// The entries kept from a raw walk: every listed item below the walked path
/// itself, in walk order; failures among the children are passed over.
pub open spec fn child_entries(items: Seq<RawListItem>) -> Seq<Entry>
    decreases items.len(),
{
    if items.len() == 0 {
        Seq::<Entry>::empty()
    } else {
        let init = child_entries(items.drop_last());
        match items.last() {
            RawListItem::Listed { name, full_path, is_dir, depth } => {
                if depth != 0 {
                    init.push(Entry { name, full_path, is_dir })
                } else {
                    init
                }
            },
            RawListItem::Failed { .. } => init,
        }
    }
}

/// The depth an item was walked at: 0 is the walked path itself, 1 an
/// immediate child.
pub open spec fn item_depth(it: RawListItem) -> usize {
    match it {
        RawListItem::Listed { depth, .. } => depth,
        RawListItem::Failed { depth } => depth,
    }
}

/// A listed item below the walked path carries an immediate child's path:
/// the base path, a slash, the item's own name.
pub open spec fn listed_under(base: Seq<char>, it: RawListItem) -> bool {
    match it {
        RawListItem::Listed { name, full_path, depth, .. } => depth != 0 ==> full_path@ == joined(
            base,
            name@,
        ),
        RawListItem::Failed { .. } => true,
    }
}

/// Relies on walkdir::WalkDir with max_depth(1): the walked path itself comes
/// first, at depth 0, as an entry or as the error that reading it gave; every
/// listed item after it is an immediate child at depth 1; and a child's path
/// is what read_dir builds, the walked path joined with the child's name --
/// the path, a slash and the name, whenever the walked path is non-empty and
/// free of a trailing slash. Which children come back depends on the
/// filesystem, so no more is promised.
#[verifier::external_body]
fn walk_one_level(path: &str) -> (items: Vec<RawListItem>)
    ensures
        items@.len() > 0 ==> item_depth(items@[0]) == 0,
        forall|i: int|
            1 <= i < items@.len() ==> ((#[trigger] items@[i]) matches RawListItem::Listed { .. }
                ==> item_depth(items@[i]) == 1),
        path@.len() > 0 && path@.last() != '/' ==> forall|i: int|
            0 <= i < items@.len() ==> listed_under(path@, #[trigger] items@[i]),
{
    let mut out = Vec::new();
    for item in walkdir::WalkDir::new(path).max_depth(1) {
        match item {
            Ok(e) => out.push(RawListItem::Listed {
                name: e.file_name().to_string_lossy().into_owned(),
                full_path: e.path().display().to_string(),
                is_dir: e.file_type().is_dir(),
                depth: e.depth(),
            }),
            Err(e) => out.push(RawListItem::Failed { depth: e.depth() }),
        }
    }
    out
}

/// Classifies a raw one-level walk: an error when the walked path itself could
/// not be read or is not a directory, otherwise exactly the child entries, with
/// unreadable children passed over. A partial listing is success, not error.
pub fn collect_entries(items: &Vec<RawListItem>) -> (r: Result<Vec<Entry>, ListError>)
    ensures
        (match r {
            Ok(es) => {
                &&& !has_root_failure(items@)
                &&& root_is_dir(items@)
                &&& es@ == child_entries(items@)
            },
            Err(e) => match e {
                ListError::CannotOpen => items@.len() == 0 || has_root_failure(items@),
                ListError::NotADirectory => {
                    &&& items@.len() > 0
                    &&& !has_root_failure(items@)
                    &&& !root_is_dir(items@)
                },
            },
        }),
{
    let n = items.len();
    let mut i: usize = 0;
    while i < n
        invariant
            n == items@.len(),
            i <= n,
            forall|j: int| 0 <= j < i ==> !is_root_failure(#[trigger] items@[j]),
        decreases n - i,
    {
        match &items[i] {
            RawListItem::Failed { depth } => {
                if *depth == 0 {
                    proof {
                        assert(is_root_failure(items@[i as int]));
                    }
                    return Err(ListError::CannotOpen);
                }
            },
            RawListItem::Listed { .. } => {},
        }
        i += 1;
    }
    if n == 0 {
        return Err(ListError::CannotOpen);
    }
    match &items[0] {
        RawListItem::Failed { .. } => {
            return Err(ListError::NotADirectory);
        },
        RawListItem::Listed { is_dir, .. } => {
            if !*is_dir {
                return Err(ListError::NotADirectory);
            }
        },
    }
    let mut out: Vec<Entry> = Vec::new();
    let mut i: usize = 0;
    while i < n
        invariant
            n == items@.len(),
            i <= n,
            out@ == child_entries(items@.subrange(0, i as int)),
        decreases n - i,
    {
        match &items[i] {
            RawListItem::Listed { name, full_path, is_dir, depth } => {
                if *depth != 0 {
                    out.push(Entry {
                        name: name.clone(),
                        full_path: full_path.clone(),
                        is_dir: *is_dir,
                    });
                }
            },
            RawListItem::Failed { .. } => {},
        }
        proof {
            assert(items@.subrange(0, i + 1).drop_last() =~= items@.subrange(0, i as int));
            assert(items@.subrange(0, i + 1).last() == items@[i as int]);
        }
        i += 1;
    }
    proof {
        assert(items@.subrange(0, n as int) =~= items@);
    }
    Ok(out)
}

/// Every entry kept from a walk whose items all sit under `base` carries the
/// joined child path.
proof fn lemma_child_entries_under(base: Seq<char>, items: Seq<RawListItem>)
    requires
        forall|i: int| 0 <= i < items.len() ==> listed_under(base, #[trigger] items[i]),
    ensures
        forall|j: int|
            0 <= j < child_entries(items).len() ==> (#[trigger] child_entries(items)[j]).full_path@
                == joined(base, child_entries(items)[j].name@),
    decreases items.len(),
{
    if items.len() > 0 {
        assert(forall|i: int|
            0 <= i < items.drop_last().len() ==> listed_under(
                base,
                #[trigger] items.drop_last()[i],
            ));
        lemma_child_entries_under(base, items.drop_last());
        assert(listed_under(base, items.last()));
        let init = child_entries(items.drop_last());
        match items.last() {
            RawListItem::Listed { name, full_path, is_dir, depth } => {
                if depth != 0 {
                    let e = Entry { name, full_path, is_dir };
                    assert(child_entries(items) == init.push(e));
                    assert(e.full_path@ == joined(base, e.name@));
                    assert forall|j: int| 0 <= j < child_entries(items).len() implies (
                    #[trigger] child_entries(items)[j]).full_path@ == joined(
                        base,
                        child_entries(items)[j].name@,
                    ) by {
                        if j < init.len() {
                            assert(child_entries(items)[j] == init[j]);
                        } else {
                            assert(child_entries(items)[j] == e);
                        }
                    }
                } else {
                    assert(child_entries(items) == init);
                }
            },
            RawListItem::Failed { .. } => {
                assert(child_entries(items) == init);
            },
        }
    }
}

/// Lists the immediate children of `path`. Which entries exist depends on the
/// filesystem, so the listing itself is not pinned; what is: every entry that
/// comes back is an immediate child, its path the listed path joined with its
/// name (for a non-empty `path` without a trailing slash). How a walk's
/// outcome is classified is the contract of `collect_entries`.
pub fn list_dir(path: &str) -> (r: Result<Vec<Entry>, ListError>)
    ensures
        (match r {
            Ok(es) => path@.len() > 0 && path@.last() != '/' ==> forall|j: int|
                0 <= j < es@.len() ==> (#[trigger] es@[j]).full_path@ == joined(
                    path@,
                    es@[j].name@,
                ),
            Err(_) => true,
        }),
{
    let items = walk_one_level(path);
    let r = collect_entries(&items);
    proof {
        if path@.len() > 0 && path@.last() != '/' {
            lemma_child_entries_under(path@, items@);
        }
    }
    r
}

} // verus!
