//! Where the game keeps mods, relative to the path of its executable.
use vstd::prelude::*;

verus! {

/// What `Path::parent` gives for `path`, as text: the path without its final
/// component, or `None` where it has none.
pub uninterp spec fn parent_of(path: Seq<char>) -> Option<Seq<char>>;

/// What `Path::join` gives for `base` and `part`, as text.
pub uninterp spec fn joined(base: Seq<char>, part: Seq<char>) -> Seq<char>;

/// Calls `Path::parent` on `path`. Claimed: the result, as text, is
/// `parent_of` of the path. What that is in terms of the path's characters is
/// not stated.
#[verifier::external_body]
fn path_parent(path: &str) -> (r: Option<String>)
    ensures
        match r {
            Some(s) => parent_of(path@) == Some(s@),
            None => parent_of(path@) == None::<Seq<char>>,
        },
{
    match std::path::Path::new(path).parent() {
        Some(p) => Some(p.to_string_lossy().into_owned()),
        None => None,
    }
}

/// Calls `Path::join` on `base` and `part`. Claimed: the result, as text, is
/// `joined` of the two. What that is in terms of their characters is not
/// stated.
#[verifier::external_body]
fn path_join(base: &str, part: &str) -> (r: String)
    ensures
        r@ == joined(base@, part@),
{
    std::path::Path::new(base).join(part).to_string_lossy().into_owned()
}

/// The `n`-th ancestor of a path, as `Path::ancestors().nth(n)` gives it: the
/// parent taken `n` times, `None` where a parent is missing on the way.
pub open spec fn ancestor_of(path: Seq<char>, n: nat) -> Option<Seq<char>>
    decreases n,
{
    if n == 0 {
        Some(path)
    } else {
        match ancestor_of(path, (n - 1) as nat) {
            Some(p) => parent_of(p),
            None => None,
        }
    }
}

/// The mods folder of the game whose executable is at `exe_path`:
/// `Content/Paks/~mods` under the third ancestor of the executable.
pub open spec fn mods_folder_of(exe_path: Seq<char>) -> Option<Seq<char>> {
    match ancestor_of(exe_path, 3) {
        Some(root) => Some(joined(joined(joined(root, "Content"@), "Paks"@), "~mods"@)),
        None => None,
    }
}

/// Where the mods folder of the game whose executable is at `exe_path` would
/// be; `None` where the path has fewer than three ancestors.
pub fn mods_folder(exe_path: &str) -> (r: Option<String>)
    ensures
        match r {
            Some(s) => mods_folder_of(exe_path@) == Some(s@),
            None => mods_folder_of(exe_path@) == None::<Seq<char>>,
        },
{
    let mut current = String::from_str(exe_path);
    let mut i: usize = 0;
    while i < 3
        invariant
            i <= 3,
            ancestor_of(exe_path@, i as nat) == Some(current@),
        decreases 3 - i,
    {
        match path_parent(current.as_str()) {
            Some(p) => {
                current = p;
            },
            None => {
                assert(ancestor_of(exe_path@, (i + 1) as nat) is None);
                assert(forall|k: nat| #![auto] (i + 1) as nat <= k && k <= 3 ==> ancestor_of(exe_path@, k) is None) by {
                    lemma_missing_ancestor_stays_missing(exe_path@, (i + 1) as nat, 3);
                }
                return None;
            },
        }
        i = i + 1;
    }
    let content = path_join(current.as_str(), "Content");
    let paks = path_join(content.as_str(), "Paks");
    Some(path_join(paks.as_str(), "~mods"))
}

proof fn lemma_missing_ancestor_stays_missing(path: Seq<char>, m: nat, n: nat)
    requires
        ancestor_of(path, m) is None,
        m <= n,
    ensures
        forall|k: nat| #![auto] m <= k && k <= n ==> ancestor_of(path, k) is None,
    decreases n - m,
{
    if m < n {
        lemma_missing_ancestor_stays_missing(path, (m + 1) as nat, n);
    }
}

} // verus!
