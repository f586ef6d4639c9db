use vstd::prelude::*;

use crate::error::Error;
use crate::manifest::Manifest;

verus! {

/// What was found on disk at a manifest entry's path.
#[derive(Debug, Clone)]
pub enum LocalFile {
    /// Nothing exists at the path.
    Missing,
    /// Something exists there but could not be read or hashed.
    Unreadable,
    /// The file was read; this is the digest of its contents.
    Present(crate::hash::Hash),
}

impl LocalFile {
    /// What a look at the disk found: whether the path exists and, if so, what
    /// reading it gave.
    pub fn observe(exists: bool, contents: Result<Vec<u8>, Error>) -> (r: LocalFile)
        ensures
            !exists ==> r is Missing,
            exists && contents is Err ==> r is Unreadable,
            exists && contents is Ok ==> (r matches LocalFile::Present(h) && h@
                == crate::hash::Hash::spec_of_bytes(contents->Ok_0@)),
    {
        if !exists {
            return LocalFile::Missing;
        }
        match contents {
            Ok(bytes) => match crate::hash::Hash::of_bytes(bytes.as_slice()) {
                Ok(h) => LocalFile::Present(h),
                Err(_) => LocalFile::Unreadable,
            },
            Err(_) => LocalFile::Unreadable,
        }
    }
}

/// A file that must be repaired: absent, unreadable, or with other contents.
pub open spec fn diverges(expected: Seq<char>, f: LocalFile) -> bool {
    match f {
        LocalFile::Present(h) => h@ != expected,
        _ => true,
    }
}

/// The paths of the first `n` entries that diverge, in manifest order.
pub open spec fn divergent(
    entries: Seq<(Seq<char>, Seq<char>)>,
    local: Seq<LocalFile>,
    n: nat,
) -> Seq<Seq<char>>
    decreases n,
{
    if n == 0 {
        Seq::empty()
    } else {
        let rest = divergent(entries, local, (n - 1) as nat);
        if diverges(entries[n - 1].0, local[n - 1]) {
            rest.push(entries[n - 1].1)
        } else {
            rest
        }
    }
}

pub open spec fn paths_view(v: Seq<String>) -> Seq<Seq<char>> {
    v.map_values(|s: String| s@)
}

/// The paths whose local state does not match the manifest, in manifest order;
/// `local[i]` is what was found at the path of entry `i`.
pub fn compare_files(manifest: &Manifest, local: &Vec<LocalFile>) -> (r: Vec<String>)
    requires
        local@.len() == manifest.files@.len(),
    ensures
        paths_view(r@) == divergent(manifest.entries(), local@, local@.len()),
{
    let mut out: Vec<String> = Vec::new();
    let mut i: usize = 0;
    proof {
        assert(paths_view(out@) =~= Seq::empty());
    }
    while i < local.len()
        invariant
            local@.len() == manifest.files@.len(),
            i <= local@.len(),
            paths_view(out@) == divergent(manifest.entries(), local@, i as nat),
        decreases local@.len() - i,
    {
        let entry = &manifest.files[i];
        let stale = match &local[i] {
            LocalFile::Present(h) => !h.same(&entry.digest),
            _ => true,
        };
        if stale {
            let ghost before = out@;
            out.push(entry.path.clone());
            proof {
                assert(paths_view(out@) =~= paths_view(before).push(entry.path@));
            }
        }
        i = i + 1;
    }
    out
}

/// Comparing is a function of the manifest and of what is on disk: the same
/// entries and the same findings give the same paths in the same order.
pub proof fn law_compare_deterministic(
    m1: Manifest,
    m2: Manifest,
    l1: Seq<LocalFile>,
    l2: Seq<LocalFile>,
)
    requires
        m1.entries() == m2.entries(),
        l1 == l2,
    ensures
        divergent(m1.entries(), l1, l1.len()) == divergent(m2.entries(), l2, l2.len()),
{
}

/// No path is reported exactly when every entry is up to date.
pub proof fn law_empty_iff_up_to_date(
    entries: Seq<(Seq<char>, Seq<char>)>,
    local: Seq<LocalFile>,
    n: nat,
)
    requires
        n <= entries.len(),
        n <= local.len(),
    ensures
        divergent(entries, local, n).len() == 0 <==> forall|i: int|
            0 <= i < n ==> !diverges(entries[i].0, #[trigger] local[i]),
    decreases n,
{
    if n > 0 {
        law_empty_iff_up_to_date(entries, local, (n - 1) as nat);
        lemma_divergent_len_grows(entries, local, (n - 1) as nat);
    }
}

proof fn lemma_divergent_len_grows(
    entries: Seq<(Seq<char>, Seq<char>)>,
    local: Seq<LocalFile>,
    n: nat,
)
    ensures
        divergent(entries, local, n + 1).len() >= divergent(entries, local, n).len(),
{
}

} // verus!
