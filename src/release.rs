use vstd::prelude::*;
use vstd::string::StringExecFns;

use crate::error::Error;
use crate::hash::chars_of;

verus! {

/// A downloadable file attached to a release.
#[derive(Debug, Clone)]
pub struct Asset {
    pub name: String,
    pub content_type: String,
    pub download_url: String,
}

/// A published version: its tag and its assets, in the host's order.
#[derive(Debug, Clone)]
pub struct Release {
    pub tag: String,
    pub assets: Vec<Asset>,
}

/// What `str::to_lowercase` gives for a text.
pub uninterp spec fn lower_of(s: Seq<char>) -> Seq<char>;

/// Relies on `str::to_lowercase`: the result depends on the characters alone.
#[verifier::external_body]
fn lowercase(s: &str) -> (r: String)
    ensures
        r@ == lower_of(s@),
{
    s.to_lowercase()
}

/// The asset that holds the manifest: its name is "manifest" in any case.
pub open spec fn is_manifest_asset(a: Asset) -> bool {
    lower_of(a.name@) == "manifest"@
}

/// The archive of the product: a zip whose name starts with the package name.
pub open spec fn is_package_asset(a: Asset) -> bool {
    &&& a.content_type@ == "application/zip"@
    &&& "golden-forgery"@.is_prefix_of(a.name@)
}

/// Index `i` is the first asset that the predicate picks.
pub open spec fn first_match(assets: Seq<Asset>, pick: spec_fn(Asset) -> bool, i: int) -> bool {
    &&& 0 <= i < assets.len()
    &&& pick(assets[i])
    &&& forall|j: int| 0 <= j < i ==> !pick(#[trigger] assets[j])
}

/// Whether a lower-cased asset name is the manifest's.
pub fn names_manifest(lowered: &String) -> (r: bool)
    ensures
        r == (lowered@ == "manifest"@),
{
    *lowered == String::from_str("manifest")
}

fn starts_with(s: &Vec<char>, p: &Vec<char>) -> (r: bool)
    ensures
        r == p@.is_prefix_of(s@),
{
    if p.len() > s.len() {
        return false;
    }
    let mut i: usize = 0;
    while i < p.len()
        invariant
            p@.len() <= s@.len(),
            i <= p@.len(),
            forall|j: int| 0 <= j < i ==> p@[j] == s@[j],
        decreases p@.len() - i,
    {
        if p[i] != s[i] {
            proof {
                assert(p@[i as int] != s@.subrange(0, p@.len() as int)[i as int]);
            }
            return false;
        }
        i = i + 1;
    }
    proof {
        assert(p@ =~= s@.subrange(0, p@.len() as int));
    }
    true
}

/// Whether an asset is the product's archive.
pub fn is_package(a: &Asset) -> (r: bool)
    ensures
        r == is_package_asset(*a),
{
    let zip = String::from_str("application/zip");
    if a.content_type != zip {
        return false;
    }
    let name = chars_of(a.name.as_str());
    let prefix = chars_of("golden-forgery");
    starts_with(&name, &prefix)
}

impl Release {
    /// The address of the first asset named "manifest" in any case.
    pub fn manifest_url(&self) -> (r: Result<String, Error>)
        ensures
            r is Ok <==> exists|i: int| 0 <= i < self.assets@.len()
                && is_manifest_asset(#[trigger] self.assets@[i]),
            r matches Ok(url) ==> exists|i: int|
                first_match(self.assets@, |a: Asset| is_manifest_asset(a), i)
                && url@ == (#[trigger] self.assets@[i]).download_url@,
            r matches Err(e) ==> e == Error::ManifestNotFound,
    {
        let mut i: usize = 0;
        while i < self.assets.len()
            invariant
                i <= self.assets@.len(),
                forall|j: int| 0 <= j < i ==> !is_manifest_asset(#[trigger] self.assets@[j]),
            decreases self.assets@.len() - i,
        {
            let lowered = lowercase(self.assets[i].name.as_str());
            if names_manifest(&lowered) {
                proof {
                    assert(first_match(self.assets@, |a: Asset| is_manifest_asset(a), i as int));
                }
                return Ok(self.assets[i].download_url.clone());
            }
            i = i + 1;
        }
        Err(Error::ManifestNotFound)
    }

    /// The address of the first asset that is the product's zip archive.
    pub fn package_url(&self) -> (r: Result<String, Error>)
        ensures
            r is Ok <==> exists|i: int| 0 <= i < self.assets@.len()
                && is_package_asset(#[trigger] self.assets@[i]),
            r matches Ok(url) ==> exists|i: int|
                first_match(self.assets@, |a: Asset| is_package_asset(a), i)
                && url@ == (#[trigger] self.assets@[i]).download_url@,
            r matches Err(e) ==> e == Error::ReleaseZipNotFound,
    {
        let mut i: usize = 0;
        while i < self.assets.len()
            invariant
                i <= self.assets@.len(),
                forall|j: int| 0 <= j < i ==> !is_package_asset(#[trigger] self.assets@[j]),
            decreases self.assets@.len() - i,
        {
            if is_package(&self.assets[i]) {
                proof {
                    assert(first_match(self.assets@, |a: Asset| is_package_asset(a), i as int));
                }
                return Ok(self.assets[i].download_url.clone());
            }
            i = i + 1;
        }
        Err(Error::ReleaseZipNotFound)
    }
}

} // verus!
