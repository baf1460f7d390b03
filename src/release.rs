//! The release record of the external tool, and how a release is read from the
//! release feed and compared with the installed one.

use vstd::prelude::*;

verus! {

/// The instant that `chrono::DateTime::parse_from_rfc3339` reads from a text, as
/// whole seconds since the Unix epoch and the nanoseconds past them.
pub uninterp spec fn rfc3339_instant(s: Seq<char>) -> Option<(i64, u32)>;

/// Relies on `chrono::DateTime::parse_from_rfc3339`, with `timestamp` and
/// `timestamp_subsec_nanos` of the result: chrono orders two parsed times as
/// these pairs order, seconds first.
#[verifier::external_body]
pub(crate) fn parse_rfc3339(s: &str) -> (r: Option<(i64, u32)>)
    ensures
        r == rfc3339_instant(s@),
{
    match chrono::DateTime::parse_from_rfc3339(s) {
        Ok(t) => Some((t.timestamp(), t.timestamp_subsec_nanos())),
        Err(_) => None,
    }
}

/// Whether instant `a` comes strictly after instant `b`.
pub open spec fn after(a: (i64, u32), b: (i64, u32)) -> bool {
    a.0 > b.0 || (a.0 == b.0 && a.1 > b.1)
}

/// Whether a parsed time comes strictly after another; a time that did not
/// parse comes after nothing and nothing comes after it.
pub open spec fn later_spec(a: Option<(i64, u32)>, b: Option<(i64, u32)>) -> bool {
    match (a, b) {
        (Some(x), Some(y)) => after(x, y),
        _ => false,
    }
}

/// Whether a parsed time comes strictly after another.
pub fn instant_later(a: Option<(i64, u32)>, b: Option<(i64, u32)>) -> (r: bool)
    ensures
        r == later_spec(a, b),
{
    match (a, b) {
        (Some(x), Some(y)) => x.0 > y.0 || (x.0 == y.0 && x.1 > y.1),
        _ => false,
    }
}

/// A release of the external tool: its version label, when it was published
/// (RFC 3339), and where its binary is downloaded from.
#[derive(Debug)]
pub struct YasReleaseInfo {
    pub version: String,
    pub update_at: String,
    pub url: String,
}

/// Whether release `a` was published strictly after release `b`.
pub open spec fn newer_spec(a: YasReleaseInfo, b: YasReleaseInfo) -> bool {
    later_spec(rfc3339_instant(a.update_at@), rfc3339_instant(b.update_at@))
}

impl Clone for YasReleaseInfo {
    fn clone(&self) -> (r: Self)
        ensures
            r == *self,
    {
        YasReleaseInfo { version: self.version.clone(), update_at: self.update_at.clone(), url: self.url.clone() }
    }
}

impl Default for YasReleaseInfo {
    /// The record assumed when none is installed: a placeholder version
    /// published long before any real release.
    fn default() -> (r: Self)
        ensures
            r.version@ == "null"@,
            r.update_at@ == "2011-08-16T00:00:00Z"@,
            r.url@ == "https://example.com/"@,
    {
        YasReleaseInfo {
            version: "null".to_owned(),
            update_at: "2011-08-16T00:00:00Z".to_owned(),
            url: "https://example.com/".to_owned(),
        }
    }
}

impl YasReleaseInfo {
    /// Whether this release was published strictly after `other`; a release
    /// whose time does not parse is never newer, nor older.
    pub fn newer_than(&self, other: &YasReleaseInfo) -> (r: bool)
        ensures
            r == newer_spec(*self, *other),
    {
        let a = parse_rfc3339(self.update_at.as_str());
        let b = parse_rfc3339(other.update_at.as_str());
        instant_later(a, b)
    }
}

/// A downloadable file of a release in the feed.
#[derive(Debug, Clone)]
pub struct ReleaseAsset {
    pub name: String,
    pub browser_download_url: String,
}

/// The latest release as the feed describes it.
#[derive(Debug, Clone)]
pub struct ReleaseFeed {
    pub tag_name: String,
    pub published_at: String,
    pub assets: Vec<ReleaseAsset>,
}

/// Whether an asset is the tool's binary for a version: `yas_<version>.exe`
/// or `yas_artifact_<version>.exe`.
pub open spec fn is_tool_binary(name: Seq<char>, version: Seq<char>) -> bool {
    name == "yas_"@ + version + ".exe"@ || name == "yas_artifact_"@ + version + ".exe"@
}

/// The download address of the first asset that is the tool's binary, or
/// nothing when there is none.
pub open spec fn binary_url(assets: Seq<ReleaseAsset>, version: Seq<char>) -> Seq<char>
    decreases assets.len(),
{
    if assets.len() == 0 {
        Seq::empty()
    } else if is_tool_binary(assets[0].name@, version) {
        assets[0].browser_download_url@
    } else {
        binary_url(assets.drop_first(), version)
    }
}

impl ReleaseFeed {
    /// The release the feed announces: its tag, its publication time and the
    /// address of its binary (empty when no asset is the binary).
    pub fn release_info(&self) -> (r: YasReleaseInfo)
        ensures
            r.version == self.tag_name,
            r.update_at == self.published_at,
            r.url@ == binary_url(self.assets@, self.tag_name@),
    {
        let plain = "yas_".to_owned().concat(self.tag_name.as_str()).concat(".exe");
        let artifact = "yas_artifact_".to_owned().concat(self.tag_name.as_str()).concat(".exe");
        let n = self.assets.len();
        let mut i: usize = 0;
        let mut url = String::new();
        proof {
            assert(self.assets@.subrange(0, n as int) =~= self.assets@);
        }
        loop
            invariant_except_break
                url@ == Seq::<char>::empty(),
            invariant
                n == self.assets@.len(),
                0 <= i <= n,
                plain@ == "yas_"@ + self.tag_name@ + ".exe"@,
                artifact@ == "yas_artifact_"@ + self.tag_name@ + ".exe"@,
                binary_url(self.assets@, self.tag_name@) == binary_url(self.assets@.subrange(i as int, n as int), self.tag_name@),
            ensures
                url@ == binary_url(self.assets@, self.tag_name@),
            decreases n - i,
        {
            if i == n {
                proof {
                    assert(self.assets@.subrange(n as int, n as int).len() == 0);
                }
                break;
            }
            let asset = &self.assets[i];
            if asset.name == plain || asset.name == artifact {
                url = asset.browser_download_url.clone();
                proof {
                    assert(self.assets@.subrange(i as int, n as int)[0] == self.assets@[i as int]);
                }
                break;
            }
            proof {
                assert(self.assets@.subrange(i as int, n as int).drop_first() =~= self.assets@.subrange(i + 1, n as int));
            }
            i = i + 1;
        }
        YasReleaseInfo { version: self.tag_name.clone(), update_at: self.published_at.clone(), url }
    }
}

} // verus!
