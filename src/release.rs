use vstd::prelude::*;

verus! {

/// Metadata of the latest published release: its version and, for each target
/// key, the URL of its archive.
#[derive(Debug)]
pub struct ReleaseInfo {
    pub version: String,
    pub downloads: Vec<(String, String)>,
}

/// The URL listed first for `key` among `downloads`, if any.
pub open spec fn url_for(downloads: Seq<(String, String)>, key: Seq<char>) -> Option<Seq<char>>
    decreases downloads.len(),
{
    if downloads.len() == 0 {
        None
    } else if downloads[0].0@ == key {
        Some(downloads[0].1@)
    } else {
        url_for(downloads.drop_first(), key)
    }
}

impl ReleaseInfo {
    /// The download URL of the archive for `key`.
    pub fn download_url(&self, key: &String) -> (r: Option<String>)
        ensures
            match (r, url_for(self.downloads@, key@)) {
                (Some(u), Some(v)) => u@ == v,
                (None, None) => true,
                _ => false,
            },
    {
        let n = self.downloads.len();
        let mut i: usize = 0;
        proof {
            assert(self.downloads@.subrange(0, n as int) =~= self.downloads@);
        }
        while i < n
            invariant
                n == self.downloads@.len(),
                i <= n,
                url_for(self.downloads@, key@) == url_for(self.downloads@.subrange(i as int, n as int), key@),
            decreases n - i,
        {
            proof {
                assert(self.downloads@.subrange(i as int, n as int).drop_first()
                    =~= self.downloads@.subrange(i + 1, n as int));
            }
            if self.downloads[i].0 == *key {
                let u = self.downloads[i].1.clone();
                return Some(u);
            }
            i = i + 1;
        }
        None
    }
}

} // verus!
