use vstd::prelude::*;
use crate::error::{ApiError, ErrorKind};
use crate::net::{http_get_bytes, is_success_code};
use crate::urls::{url_path_segments, url_segments_of};

verus! {

/// One planned image download: the locator to fetch and the cache path to
/// store its bytes at.
pub struct ImageJob {
    pub url: String,
    pub path: String,
}

/// The cache path of an image locator under a directory: the file keeps
/// the locator's last path segment as its name.
pub open spec fn image_path_spec(dir: Seq<char>, segs: Seq<Seq<char>>) -> Seq<char> {
    dir + "/"@ + segs.last()
}

/// Image-target resolution is deterministic: two targets derived for the
/// same locator segments under the same directory are the same path.
pub proof fn lemma_image_target_deterministic(
    dir: Seq<char>,
    segs: Seq<Seq<char>>,
    path_a: Seq<char>,
    path_b: Seq<char>,
)
    requires
        path_a == image_path_spec(dir, segs),
        path_b == image_path_spec(dir, segs),
    ensures
        path_a == path_b,
{
}

/// Derives the target of one image download under `dir`. A locator that
/// does not parse or yields no path segments is rejected; any other keeps
/// its last path segment as the file name.
pub fn wget_to_dir(url: &str, dir: &str) -> (r: Result<ImageJob, ApiError>)
    ensures
        (match url_segments_of(url@) {
            Some(segs) => if segs.len() > 0 {
                r matches Ok(j) && j.url@ == url@ && j.path@ == image_path_spec(dir@, segs)
            } else {
                r matches Err(e) && e@.kind == ErrorKind::Locator
            },
            None => r matches Err(e) && e@.kind == ErrorKind::Locator,
        }),
{
    let segs = match url_path_segments(url) {
        Some(v) => v,
        None => {
            return Err(ApiError::new(ErrorKind::Locator, "Invalid URL"));
        },
    };
    if segs.len() == 0 {
        return Err(ApiError::new(ErrorKind::Locator, "Invalid URL"));
    }
    let name = segs[segs.len() - 1].as_str();
    proof {
        let views = segs@.map_values(|t: String| t@);
        assert(views[views.len() - 1] == segs@[segs@.len() - 1]@);
    }
    let path = dir.to_owned().concat("/").concat(name);
    proof {
        assert(path@ =~= dir@ + "/"@ + segs@.map_values(|t: String| t@).last());
    }
    Ok(ImageJob { url: url.to_owned(), path })
}

/// Decides an image answer: a success status yields exactly the bytes
/// that came back, to be stored; any other status is the fetch error.
pub fn bytes_of_response(status: u16, bytes: Vec<u8>) -> (r: Result<Vec<u8>, ApiError>)
    ensures
        is_success_code(status) ==> (r matches Ok(b) && b == bytes),
        !is_success_code(status) ==> (r matches Err(e) && e@.kind == ErrorKind::Fetch
            && e@.reason == "Failed to retrieve URL"@),
{
    if 200 <= status && status < 300 {
        Ok(bytes)
    } else {
        Err(ApiError::new(ErrorKind::Fetch, "Failed to retrieve URL"))
    }
}

/// Decides one skip-if-exists download and performs the fetch when it is
/// due: an existing target is never re-fetched nor overwritten unless
/// forced, and the call then succeeds with nothing to store — and that
/// skipped outcome arises only then: a forced call, or one whose target is
/// missing, always attempts the fetch. Its answer is decided exactly as
/// `bytes_of_response` states; a transport failure is the fetch error.
pub fn wget(url: &str, exists: bool, force: bool) -> (r: Result<Option<Vec<u8>>, ApiError>)
    ensures
        (r matches Ok(b) && b is None) <==> (!force && exists),
        r matches Err(e) ==> e@.kind == ErrorKind::Fetch,
{
    if !force && exists {
        return Ok(None);
    }
    match http_get_bytes(url) {
        Ok((status, bytes)) => match bytes_of_response(status, bytes) {
            Ok(b) => Ok(Some(b)),
            Err(e) => Err(e),
        },
        Err(e) => Err(ApiError::new(ErrorKind::Fetch, e.as_str())),
    }
}

} // verus!
