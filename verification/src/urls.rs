use vstd::prelude::*;
use crate::error::{ApiError, ErrorKind};
use crate::numtext::{all_dec_digits, dec_val, parse_u64};

verus! {

/// The path segments that the `url` crate reads out of the text `s`: the
/// parts of the parsed URL's path between `/` separators, or nothing when
/// `s` is not a valid absolute URL or its path cannot be split into
/// segments. The result is a function of `s` alone.
pub uninterp spec fn url_segments_of(s: Seq<char>) -> Option<Seq<Seq<char>>>;

/// Relies on `url::Url::parse` and `url::Url::path_segments`: parses `s`
/// and hands back its path segments, or nothing when parsing fails or the
/// URL cannot be segmented (a cannot-be-a-base URL).
#[verifier::external_body]
pub(crate) fn url_path_segments(s: &str) -> (r: Option<Vec<String>>)
    ensures
        (match r {
            Some(v) => url_segments_of(s@) == Some(v@.map_values(|t: String| t@)),
            None => url_segments_of(s@) is None,
        }),
{
    let parsed = match url::Url::parse(s) {
        Ok(u) => u,
        Err(_) => {
            return None;
        },
    };
    let segments = match parsed.path_segments() {
        Some(parts) => parts.map(|p| p.to_string()).collect(),
        None => {
            return None;
        },
    };
    Some(segments)
}

/// Whether a segment list has the detail-page shape: a literal "app"
/// segment followed by a non-empty decimal identifier segment whose value
/// fits in an unsigned 64-bit number.
pub open spec fn valid_app_segments(segs: Seq<Seq<char>>) -> bool {
    &&& segs.len() >= 2
    &&& segs[0] == "app"@
    &&& segs[1].len() > 0
    &&& all_dec_digits(segs[1])
    &&& dec_val(segs[1]) <= u64::MAX
}

/// The identifier carried by a valid detail-page segment list.
pub open spec fn appid_of_segments(segs: Seq<Seq<char>>) -> nat {
    dec_val(segs[1])
}

/// Reads the catalog item identifier out of a detail-page URL. The URL must
/// parse, its first path segment must be the literal "app", and its second
/// must be a decimal identifier; any other shape is rejected as a malformed
/// locator, before any fetch is attempted.
pub fn appid_from_url(url: &str) -> (r: Result<u64, ApiError>)
    ensures
        (match url_segments_of(url@) {
            Some(segs) => if valid_app_segments(segs) {
                r matches Ok(v) && v as nat == appid_of_segments(segs)
            } else {
                r matches Err(e) && e@.kind == ErrorKind::Locator
            },
            None => r matches Err(e) && e@.kind == ErrorKind::Locator,
        }),
{
    let segs = match url_path_segments(url) {
        Some(v) => v,
        None => {
            return Err(ApiError::new(ErrorKind::Locator, "Invalid Steam game URL"));
        },
    };
    if segs.len() < 2 {
        return Err(ApiError::new(ErrorKind::Locator, "Invalid Steam game URL"));
    }
    let app_lit: String = "app".to_owned();
    if !(segs[0] == app_lit) {
        return Err(ApiError::new(ErrorKind::Locator, "Invalid Steam game URL"));
    }
    proof {
        assert(segs@.map_values(|t: String| t@)[0] == segs@[0]@);
        assert(segs@.map_values(|t: String| t@)[1] == segs@[1]@);
    }
    match parse_u64(segs[1].as_str()) {
        Some(v) => Ok(v),
        None => Err(ApiError::new(ErrorKind::Locator, "Invalid Steam game URL")),
    }
}

/// The thumbnail-variant suffix that a screenshot locator may carry.
pub open spec fn thumb_suffix() -> Seq<char> {
    ".116x65.jpg"@
}

/// The full-size suffix that replaces the thumbnail one.
pub open spec fn full_suffix() -> Seq<char> {
    ".jpg"@
}

/// Whether `s` ends with the characters of `suffix`.
pub open spec fn ends_with(s: Seq<char>, suffix: Seq<char>) -> bool {
    s.len() >= suffix.len() && s.subrange(s.len() - suffix.len(), s.len() as int) == suffix
}

/// The full-size form of a screenshot locator: a locator ending in the
/// thumbnail suffix has that suffix replaced by the full-size one; any
/// other locator is left unchanged.
pub open spec fn full_size_spec(s: Seq<char>) -> Seq<char> {
    if ends_with(s, thumb_suffix()) {
        s.subrange(0, s.len() - thumb_suffix().len()) + full_suffix()
    } else {
        s
    }
}

/// Rewrites a thumbnail-sized screenshot locator to its full-size form and
/// leaves every other locator unchanged.
pub fn full_size_url(s: &str) -> (r: String)
    ensures
        r@ == full_size_spec(s@),
{
    let suffix = ".116x65.jpg";
    proof {
        reveal_strlit(".116x65.jpg");
        reveal_strlit(".jpg");
    }
    let n = s.unicode_len();
    let m = suffix.unicode_len();
    if n < m {
        return s.to_owned();
    }
    let mut i: usize = 0;
    while i < m
        invariant
            0 <= i <= m,
            n == s@.len(),
            m == thumb_suffix().len(),
            n >= m,
            suffix@ == thumb_suffix(),
            forall|j: int| 0 <= j < i ==> s@[n - m + j] == thumb_suffix()[j],
        decreases m - i,
    {
        if s.get_char(n - m + i) != suffix.get_char(i) {
            proof {
                assert(s@.subrange(n - m, n as int)[i as int] == s@[n - m + i]);
                assert(!ends_with(s@, thumb_suffix()));
            }
            return s.to_owned();
        }
        i = i + 1;
    }
    proof {
        assert(s@.subrange(n - m, n as int) =~= thumb_suffix());
    }
    let prefix = s.substring_char(0, n - m);
    let r = prefix.to_owned().concat(".jpg");
    proof {
        assert(r@ =~= full_size_spec(s@));
    }
    r
}

} // verus!
