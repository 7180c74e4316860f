use vstd::prelude::*;
use crate::download::{wget_to_dir, ImageJob};
use crate::error::{ApiError, ErrorKind};
use crate::extract::{
    extract_properties, extract_screenshots, gallery_images_of, itemprops_of, props_of,
};
use crate::net::{http_get_page, is_success_code};
use crate::numtext::{dec_str, u64_to_string};
use crate::props::PageProperties;
use crate::urls::{
    appid_from_url, appid_of_segments, full_size_spec, full_size_url, url_segments_of,
    valid_app_segments,
};

verus! {

/// The detail-page URL for an item identifier, from the fixed template.
pub open spec fn page_url_spec(appid: nat) -> Seq<char> {
    "http://store.steampowered.com/app/"@ + dec_str(appid) + "/"@
}

/// The per-item cache directory.
pub open spec fn cache_dir_spec(appid: nat) -> Seq<char> {
    "cache/"@ + dec_str(appid)
}

/// The cache path of the detail-page body itself.
pub open spec fn page_cache_path_spec(appid: nat) -> Seq<char> {
    cache_dir_spec(appid) + "/index.html"@
}

/// Cache resolution is deterministic: two paths resolved for the same
/// identifier are the same path.
pub proof fn lemma_resolve_deterministic(appid: nat, path_a: Seq<char>, path_b: Seq<char>)
    requires
        path_a == page_cache_path_spec(appid),
        path_b == page_cache_path_spec(appid),
    ensures
        path_a == path_b,
{
}

/// The detail-page URL for an item identifier.
pub fn page_url(appid: u64) -> (r: String)
    ensures
        r@ == page_url_spec(appid as nat),
{
    let base: String = "http://store.steampowered.com/app/".to_owned();
    let r = base.concat(u64_to_string(appid).as_str()).concat("/");
    proof {
        assert(r@ =~= page_url_spec(appid as nat));
    }
    r
}

/// The per-item cache directory for an item identifier.
pub fn cache_dir(appid: u64) -> (r: String)
    ensures
        r@ == cache_dir_spec(appid as nat),
{
    let base: String = "cache/".to_owned();
    base.concat(u64_to_string(appid).as_str())
}

/// The cache path of the detail-page body for an item identifier.
pub fn page_cache_path(appid: u64) -> (r: String)
    ensures
        r@ == page_cache_path_spec(appid as nat),
{
    cache_dir(appid).concat("/index.html")
}

/// The outcome of obtaining a page body: the body text, and whether a
/// network fetch produced it. A reused cached copy is not fetched and
/// leaves nothing to persist.
pub struct FetchedBody {
    pub body: String,
    pub fetched: bool,
}

/// Decides a detail-page answer: a success status yields exactly the body
/// that came back, marked for persisting; any other status is the fetch
/// error.
pub fn page_of_response(status: u16, body: String) -> (r: Result<FetchedBody, ApiError>)
    ensures
        is_success_code(status) ==> (r matches Ok(f) && f.body == body && f.fetched),
        !is_success_code(status) ==> (r matches Err(e) && e@.kind == ErrorKind::Fetch
            && e@.reason == "Failed to retrieve steam store page"@),
{
    if 200 <= status && status < 300 {
        Ok(FetchedBody { body, fetched: true })
    } else {
        Err(ApiError::new(ErrorKind::Fetch, "Failed to retrieve steam store page"))
    }
}

/// Obtains a detail-page body cache-first: a cached copy is returned as it
/// stands and never triggers a fetch; without one, the URL is fetched once
/// with the fixed gate cookies, and the answer is decided exactly as
/// `page_of_response` states; a transport failure is the fetch error.
pub fn fetch(url: &str, cached: Option<String>) -> (r: Result<FetchedBody, ApiError>)
    ensures
        (match cached {
            Some(b) => r matches Ok(f) && f.body == b && !f.fetched,
            None => r matches Ok(f) ==> f.fetched,
        }),
        r matches Err(e) ==> e@.kind == ErrorKind::Fetch,
{
    match cached {
        Some(body) => Ok(FetchedBody { body, fetched: false }),
        None => match http_get_page(url) {
            Ok((status, body)) => page_of_response(status, body),
            Err(e) => Err(ApiError::new(ErrorKind::Fetch, e.as_str())),
        },
    }
}

/// One pipeline result: the item identifier, its cache directory, the
/// extracted properties and the screenshot locators of its detail page.
/// Immutable once built; the pipeline discards it after the run.
#[derive(Debug)]
pub struct Page {
    appid: u64,
    cache_path: String,
    props: PageProperties,
    screenshots: Vec<String>,
}

/// The mathematical shape of a page.
pub ghost struct PageModel {
    pub appid: nat,
    pub cache_path: Seq<char>,
    pub props: Map<Seq<char>, Seq<char>>,
    pub screenshots: Seq<Seq<char>>,
}

impl View for Page {
    type V = PageModel;

    closed spec fn view(&self) -> PageModel {
        PageModel {
            appid: self.appid as nat,
            cache_path: self.cache_path@,
            props: self.props@,
            screenshots: self.screenshots@.map_values(|s: String| s@),
        }
    }
}

/// The page that extraction yields for identifier `appid` and detail-page
/// body text `body`.
pub open spec fn page_model(appid: nat, body: Seq<char>) -> PageModel {
    PageModel {
        appid: appid,
        cache_path: cache_dir_spec(appid),
        props: props_of(itemprops_of(body)),
        screenshots: gallery_images_of(body),
    }
}

/// The outcome of one scrape: the page, the body it was built from, and
/// whether that body came from the network (and so is still to be
/// persisted at the page's cache path).
pub struct ScrapeOutcome {
    pub page: Page,
    pub body: String,
    pub fetched: bool,
}

/// What a scrape of a detail-page URL leaves behind: a rejected locator
/// shape is an error before any fetch; a cached body is reused, never
/// fetched, and always yields the page extraction gives for it; a fetched
/// body yields that page too and is marked for persisting.
pub open spec fn scrape_post(
    url: Seq<char>,
    cached: Option<String>,
    r: Result<ScrapeOutcome, ApiError>,
) -> bool {
    match url_segments_of(url) {
        Some(segs) => {
            &&& (valid_app_segments(segs) && cached is Some) ==> (r matches Ok(o) && o.body
                == cached->Some_0 && !o.fetched)
            &&& valid_app_segments(segs) ==> (r matches Ok(o) ==> o.page@ == page_model(
                appid_of_segments(segs),
                o.body@,
            ) && (o.fetched <==> cached is None))
            &&& valid_app_segments(segs) ==> (r matches Err(e) ==> e@.kind == ErrorKind::Fetch)
            &&& !valid_app_segments(segs) ==> (r matches Err(e) && e@.kind == ErrorKind::Locator)
        },
        None => r matches Err(e) && e@.kind == ErrorKind::Locator,
    }
}

/// The image locators a page asks to download, in order: the "image"
/// property when present, then each screenshot in its full-size form.
pub open spec fn image_candidates_spec(m: PageModel) -> Seq<Seq<char>> {
    let shots = m.screenshots.map_values(|s: Seq<char>| full_size_spec(s));
    if m.props.contains_key("image"@) {
        seq![m.props["image"@]] + shots
    } else {
        shots
    }
}

impl Page {
    /// The item identifier this page was scraped for.
    pub fn appid(&self) -> (r: u64)
        ensures
            r as nat == self@.appid,
    {
        self.appid
    }

    /// The cache directory every artefact of this item is stored under.
    pub fn cache_path(&self) -> (r: &str)
        ensures
            r@ == self@.cache_path,
    {
        self.cache_path.as_str()
    }

    /// The named properties extracted from the detail page.
    pub fn props(&self) -> (r: &PageProperties)
        ensures
            r@ == self@.props,
    {
        &self.props
    }

    /// The screenshot locators of the detail page, in document order.
    pub fn screenshots(&self) -> (r: &Vec<String>)
        ensures
            r@.map_values(|s: String| s@) == self@.screenshots,
    {
        &self.screenshots
    }

    /// Builds the page for `appid` from a detail-page body: extraction of
    /// the named properties and the screenshot gallery, and derivation of
    /// the cache directory.
    pub fn build(appid: u64, body: &str) -> (r: Page)
        ensures
            r@ == page_model(appid as nat, body@),
    {
        let props = extract_properties(body);
        let screenshots = extract_screenshots(body);
        let cache_path = cache_dir(appid);
        Page { appid, cache_path, props, screenshots }
    }

    /// Runs the pipeline for a detail-page URL: validates the locator
    /// shape, obtains the body cache-first, and extracts the page.
    pub fn scrape_url(url: &str, cached: Option<String>) -> (r: Result<ScrapeOutcome, ApiError>)
        ensures
            scrape_post(url@, cached, r),
    {
        let appid = match appid_from_url(url) {
            Ok(v) => v,
            Err(e) => {
                return Err(e);
            },
        };
        let f = match fetch(url, cached) {
            Ok(f) => f,
            Err(e) => {
                return Err(e);
            },
        };
        let page = Page::build(appid, f.body.as_str());
        Ok(ScrapeOutcome { page, body: f.body, fetched: f.fetched })
    }

    /// Runs the pipeline for an item identifier, constructing the
    /// detail-page URL from the fixed template first. The constructed URL
    /// is validated like any other locator.
    pub fn scrape(appid: u64, cached: Option<String>) -> (r: Result<ScrapeOutcome, ApiError>)
        ensures
            scrape_post(page_url_spec(appid as nat), cached, r),
    {
        let url = page_url(appid);
        Page::scrape_url(url.as_str(), cached)
    }

    /// The image locators this page asks to download, in order: the
    /// "image" property when present, then each screenshot rewritten to
    /// its full-size form.
    pub fn image_candidates(&self) -> (r: Vec<String>)
        ensures
            r@.map_values(|s: String| s@) == image_candidates_spec(self@),
    {
        let mut out: Vec<String> = Vec::new();
        match self.props.get("image") {
            Some(v) => {
                out.push(v.to_owned());
            },
            None => (),
        }
        let ghost head = out@.map_values(|s: String| s@);
        let ghost shots = self@.screenshots.map_values(|s: Seq<char>| full_size_spec(s));
        let mut i: usize = 0;
        while i < self.screenshots.len()
            invariant
                0 <= i <= self.screenshots@.len(),
                head == (if self@.props.contains_key("image"@) {
                    seq![self@.props["image"@]]
                } else {
                    Seq::<Seq<char>>::empty()
                }),
                shots == self@.screenshots.map_values(|s: Seq<char>| full_size_spec(s)),
                self@.screenshots == self.screenshots@.map_values(|s: String| s@),
                out@.map_values(|s: String| s@) == head + shots.subrange(0, i as int),
            decreases self.screenshots@.len() - i,
        {
            let rewritten = full_size_url(self.screenshots[i].as_str());
            proof {
                assert(self.screenshots@.map_values(|s: String| s@)[i as int]
                    == self.screenshots@[i as int]@);
                assert(shots[i as int] == full_size_spec(self@.screenshots[i as int]));
            }
            let ghost out0 = out@;
            out.push(rewritten);
            proof {
                let prev = out0.map_values(|s: String| s@);
                let curr = out@.map_values(|s: String| s@);
                let goal = head + shots.subrange(0, i + 1);
                assert forall|j: int| 0 <= j < curr.len() implies curr[j] == goal[j] by {
                    assert(curr[j] == out@[j]@);
                    if j < prev.len() {
                        assert(out@[j] == out0[j]);
                        assert(prev[j] == out0[j]@);
                        assert(goal[j] == (head + shots.subrange(0, i as int))[j]);
                    } else {
                        assert(out@[j] == rewritten);
                        assert(goal[j] == shots[i as int]);
                    }
                }
                assert(curr =~= goal);
            }
            i = i + 1;
        }
        proof {
            assert(shots.subrange(0, self.screenshots@.len() as int) =~= shots);
            assert(out@.map_values(|s: String| s@) =~= image_candidates_spec(self@));
        }
        out
    }

    /// Plans the downloads for this page: one slot per image candidate, in
    /// order, each holding the derived target under this page's cache
    /// directory or the error that derivation gave. Failures are isolated
    /// per image: one bad locator leaves every other slot untouched.
    pub fn fetch_images(&self) -> (r: Vec<Result<ImageJob, ApiError>>)
        ensures
            r@.len() == image_candidates_spec(self@).len(),
            forall|i: int|
                #![trigger r@[i]]
                0 <= i < r@.len() ==> (match url_segments_of(image_candidates_spec(self@)[i]) {
                    Some(segs) => if segs.len() > 0 {
                        r@[i] matches Ok(j) && j.url@ == image_candidates_spec(self@)[i] && j.path@
                            == self@.cache_path + "/"@ + segs.last()
                    } else {
                        r@[i] matches Err(e) && e@.kind == ErrorKind::Locator
                    },
                    None => r@[i] matches Err(e) && e@.kind == ErrorKind::Locator,
                }),
    {
        let candidates = self.image_candidates();
        let ghost cand = image_candidates_spec(self@);
        let mut out: Vec<Result<ImageJob, ApiError>> = Vec::new();
        let mut i: usize = 0;
        while i < candidates.len()
            invariant
                0 <= i <= candidates@.len(),
                cand == image_candidates_spec(self@),
                candidates@.map_values(|s: String| s@) == cand,
                out@.len() == i,
                self.cache_path@ == self@.cache_path,
                forall|j: int|
                    #![trigger out@[j]]
                    0 <= j < i ==> (match url_segments_of(cand[j]) {
                        Some(segs) => if segs.len() > 0 {
                            out@[j] matches Ok(jb) && jb.url@ == cand[j] && jb.path@
                                == self@.cache_path + "/"@ + segs.last()
                        } else {
                            out@[j] matches Err(e) && e@.kind == ErrorKind::Locator
                        },
                        None => out@[j] matches Err(e) && e@.kind == ErrorKind::Locator,
                    }),
            decreases candidates@.len() - i,
        {
            proof {
                assert(candidates@.map_values(|s: String| s@)[i as int]
                    == candidates@[i as int]@);
            }
            let job = wget_to_dir(candidates[i].as_str(), self.cache_path.as_str());
            out.push(job);
            i = i + 1;
        }
        out
    }
}

/// Runs the extraction pipeline for each identifier with its
/// already-obtained detail-page fetch outcome: one result per identifier,
/// in order. A failed fetch fails only its own slot; every slot with a
/// body yields its page.
pub fn process_items(ids: &Vec<u64>, bodies: &Vec<Result<String, String>>) -> (r: Vec<
    Result<Page, ApiError>,
>)
    requires
        ids@.len() == bodies@.len(),
    ensures
        r@.len() == ids@.len(),
        forall|i: int|
            #![trigger r@[i]]
            0 <= i < r@.len() ==> (match bodies@[i] {
                Ok(b) => r@[i] matches Ok(p) && p@ == page_model(ids@[i] as nat, b@),
                Err(_) => r@[i] matches Err(e) && e@.kind == ErrorKind::Fetch,
            }),
{
    let mut out: Vec<Result<Page, ApiError>> = Vec::new();
    let mut i: usize = 0;
    while i < ids.len()
        invariant
            0 <= i <= ids@.len(),
            ids@.len() == bodies@.len(),
            out@.len() == i,
            forall|j: int|
                #![trigger out@[j]]
                0 <= j < i ==> (match bodies@[j] {
                    Ok(b) => out@[j] matches Ok(p) && p@ == page_model(ids@[j] as nat, b@),
                    Err(_) => out@[j] matches Err(e) && e@.kind == ErrorKind::Fetch,
                }),
        decreases ids@.len() - i,
    {
        match &bodies[i] {
            Ok(body) => {
                let page = Page::build(ids[i], body.as_str());
                out.push(Ok(page));
            },
            Err(_) => {
                out.push(Err(ApiError::new(ErrorKind::Fetch, "Failed to retrieve steam store page")));
            },
        }
        i = i + 1;
    }
    out
}

/// Batch isolation: in a batch whose slots meet `process_items`'s
/// contract, a slot whose detail-page body was obtained yields its page,
/// whatever every other slot holds.
pub proof fn lemma_batch_isolation(
    ids: Seq<u64>,
    bodies: Seq<Result<String, String>>,
    r: Seq<Result<Page, ApiError>>,
    i: int,
)
    requires
        r.len() == ids.len(),
        bodies.len() == ids.len(),
        forall|j: int|
            #![trigger r[j]]
            0 <= j < r.len() ==> (match bodies[j] {
                Ok(b) => r[j] matches Ok(p) && p@ == page_model(ids[j] as nat, b@),
                Err(_) => r[j] is Err,
            }),
        0 <= i < ids.len(),
        bodies[i] is Ok,
    ensures
        r[i] matches Ok(p) && p@ == page_model(ids[i] as nat, bodies[i]->Ok_0@),
{
    assert(match bodies[i] {
        Ok(b) => r[i] matches Ok(p) && p@ == page_model(ids[i] as nat, b@),
        Err(_) => r[i] is Err,
    });
}

} // verus!
