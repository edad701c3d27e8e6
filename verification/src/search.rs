//! Image metadata records and the bounded, sequential author search: a
//! paginated scan that filters each fetched page by a case-insensitive
//! substring match against the author name, until enough matches were
//! collected, ten pages were scanned, or the catalog ended.
//!
//! The scan is a state machine: `next_page` says which page the caller must
//! fetch next, `feed_page` consumes a fetched page, `into_results` yields
//! the matches cut to the requested limit. The caller that owns the network
//! drives it; tests drive it over an in-memory catalog.

use vstd::prelude::*;

verus! {

/// Metadata of one remote image, as the catalog reports it.
#[derive(Debug)]
pub struct ImageInfo {
    pub id: String,
    pub author: String,
    pub width: u32,
    pub height: u32,
    pub url: String,
    pub download_url: String,
}

/// The lowercase form of a string, character for character as
/// `str::to_lowercase` produces it: a pure function of the characters alone.
pub uninterp spec fn lower_of(s: Seq<char>) -> Seq<char>;

/// Whether `needle` occurs in `hay` as a contiguous run of characters.
pub open spec fn spec_contains_sub(hay: Seq<char>, needle: Seq<char>) -> bool {
    exists|i: int|
        0 <= i && i + needle.len() <= hay.len() && #[trigger] hay.subrange(i, i + needle.len())
            == needle
}

/// Relies on `str::to_lowercase`: the Unicode lowercase form of `s`, a
/// function of the characters alone; an empty string stays empty.
#[verifier::external_body]
fn lowercase(s: &str) -> (r: String)
    ensures
        r@ == lower_of(s@),
        s@.len() == 0 ==> r@.len() == 0,
{
    s.to_lowercase()
}

/// Relies on `str::contains` with a `&str` pattern: true exactly when
/// `needle` occurs as a contiguous substring of `hay`.
#[verifier::external_body]
fn str_contains(hay: &str, needle: &str) -> (r: bool)
    ensures
        r == spec_contains_sub(hay@, needle@),
{
    hay.contains(needle)
}

/// Whether an author name matches a search query: the lowercase query occurs
/// in the lowercase author name.
pub open spec fn spec_author_matches(author: Seq<char>, query: Seq<char>) -> bool {
    spec_contains_sub(lower_of(author), lower_of(query))
}

/// Decides whether `author` matches `query`, case-insensitively.
pub fn author_matches(author: &str, query: &str) -> (r: bool)
    ensures
        r == spec_author_matches(author@, query@),
{
    let a = lowercase(author);
    let q = lowercase(query);
    str_contains(a.as_str(), q.as_str())
}

/// The predicate a record must pass to be collected for `query`.
pub open spec fn spec_record_matches(query: Seq<char>) -> spec_fn(ImageInfo) -> bool {
    |rec: ImageInfo| spec_author_matches(rec.author@, query)
}

/// Filtering distributes over appending one record.
proof fn lemma_filter_push(s: Seq<ImageInfo>, rec: ImageInfo, pred: spec_fn(ImageInfo) -> bool)
    ensures
        s.push(rec).filter(pred) == if pred(rec) {
            s.filter(pred).push(rec)
        } else {
            s.filter(pred)
        },
{
    reveal(Seq::filter);
    assert(s.push(rec).drop_last() =~= s);
    assert(s.push(rec).last() == rec);
}

/// Keeps exactly the records of `records` whose author matches `query`,
/// in their original order.
pub fn filter_by_author(records: Vec<ImageInfo>, query: &str) -> (r: Vec<ImageInfo>)
    ensures
        r@ == records@.filter(spec_record_matches(query@)),
{
    let ghost all = records@;
    let ghost pred = spec_record_matches(query@);
    let mut rest = records;
    let mut picked: Vec<ImageInfo> = Vec::new();
    proof {
        assert(all.subrange(0, 0) =~= Seq::<ImageInfo>::empty());
        assert(Seq::<ImageInfo>::empty().filter(pred) =~= Seq::<ImageInfo>::empty()) by {
            reveal(Seq::filter);
        }
    }
    while rest.len() > 0
        invariant
            rest@.len() <= all.len(),
            rest@ == all.subrange(all.len() - rest@.len(), all.len() as int),
            picked@ == all.subrange(0, all.len() - rest@.len()).filter(pred),
            pred == spec_record_matches(query@),
        decreases rest.len(),
    {
        let ghost k = all.len() - rest@.len();
        let ghost taken = all.subrange(0, k);
        let rec = rest.remove(0);
        proof {
            assert(rec == all[k]);
            assert(rest@ =~= all.subrange(k + 1, all.len() as int));
            assert(taken.push(rec) =~= all.subrange(0, k + 1));
            lemma_filter_push(taken, rec, pred);
        }
        if author_matches(rec.author.as_str(), query) {
            picked.push(rec);
        }
        proof {
            assert(picked@ == all.subrange(0, k + 1).filter(pred));
        }
    }
    proof {
        assert(all.subrange(0, all.len() as int) =~= all);
    }
    picked
}

/// How many pages the search will look at before it gives up.
pub open spec fn spec_page_cap() -> nat {
    10
}

/// How many records the search asks for per page.
pub open spec fn spec_page_size() -> u32 {
    30
}

/// The per-page record count the search requests.
pub fn search_page_size() -> (r: u32)
    ensures
        r == spec_page_size(),
{
    30
}

/// A running author search: the pages scanned so far, the matches collected
/// so far, and whether the catalog ended early.
pub struct SearchScan {
    pub query: String,
    pub limit: u32,
    pub next_page: u32,
    pub pages_fetched: u32,
    pub matches: Vec<ImageInfo>,
    pub exhausted: bool,
}

impl SearchScan {
    /// The scan invariant: pages are visited in order starting at one, no
    /// more than the page cap is ever fetched, and everything collected
    /// matches the query.
    pub open spec fn wf(&self) -> bool {
        &&& self.next_page as int == self.pages_fetched as int + 1
        &&& self.pages_fetched as nat <= spec_page_cap()
        &&& forall|i: int|
            0 <= i < self.matches@.len() ==> spec_author_matches(
                #[trigger] self.matches@[i].author@,
                self.query@,
            )
    }

    /// A fresh scan for `query`, collecting up to `limit` matches.
    pub fn new(query: String, limit: u32) -> (s: Self)
        ensures
            s.wf(),
            s.query@ == query@,
            s.limit == limit,
            s.next_page == 1,
            s.pages_fetched == 0,
            s.matches@ == Seq::<ImageInfo>::empty(),
            !s.exhausted,
    {
        SearchScan {
            query,
            limit,
            next_page: 1,
            pages_fetched: 0,
            matches: Vec::new(),
            exhausted: false,
        }
    }

    /// Whether the scan still wants a page: the catalog has not ended, fewer
    /// matches than the limit were collected, and the page cap is not hit.
    pub open spec fn spec_wants_page(&self) -> bool {
        &&& !self.exhausted
        &&& self.matches@.len() < self.limit
        &&& (self.pages_fetched as nat) < spec_page_cap()
    }

    /// The page to fetch next, or nothing when the scan is finished.
    pub fn next_page_to_fetch(&self) -> (r: Option<u32>)
        requires
            self.wf(),
        ensures
            r matches Some(p) ==> self.spec_wants_page() && p == self.next_page,
            r is None ==> !self.spec_wants_page(),
    {
        if !self.exhausted && (self.matches.len() as u64) < (self.limit as u64)
            && self.pages_fetched < 10 {
            Some(self.next_page)
        } else {
            None
        }
    }

    /// Consumes one fetched page: an empty page ends the scan as the end of
    /// the catalog; otherwise its matching records are appended, in order,
    /// and the scan moves to the following page.
    pub fn feed_page(&mut self, records: Vec<ImageInfo>)
        requires
            old(self).wf(),
            old(self).spec_wants_page(),
        ensures
            final(self).wf(),
            final(self).query@ == old(self).query@,
            final(self).limit == old(self).limit,
            records@.len() == 0 ==> {
                &&& final(self).exhausted
                &&& final(self).matches@ == old(self).matches@
                &&& final(self).pages_fetched == old(self).pages_fetched
            },
            records@.len() > 0 ==> {
                &&& final(self).exhausted == old(self).exhausted
                &&& final(self).matches@ == old(self).matches@ + records@.filter(
                    spec_record_matches(old(self).query@),
                )
                &&& final(self).pages_fetched == old(self).pages_fetched + 1
            },
    {
        if records.len() == 0 {
            self.exhausted = true;
            return ;
        }
        let ghost pred = spec_record_matches(self.query@);
        let ghost recs = records@;
        let mut found = filter_by_author(records, self.query.as_str());
        proof {
            assert forall|i: int| 0 <= i < found@.len() implies spec_author_matches(
                #[trigger] found@[i].author@,
                self.query@,
            ) by {
                recs.lemma_filter_pred(pred, i);
            }
        }
        self.matches.append(&mut found);
        self.pages_fetched = self.pages_fetched + 1;
        self.next_page = self.next_page + 1;
    }

    /// Ends the scan: the collected matches, cut to the requested limit.
    pub fn into_results(self) -> (r: Vec<ImageInfo>)
        requires
            self.wf(),
        ensures
            r@ == if self.matches@.len() <= self.limit {
                self.matches@
            } else {
                self.matches@.subrange(0, self.limit as int)
            },
            r@.len() <= self.limit,
            forall|i: int|
                0 <= i < r@.len() ==> spec_author_matches(#[trigger] r@[i].author@, self.query@),
    {
        let mut out = self.matches;
        let ghost before = out@;
        if out.len() > self.limit as usize {
            out.truncate(self.limit as usize);
        }
        proof {
            if before.len() <= self.limit {
                assert(out@ == before);
            } else {
                assert(out@ == before.subrange(0, self.limit as int));
            }
        }
        out
    }
}

} // verus!
