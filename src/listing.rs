use crate::bucket::{
    api_base, api_base_str, objects_url, objects_url_of, query_view, Bucket, Method, Request,
};
use crate::error::Error;
use vstd::prelude::*;
use vstd::string::*;

verus! {

/// One page of an object listing, as the service returned it.
#[derive(Clone, Debug)]
pub struct ListPage {
    /// Names of the objects directly under the prefix.
    pub items: Option<Vec<String>>,
    /// Sub-folder prefixes, each ending in the delimiter.
    pub prefixes: Option<Vec<String>>,
    /// Cursor of the next page; absent on the last page.
    pub next_page_token: Option<String>,
}

/// The delimiter that separates folders in object names.
pub open spec fn delimiter() -> char {
    '/'
}

/// A prefix without its trailing delimiter.
pub open spec fn stripped(s: Seq<char>) -> Seq<char> {
    if s.len() > 0 && s.last() == delimiter() {
        s.drop_last()
    } else {
        s
    }
}

/// The strings of an optional list; an absent list holds none.
pub open spec fn strings_of(v: Option<Vec<String>>) -> Seq<Seq<char>> {
    match v {
        Some(v) => v@.map_values(|s: String| s@),
        None => Seq::empty(),
    }
}

/// What one page adds to a listing: its object names in order, then its
/// prefixes in order without their trailing delimiter.
pub open spec fn page_names(p: ListPage) -> Seq<Seq<char>> {
    strings_of(p.items) + strings_of(p.prefixes).map_values(|s: Seq<char>| stripped(s))
}

/// What a sequence of pages adds up to: the names of each page, page after
/// page.
pub open spec fn listing_of(pages: Seq<ListPage>) -> Seq<Seq<char>> {
    pages.map_values(|p: ListPage| page_names(p)).flatten()
}

/// Page requests that all succeed, with these pages.
pub open spec fn fetched(pages: Seq<ListPage>) -> Seq<Result<ListPage, Error>> {
    pages.map_values(|p: ListPage| Ok::<ListPage, Error>(p))
}

/// How a listing that has gathered `acc` ends when the page requests have
/// the given outcomes, in order: the number of outcomes it takes, and its
/// result, or `None` when it still asks for another page after the last one.
pub open spec fn listing_outcome(acc: Seq<Seq<char>>, outcomes: Seq<Result<ListPage, Error>>) -> (
    nat,
    Option<Result<Seq<Seq<char>>, Error>>,
)
    decreases outcomes.len(),
{
    if outcomes.len() == 0 {
        (0, None)
    } else {
        match outcomes[0] {
            Err(e) => (1, Some(Err(e))),
            Ok(p) => match p.next_page_token {
                None => (1, Some(Ok(acc + page_names(p)))),
                Some(_) => {
                    let rest = listing_outcome(acc + page_names(p), outcomes.skip(1));
                    (rest.0 + 1, rest.1)
                },
            },
        }
    }
}

fn strip_delimiter(s: &str) -> (r: String)
    ensures
        r@ == stripped(s@),
{
    let n = s.unicode_len();
    if n > 0 && s.get_char(n - 1) == '/' {
        String::from_str(s.substring_char(0, n - 1))
    } else {
        String::from_str(s)
    }
}

/// The state of a listing in progress: the names gathered so far and the
/// cursor of the page to request next (empty before the first page).
#[derive(Clone, Debug)]
pub struct Listing {
    pub files: Vec<String>,
    pub page_token: String,
}

/// What to do after a page request.
#[derive(Debug)]
pub enum ListStep {
    /// Request the next page, from this state.
    Next(Listing),
    /// The listing is over, with this result.
    Done(Result<Vec<String>, Error>),
}

impl Listing {
    pub open spec fn names(&self) -> Seq<Seq<char>> {
        self.files@.map_values(|s: String| s@)
    }

    /// A listing that has gathered nothing and asks for the first page.
    pub fn new() -> (r: Listing)
        ensures
            r.names() == Seq::<Seq<char>>::empty(),
            r.page_token@ == Seq::<char>::empty(),
    {
        let r = Listing { files: Vec::new(), page_token: String::new() };
        assert(r.names() =~= Seq::<Seq<char>>::empty());
        r
    }

    fn push_all(&mut self, v: &Vec<String>, strip: bool)
        ensures
            final(self).page_token == old(self).page_token,
            !strip ==> final(self).names() == old(self).names() + v@.map_values(|s: String| s@),
            strip ==> final(self).names() == old(self).names() + v@.map_values(
                |s: String| s@,
            ).map_values(|s: Seq<char>| stripped(s)),
    {
        let ghost start = self.names();
        let ghost want = if strip {
            v@.map_values(|s: String| s@).map_values(|s: Seq<char>| stripped(s))
        } else {
            v@.map_values(|s: String| s@)
        };
        let mut i: usize = 0;
        while i < v.len()
            invariant
                i <= v@.len(),
                self.page_token == old(self).page_token,
                start == old(self).names(),
                want == (if strip {
                    v@.map_values(|s: String| s@).map_values(|s: Seq<char>| stripped(s))
                } else {
                    v@.map_values(|s: String| s@)
                }),
                self.names() =~= start + want.take(i as int),
            decreases v@.len() - i,
        {
            let s = if strip {
                strip_delimiter(v[i].as_str())
            } else {
                v[i].clone()
            };
            assert(s@ == want[i as int]);
            let ghost before = self.names();
            self.files.push(s);
            assert(self.names() =~= before.push(s@));
            i = i + 1;
            assert(want.take(i as int) =~= want.take(i - 1).push(want[i - 1]));
            assert(self.names() =~= start + want.take(i as int));
        }
        assert(want.take(i as int) =~= want);
    }

    /// Takes the outcome of the last page request. A failure ends the
    /// listing with that error and drops what was gathered; a page is
    /// appended, and then either the next page is asked for with its cursor
    /// or, on a page without a cursor, the listing ends with all it gathered.
    pub fn step(self, outcome: Result<ListPage, Error>) -> (r: ListStep)
        ensures
            match outcome {
                Err(e) => r == ListStep::Done(Err(e)),
                Ok(p) => match p.next_page_token {
                    Some(t) => r matches ListStep::Next(l) && l.names() == self.names()
                        + page_names(p) && l.page_token@ == t@,
                    None => r matches ListStep::Done(Ok(v)) && v@.map_values(|s: String| s@)
                        == self.names() + page_names(p),
                },
            },
    {
        match outcome {
            Err(e) => ListStep::Done(Err(e)),
            Ok(page) => {
                let mut next = self;
                match &page.items {
                    Some(v) => next.push_all(v, false),
                    None => {},
                }
                match &page.prefixes {
                    Some(v) => next.push_all(v, true),
                    None => {},
                }
                assert(next.names() =~= self.names() + page_names(page));
                match page.next_page_token {
                    Some(t) => ListStep::Next(Listing { files: next.files, page_token: t }),
                    None => ListStep::Done(Ok(next.files)),
                }
            },
        }
    }
}

/// The result of a listing as character sequences.
pub open spec fn result_view(r: Option<Result<Vec<String>, Error>>) -> Option<
    Result<Seq<Seq<char>>, Error>,
> {
    match r {
        None => None,
        Some(Ok(v)) => Some(Ok(v@.map_values(|s: String| s@))),
        Some(Err(e)) => Some(Err(e)),
    }
}

impl Listing {
    /// Runs a whole listing against page requests whose outcomes are given
    /// in order. Returns how many of them the listing took, and its result,
    /// or `None` when it asked for one more page than there are outcomes.
    pub fn run(outcomes: Vec<Result<ListPage, Error>>) -> (r: (usize, Option<Result<Vec<String>, Error>>))
        ensures
            (r.0 as nat, result_view(r.1)) == listing_outcome(Seq::empty(), outcomes@),
    {
        let ghost all = outcomes@;
        let total = outcomes.len();
        let mut rest = outcomes;
        let mut state = Listing::new();
        let mut taken: usize = 0;
        loop
            invariant
                taken as int + rest@.len() == all.len(),
                all.len() == total,
                all == outcomes@,
                listing_outcome(Seq::empty(), all).0 == taken + listing_outcome(
                    state.names(),
                    rest@,
                ).0,
                listing_outcome(Seq::empty(), all).1 == listing_outcome(state.names(), rest@).1,
            decreases rest@.len(),
        {
            if rest.len() == 0 {
                assert(listing_outcome(state.names(), rest@).1 is None);
                assert(listing_outcome(state.names(), rest@).0 == 0);
                return (taken, None);
            }
            let ghost before = rest@;
            let outcome = rest.remove(0);
            assert(before.skip(1) =~= rest@);
            taken = taken + 1;
            let ghost names = state.names();
            match state.step(outcome) {
                ListStep::Next(l) => {
                    state = l;
                },
                ListStep::Done(res) => {
                    assert(result_view(Some(res)) == listing_outcome(names, before).1);
                    assert(listing_outcome(names, before).0 == 1);
                    return (taken, Some(res));
                },
            }
        }
    }
}

impl Bucket {
    /// The request for the listing's next page of objects under `prefix`:
    /// a `GET` of the bucket's object collection that asks for folders split
    /// at the delimiter, up to 999 entries, and only the names, prefixes and
    /// cursor of the page.
    pub fn list_request(&self, prefix: &str, listing: &Listing) -> (r: Request)
        ensures
            r.method == Method::Get,
            r.url@ == objects_url(api_base(), self.spec_name()),
            query_view(r.query@) =~= seq![
                ("delimiter"@, "/"@),
                ("maxResults"@, "999"@),
                ("fields"@, "items/name,prefixes,nextPageToken"@),
                ("prefix"@, prefix@),
                ("pageToken"@, listing.page_token@),
            ],
    {
        let url = objects_url_of(api_base_str(), self.name());
        let query = vec![
            (String::from_str("delimiter"), String::from_str("/")),
            (String::from_str("maxResults"), String::from_str("999")),
            (String::from_str("fields"), String::from_str("items/name,prefixes,nextPageToken")),
            (String::from_str("prefix"), String::from_str(prefix)),
            (String::from_str("pageToken"), listing.page_token.clone()),
        ];
        Request { method: Method::Get, url, query }
    }
}

proof fn lemma_fetched_from(acc: Seq<Seq<char>>, pages: Seq<ListPage>, rest: Seq<Result<ListPage, Error>>)
    requires
        forall|i: int| 0 <= i < pages.len() ==> (#[trigger] pages[i]).next_page_token is Some,
    ensures
        listing_outcome(acc, fetched(pages) + rest).0 == pages.len() + listing_outcome(
            acc + listing_of(pages),
            rest,
        ).0,
        listing_outcome(acc, fetched(pages) + rest).1 == listing_outcome(
            acc + listing_of(pages),
            rest,
        ).1,
    decreases pages.len(),
{
    if pages.len() == 0 {
        assert(fetched(pages) + rest =~= rest);
        assert(listing_of(pages) =~= Seq::<Seq<char>>::empty());
        assert(acc + listing_of(pages) =~= acc);
    } else {
        let tail = pages.drop_first();
        assert((fetched(pages) + rest).skip(1) =~= fetched(tail) + rest);
        assert((fetched(pages) + rest)[0] == Ok::<ListPage, Error>(pages[0]));
        assert(pages.map_values(|p: ListPage| page_names(p)).drop_first() =~= tail.map_values(
            |p: ListPage| page_names(p),
        ));
        assert(listing_of(pages) == page_names(pages[0]) + listing_of(tail));
        lemma_fetched_from(acc + page_names(pages[0]), tail, rest);
        assert(acc + page_names(pages[0]) + listing_of(tail) =~= acc + listing_of(pages));
    }
}

/// A listing whose page requests all succeed, where every page but the last
/// carries a cursor, takes all the pages and returns, in page order, the
/// object names and then the stripped prefixes of each page.
pub proof fn lemma_listing_concatenates_pages(pages: Seq<ListPage>)
    requires
        pages.len() > 0,
        forall|i: int| 0 <= i < pages.len() - 1 ==> (#[trigger] pages[i]).next_page_token is Some,
        pages.last().next_page_token is None,
    ensures
        listing_outcome(Seq::empty(), fetched(pages)) == (pages.len(), Some(
            Ok::<Seq<Seq<char>>, Error>(listing_of(pages)),
        )),
{
    let init = pages.drop_last();
    let last = pages.last();
    assert forall|i: int| 0 <= i < init.len() implies (#[trigger] init[i]).next_page_token is Some by {
        assert(init[i] == pages[i]);
    }
    let rest = seq![Ok::<ListPage, Error>(last)];
    assert(fetched(pages) =~= fetched(init) + rest);
    lemma_fetched_from(Seq::empty(), init, rest);
    assert(pages.map_values(|p: ListPage| page_names(p)) =~= init.map_values(
        |p: ListPage| page_names(p),
    ).push(page_names(last)));
    init.map_values(|p: ListPage| page_names(p)).lemma_flatten_push(page_names(last));
    assert(Seq::<Seq<char>>::empty() + listing_of(init) =~= listing_of(init));
    assert(rest.skip(1) =~= Seq::<Result<ListPage, Error>>::empty());
}

/// A listing whose pages all carry a cursor never ends by itself: after any
/// number of such pages it asks for one more.
pub proof fn lemma_cursor_keeps_listing(pages: Seq<ListPage>)
    requires
        forall|i: int| 0 <= i < pages.len() ==> (#[trigger] pages[i]).next_page_token is Some,
    ensures
        listing_outcome(Seq::empty(), fetched(pages)) == (pages.len(), None::<
            Result<Seq<Seq<char>>, Error>,
        >),
{
    let none = Seq::<Result<ListPage, Error>>::empty();
    assert(fetched(pages) + none =~= fetched(pages));
    lemma_fetched_from(Seq::empty(), pages, none);
}

/// A failed page request ends the listing with its error, whatever pages
/// came before it and whatever would come after; nothing gathered is kept.
pub proof fn lemma_failure_aborts_listing(
    pages: Seq<ListPage>,
    e: Error,
    later: Seq<Result<ListPage, Error>>,
)
    requires
        forall|i: int| 0 <= i < pages.len() ==> (#[trigger] pages[i]).next_page_token is Some,
    ensures
        listing_outcome(Seq::empty(), fetched(pages) + seq![Err(e)] + later) == (
            pages.len() + 1,
            Some(Err::<Seq<Seq<char>>, Error>(e)),
        ),
{
    let rest = seq![Err::<ListPage, Error>(e)] + later;
    assert(fetched(pages) + seq![Err(e)] + later =~= fetched(pages) + rest);
    lemma_fetched_from(Seq::empty(), pages, rest);
}

} // verus!
