//! Cover-art query planning: the search query strings sent to the metadata
//! service, and the resolver that works through them in order.
//!
//! A query is a conjunction of `field:value` terms, joined by `" AND "`,
//! with a value quoted when it holds a space. The track query searches by
//! the release-group title narrowed by the artist; the album query by the
//! album narrowed by the album artist. An artist string may name several
//! artists separated by `+`; each one becomes its own conjunct, so that a
//! match must satisfy every listed artist.

use vstd::prelude::*;
use vstd::string::StrSliceExecFns;
use vstd::string::StringExecFns;
use crate::events::{FileMetadata, MetadataModel, opt_text};
use crate::text::{join_sep, join_with, texts_of};

verus! {

/// A value as it is embedded in a query: quoted when it holds a space.
pub open spec fn quoted(v: Seq<char>) -> Seq<char> {
    if v.contains(' ') {
        seq!['"'] + v + seq!['"']
    } else {
        v
    }
}

/// The release-group term of a query.
pub open spec fn release_group_term(v: Seq<char>) -> Seq<char> {
    "releasegroup:"@ + quoted(v)
}

/// One artist term of a query.
pub open spec fn artist_term(v: Seq<char>) -> Seq<char> {
    "artist:"@ + quoted(v)
}

/// `s` split on `'+'`: one part per separator plus one, each free of `'+'`,
/// empty parts included.
pub open spec fn split_plus(s: Seq<char>) -> Seq<Seq<char>>
    decreases s.len(),
{
    if s.len() == 0 {
        seq![Seq::<char>::empty()]
    } else {
        let rest = split_plus(s.drop_last());
        if s.last() == '+' {
            rest + seq![Seq::<char>::empty()]
        } else {
            rest.drop_last().push(rest.last() + seq![s.last()])
        }
    }
}

/// Splitting yields at least one part.
pub proof fn lemma_split_plus_nonempty(s: Seq<char>)
    ensures
        split_plus(s).len() >= 1,
    decreases s.len(),
{
    if s.len() > 0 {
        lemma_split_plus_nonempty(s.drop_last());
    }
}

/// The release-group terms of a query: one, or none without a title.
pub open spec fn rg_terms(release_group: Option<Seq<char>>) -> Seq<Seq<char>> {
    match release_group {
        Some(r) => seq![release_group_term(r)],
        None => Seq::<Seq<char>>::empty(),
    }
}

/// The artist terms of a query: one conjunct per `+`-separated artist.
pub open spec fn artist_terms(artist: Option<Seq<char>>) -> Seq<Seq<char>> {
    match artist {
        Some(a) => split_plus(a).map_values(|p: Seq<char>| artist_term(p)),
        None => Seq::<Seq<char>>::empty(),
    }
}

/// All terms of a query, in order.
pub open spec fn query_terms(release_group: Option<Seq<char>>, artist: Option<Seq<char>>) -> Seq<
    Seq<char>,
> {
    rg_terms(release_group) + artist_terms(artist)
}

/// The full query string: the terms joined conjunctively.
pub open spec fn search_query(release_group: Option<Seq<char>>, artist: Option<Seq<char>>) -> Seq<
    char,
> {
    join_sep(query_terms(release_group, artist), " AND "@)
}

/// The first query tried: search by title, narrowed by artist.
pub open spec fn track_query(m: MetadataModel) -> Seq<char> {
    search_query(m.title, m.artist)
}

/// The second query tried: search by album, narrowed by album artist.
pub open spec fn album_query(m: MetadataModel) -> Seq<char> {
    search_query(m.album, m.album_artist)
}

/// Whether the string `s` holds the character `c`.
fn contains_char(s: &str, c: char) -> (r: bool)
    ensures
        r == s@.contains(c),
{
    let n: usize = s.unicode_len();
    let mut i: usize = 0;
    while i < n
        invariant
            i <= n,
            n == s@.len(),
            forall|j: int| 0 <= j < i ==> s@[j] != c,
        decreases n - i,
    {
        if s.get_char(i) == c {
            proof {
                assert(s@[i as int] == c);
            }
            return true;
        }
        i += 1;
    }
    false
}

/// Quote `v` for embedding in a query when it holds a space.
fn quote_value(v: &str) -> (r: String)
    ensures
        r@ == quoted(v@),
{
    if contains_char(v, ' ') {
        let mut r = String::from_str("\"");
        r.append(v);
        r.append("\"");
        proof {
            reveal_strlit("\"");
            assert("\""@ =~= seq!['"']);
            assert(r@ =~= seq!['"'] + v@ + seq!['"']);
        }
        r
    } else {
        String::from_str(v)
    }
}

/// Build the release-group term for `v`.
fn make_release_group_term(v: &str) -> (r: String)
    ensures
        r@ == release_group_term(v@),
{
    let mut r = String::from_str("releasegroup:");
    let q = quote_value(v);
    r.append(q.as_str());
    r
}

/// Build one artist term for `v`.
fn make_artist_term(v: &str) -> (r: String)
    ensures
        r@ == artist_term(v@),
{
    let mut r = String::from_str("artist:");
    let q = quote_value(v);
    r.append(q.as_str());
    r
}

/// Split `s` on `'+'` into its parts, empty parts included.
pub fn split_plus_str(s: &str) -> (r: Vec<String>)
    ensures
        texts_of(r@) == split_plus(s@),
{
    let n: usize = s.unicode_len();
    let mut parts: Vec<String> = Vec::new();
    let mut start: usize = 0;
    let mut i: usize = 0;
    proof {
        assert(s@.subrange(0, 0) =~= Seq::<char>::empty());
        assert(texts_of(parts@).push(s@.subrange(0, 0)) =~= split_plus(s@.subrange(0, 0)));
    }
    while i < n
        invariant
            start <= i <= n,
            n == s@.len(),
            texts_of(parts@).push(s@.subrange(start as int, i as int)) == split_plus(
                s@.subrange(0, i as int),
            ),
        decreases n - i,
    {
        let ghost pre = s@.subrange(0, i as int);
        let ghost post = s@.subrange(0, i as int + 1);
        let ghost cur = s@.subrange(start as int, i as int);
        proof {
            assert(post.drop_last() =~= pre);
            assert(post.last() == s@[i as int]);
            lemma_split_plus_nonempty(pre);
            assert(split_plus(pre).drop_last() =~= texts_of(parts@));
            assert(split_plus(pre).last() == cur);
        }
        if s.get_char(i) == '+' {
            let ghost prev = parts@;
            parts.push(String::from_str(s.substring_char(start, i)));
            start = i + 1;
            proof {
                assert(texts_of(parts@) =~= texts_of(prev).push(cur));
                assert(texts_of(parts@) =~= split_plus(pre));
                assert(s@.subrange(start as int, i as int + 1) =~= Seq::<char>::empty());
                assert(split_plus(post) =~= split_plus(pre) + seq![Seq::<char>::empty()]);
                assert(texts_of(parts@).push(s@.subrange(start as int, i as int + 1)) =~= split_plus(
                    post,
                ));
            }
        } else {
            proof {
                assert(s@.subrange(start as int, i as int + 1) =~= cur + seq![s@[i as int]]);
                assert(split_plus(post) == split_plus(pre).drop_last().push(
                    split_plus(pre).last() + seq![s@[i as int]],
                ));
                assert(texts_of(parts@).push(s@.subrange(start as int, i as int + 1)) =~= split_plus(
                    post,
                ));
            }
        }
        i += 1;
    }
    let ghost prev = parts@;
    parts.push(String::from_str(s.substring_char(start, n)));
    proof {
        assert(s@.subrange(0, n as int) =~= s@);
        assert(texts_of(parts@) =~= texts_of(prev).push(s@.subrange(start as int, n as int)));
        assert(texts_of(parts@) =~= split_plus(s@));
    }
    parts
}

/// Build the terms of one query, in order.
fn build_query_terms(release_group: &Option<String>, artist: &Option<String>) -> (r: Vec<String>)
    ensures
        texts_of(r@) == query_terms(opt_text(*release_group), opt_text(*artist)),
{
    let mut terms: Vec<String> = Vec::new();
    if let Some(rg) = release_group {
        terms.push(make_release_group_term(rg.as_str()));
    }
    let ghost base = texts_of(terms@);
    proof {
        assert(base =~= rg_terms(opt_text(*release_group)));
    }
    if let Some(a) = artist {
        let parts = split_plus_str(a.as_str());
        let mut j: usize = 0;
        while j < parts.len()
            invariant
                j <= parts@.len(),
                texts_of(parts@) == split_plus(a@),
                base == rg_terms(opt_text(*release_group)),
                texts_of(terms@) == base + split_plus(a@).subrange(0, j as int).map_values(
                    |p: Seq<char>| artist_term(p),
                ),
            decreases parts@.len() - j,
        {
            let ghost prev = terms@;
            terms.push(make_artist_term(parts[j].as_str()));
            proof {
                let sp = split_plus(a@);
                assert(parts@[j as int]@ == sp[j as int]);
                assert(texts_of(terms@) =~= texts_of(prev).push(artist_term(sp[j as int])));
                assert(sp.subrange(0, j as int + 1).map_values(|p: Seq<char>| artist_term(p)) =~= sp
                    .subrange(0, j as int).map_values(|p: Seq<char>| artist_term(p)).push(
                    artist_term(sp[j as int]),
                ));
                assert(texts_of(terms@) =~= base + sp.subrange(0, j as int + 1).map_values(
                    |p: Seq<char>| artist_term(p),
                ));
            }
            j += 1;
        }
        proof {
            let sp = split_plus(a@);
            assert(sp.subrange(0, sp.len() as int) =~= sp);
            assert(texts_of(terms@) =~= query_terms(opt_text(*release_group), opt_text(*artist)));
        }
    } else {
        proof {
            assert(texts_of(terms@) =~= query_terms(opt_text(*release_group), opt_text(*artist)));
        }
    }
    terms
}

/// Build one full query string from its release-group and artist inputs.
pub fn build_search_query(release_group: &Option<String>, artist: &Option<String>) -> (r: String)
    ensures
        r@ == search_query(opt_text(*release_group), opt_text(*artist)),
{
    let terms = build_query_terms(release_group, artist);
    join_with(&terms, " AND ")
}

/// The query of the track lookup for the given metadata.
pub fn build_track_query(metadata: &FileMetadata) -> (r: String)
    ensures
        r@ == track_query(metadata@),
{
    build_search_query(&metadata.title, &metadata.artist)
}

/// The query of the album lookup for the given metadata.
pub fn build_album_query(metadata: &FileMetadata) -> (r: String)
    ensures
        r@ == album_query(metadata@),
{
    build_search_query(&metadata.album, &metadata.album_artist)
}

// ---------------------------------------------------------------------------
// The resolver
// ---------------------------------------------------------------------------
/// Mathematical image of the resolver.
#[verifier::ext_equal]
pub ghost struct ResolverModel {
    pub queries: Seq<Seq<char>>,
    pub next_index: int,
    pub found: Option<Seq<char>>,
    pub done: bool,
}

/// A well-formed resolver never points past its query list.
pub open spec fn resolver_wf(m: ResolverModel) -> bool {
    0 <= m.next_index <= m.queries.len()
}

/// The query the resolver hands out next, if any.
pub open spec fn handed_query(m: ResolverModel) -> Option<Seq<char>> {
    if !m.done && m.next_index < m.queries.len() {
        Some(m.queries[m.next_index])
    } else {
        None
    }
}

/// The resolver after handing out a query (or finding none left).
pub open spec fn advance_spec(m: ResolverModel) -> ResolverModel {
    if m.done {
        m
    } else if m.next_index < m.queries.len() {
        ResolverModel { next_index: m.next_index + 1, ..m }
    } else {
        ResolverModel { done: true, ..m }
    }
}

/// The resolver after a query's response came back.
pub open spec fn submit_spec(m: ResolverModel, url: Option<Seq<char>>) -> ResolverModel {
    match url {
        Some(u) => ResolverModel { found: Some(u), done: true, ..m },
        None => m,
    }
}

/// The cover-art resolver: it hands out the track query and then the album
/// query, stops at the first response that carries a URL, and degrades to
/// no artwork when every lookup misses or fails. Disabled, it performs no
/// lookup at all.
pub struct CoverArtResolver {
    queries: Vec<String>,
    next_index: usize,
    found: Option<String>,
    done: bool,
}

impl View for CoverArtResolver {
    type V = ResolverModel;

    closed spec fn view(&self) -> ResolverModel {
        ResolverModel {
            queries: texts_of(self.queries@),
            next_index: self.next_index as int,
            found: opt_text(self.found),
            done: self.done,
        }
    }
}

impl CoverArtResolver {
    /// A fresh resolver: the track query before the album query when
    /// enabled, no query at all when disabled.
    pub fn new(enabled: bool, metadata: &FileMetadata) -> (r: Self)
        ensures
            resolver_wf(r@),
            r@.queries == if enabled {
                seq![track_query(metadata@), album_query(metadata@)]
            } else {
                Seq::<Seq<char>>::empty()
            },
            r@.next_index == 0,
            r@.found is None,
            !r@.done,
    {
        let mut queries: Vec<String> = Vec::new();
        if enabled {
            queries.push(build_track_query(metadata));
            queries.push(build_album_query(metadata));
        }
        let r = Self { queries, next_index: 0, found: None, done: false };
        proof {
            if enabled {
                assert(r@.queries =~= seq![track_query(metadata@), album_query(metadata@)]);
            } else {
                assert(r@.queries =~= Seq::<Seq<char>>::empty());
            }
        }
        r
    }

    /// Hand out the next query to execute, or nothing once the lookup is
    /// over — in particular, nothing after a query already succeeded.
    pub fn next_query(&mut self) -> (r: Option<String>)
        requires
            resolver_wf(old(self)@),
        ensures
            resolver_wf(final(self)@),
            final(self)@ == advance_spec(old(self)@),
            opt_text(r) == handed_query(old(self)@),
    {
        if self.done {
            return None;
        }
        if self.next_index < self.queries.len() {
            let q = self.queries[self.next_index].clone();
            proof {
                assert(texts_of(self.queries@)[self.next_index as int] == self.queries@[self.next_index as int]@);
            }
            self.next_index = self.next_index + 1;
            Some(q)
        } else {
            self.done = true;
            None
        }
    }

    /// Feed back the response of the query last handed out: a URL finishes
    /// the lookup with that URL, no URL lets the lookup move on.
    pub fn submit_result(&mut self, url: Option<String>)
        requires
            resolver_wf(old(self)@),
        ensures
            resolver_wf(final(self)@),
            final(self)@ == submit_spec(old(self)@, opt_text(url)),
    {
        if url.is_some() {
            self.found = url;
            self.done = true;
        }
    }

    /// The resolved artwork URL, if any query succeeded.
    pub fn resolved(&self) -> (r: Option<String>)
        ensures
            opt_text(r) == self@.found,
    {
        match &self.found {
            Some(u) => Some(u.clone()),
            None => None,
        }
    }
}

// ---------------------------------------------------------------------------
// Laws
// ---------------------------------------------------------------------------
/// A hit short-circuits the lookup order: once a query's response carries a
/// URL, the resolver keeps that URL and never hands out another query.
pub proof fn lemma_hit_short_circuits(m: ResolverModel, url: Seq<char>)
    ensures
        submit_spec(m, Some(url)).found == Some(url),
        handed_query(submit_spec(m, Some(url))) is None,
{
}

/// An artist string free of `'+'` is a single conjunct.
pub proof fn lemma_split_plus_single(a: Seq<char>)
    requires
        !a.contains('+'),
    ensures
        split_plus(a) == seq![a],
    decreases a.len(),
{
    if a.len() == 0 {
        assert(a =~= Seq::<char>::empty());
        assert(split_plus(a) =~= seq![a]);
    } else {
        assert(a.last() != '+') by {
            assert(a.contains(a[a.len() - 1]));
        }
        assert(!a.drop_last().contains('+')) by {
            if a.drop_last().contains('+') {
                let k = choose|k: int| 0 <= k < a.drop_last().len() && a.drop_last()[k] == '+';
                assert(a[k] == '+');
                assert(a.contains('+'));
            }
        }
        lemma_split_plus_single(a.drop_last());
        let rest = split_plus(a.drop_last());
        assert(rest == seq![a.drop_last()]);
        assert(rest.drop_last() =~= Seq::<Seq<char>>::empty());
        assert(rest.last() == a.drop_last());
        assert(a.drop_last() + seq![a.last()] =~= a);
        assert(split_plus(a) == rest.drop_last().push(a));
        assert(rest.drop_last().push(a) =~= seq![a]);
    }
}

/// An artist string `"{a}+{b}"` splits into exactly the two conjuncts `a`
/// and `b`: the query requires both artists, never one or the other.
pub proof fn lemma_split_plus_conjunctive(a: Seq<char>, b: Seq<char>)
    requires
        !a.contains('+'),
        !b.contains('+'),
    ensures
        split_plus(a + seq!['+'] + b) == seq![a, b],
    decreases b.len(),
{
    let s = a + seq!['+'] + b;
    if b.len() == 0 {
        assert(s.drop_last() =~= a);
        assert(s.last() == '+');
        lemma_split_plus_single(a);
        assert(split_plus(s) == split_plus(a) + seq![Seq::<char>::empty()]);
        assert(b =~= Seq::<char>::empty());
        assert(seq![a] + seq![Seq::<char>::empty()] =~= seq![a, b]);
    } else {
        assert(!b.drop_last().contains('+')) by {
            if b.drop_last().contains('+') {
                let k = choose|k: int|
                    0 <= k < b.drop_last().len() && b.drop_last()[k] == '+';
                assert(b[k] == '+');
                assert(b.contains('+'));
            }
        }
        lemma_split_plus_conjunctive(a, b.drop_last());
        assert(s.drop_last() =~= a + seq!['+'] + b.drop_last());
        assert(s.last() == b.last()) by {
            assert(s[s.len() - 1] == b[b.len() - 1]);
        }
        assert(b.last() != '+') by {
            assert(b.contains(b[b.len() - 1]));
        }
        let rest = split_plus(s.drop_last());
        assert(rest == seq![a, b.drop_last()]);
        assert(rest.drop_last() =~= seq![a]);
        assert(rest.last() == b.drop_last());
        assert(b.drop_last() + seq![b.last()] =~= b);
        assert(split_plus(s) == rest.drop_last().push(b));
        assert(rest.drop_last().push(b) =~= seq![a, b]);
    }
}

} // verus!
