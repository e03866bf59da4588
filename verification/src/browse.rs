//! The browse lane's correlation table: effects carry the requesting node's
//! id, the host notes it here before commanding the fetch service, and the
//! service's answer is reattached to it on the way back. The table keys by
//! address (all the service echoes) and pops one requester per completion;
//! an answer nobody asked for is dropped, never guessed at.

use vstd::prelude::*;
use vstd::hash_map::StringHashMap;

use crate::action::{Effect, FetchedPage, Update};
use crate::text::str_eq;

verus! {

/// A fetch service answer, as plain values.
#[derive(Debug, PartialEq)]
pub enum FetchUpdate {
    /// A page fetch completed (or failed) for `url`.
    Page { url: String, result: Result<FetchedPage, String> },
    /// A favicon for the page at `owner_url` arrived.
    Favicon { owner_url: String, bytes: Vec<u8> },
    /// A subresource arrived; the app has no lane for it.
    Subresource,
}

/// A command for the fetch service, as plain values.
#[derive(Clone, Debug, PartialEq)]
pub enum FetchCommand {
    Page(String),
    Favicon { owner_url: String, url: String },
}

/// The correlation table: which nodes asked for each in-flight fetch, by
/// address; most recent requester last.
pub struct PendingFetches {
    pages: StringHashMap<Vec<u128>>,
    favicons: StringHashMap<Vec<u128>>,
}

/// The requesters pending per address, for pages and for favicons.
pub struct PendingView {
    pub pages: Map<Seq<char>, Seq<u128>>,
    pub favicons: Map<Seq<char>, Seq<u128>>,
}

/// The id lists of a table.
pub open spec fn lists(m: Map<Seq<char>, Vec<u128>>) -> Map<Seq<char>, Seq<u128>> {
    m.map_values(|v: Vec<u128>| v@)
}

impl View for PendingFetches {
    type V = PendingView;

    closed spec fn view(&self) -> PendingView {
        PendingView { pages: lists(self.pages@), favicons: lists(self.favicons@) }
    }
}

/// No address is kept with nobody waiting on it.
pub open spec fn tidy(m: Map<Seq<char>, Seq<u128>>) -> bool {
    forall|k: Seq<char>| #[trigger] m.contains_key(k) ==> m[k].len() > 0
}

/// The table after `node` asks for `key`.
pub open spec fn noted(m: Map<Seq<char>, Seq<u128>>, key: Seq<char>, node: u128) -> Map<Seq<char>, Seq<u128>> {
    let waiting = if m.contains_key(key) { m[key] } else { Seq::empty() };
    m.insert(key, waiting.push(node))
}

/// The requester a completion for `key` goes to: the latest one waiting.
pub open spec fn taken(m: Map<Seq<char>, Seq<u128>>, key: Seq<char>) -> Option<u128> {
    if m.contains_key(key) && m[key].len() > 0 {
        Some(m[key].last())
    } else {
        None
    }
}

/// The table after a completion for `key` pops its requester (forgetting
/// the address once nobody waits on it).
pub open spec fn after_take(m: Map<Seq<char>, Seq<u128>>, key: Seq<char>) -> Map<Seq<char>, Seq<u128>> {
    if m.contains_key(key) {
        if m[key].len() <= 1 {
            m.remove(key)
        } else {
            m.insert(key, m[key].drop_last())
        }
    } else {
        m
    }
}

fn copy_ids(v: &Vec<u128>) -> (w: Vec<u128>)
    ensures
        w@ == v@,
{
    let mut w: Vec<u128> = Vec::new();
    let mut i: usize = 0;
    while i < v.len()
        invariant
            i <= v.len(),
            w@ == v@.take(i as int),
        decreases v.len() - i,
    {
        w.push(v[i]);
        assert(v@.take(i + 1) =~= v@.take(i as int).push(v@[i as int]));
        i = i + 1;
    }
    assert(v@.take(v.len() as int) =~= v@);
    w
}

fn note_one(map: &mut StringHashMap<Vec<u128>>, key: &str, node: u128)
    ensures
        lists(final(map)@) == noted(lists(old(map)@), key@, node),
{
    let mut waiting = match map.get(key) {
        Some(v) => copy_ids(v),
        None => Vec::new(),
    };
    waiting.push(node);
    map.insert(String::from_str(key), waiting);
    assert(lists(map@) =~= noted(lists(old(map)@), key@, node));
}

fn take_one(map: &mut StringHashMap<Vec<u128>>, key: &str) -> (r: Option<u128>)
    ensures
        r == taken(lists(old(map)@), key@),
        lists(final(map)@) == after_take(lists(old(map)@), key@),
{
    let mut waiting = match map.get(key) {
        Some(v) => copy_ids(v),
        None => {
            return None;
        },
    };
    let node = waiting.pop();
    if waiting.len() == 0 {
        map.remove(key);
        assert(lists(map@) =~= after_take(lists(old(map)@), key@));
    } else {
        map.insert(String::from_str(key), waiting);
        assert(lists(map@) =~= after_take(lists(old(map)@), key@));
    }
    node
}

impl PendingFetches {
    /// An empty table.
    pub fn new() -> (p: Self)
        ensures
            p@.pages == Map::<Seq<char>, Seq<u128>>::empty(),
            p@.favicons == Map::<Seq<char>, Seq<u128>>::empty(),
    {
        let p = PendingFetches { pages: StringHashMap::new(), favicons: StringHashMap::new() };
        assert(lists(p.pages@) =~= Map::<Seq<char>, Seq<u128>>::empty());
        assert(lists(p.favicons@) =~= Map::<Seq<char>, Seq<u128>>::empty());
        p
    }

    /// Note that `node` asked for the page at `url`.
    pub fn note_page(&mut self, url: &str, node: u128)
        ensures
            final(self)@.pages == noted(old(self)@.pages, url@, node),
            final(self)@.favicons == old(self)@.favicons,
    {
        note_one(&mut self.pages, url, node);
    }

    /// Note that `node` asked for the favicon of the page at `owner_url`.
    pub fn note_favicon(&mut self, owner_url: &str, node: u128)
        ensures
            final(self)@.favicons == noted(old(self)@.favicons, owner_url@, node),
            final(self)@.pages == old(self)@.pages,
    {
        note_one(&mut self.favicons, owner_url, node);
    }

    /// The requester a page completion for `url` goes to, popped.
    pub fn take_page(&mut self, url: &str) -> (r: Option<u128>)
        ensures
            r == taken(old(self)@.pages, url@),
            final(self)@.pages == after_take(old(self)@.pages, url@),
            final(self)@.favicons == old(self)@.favicons,
    {
        take_one(&mut self.pages, url)
    }

    /// The requester a favicon completion for `owner_url` goes to, popped.
    pub fn take_favicon(&mut self, owner_url: &str) -> (r: Option<u128>)
        ensures
            r == taken(old(self)@.favicons, owner_url@),
            final(self)@.favicons == after_take(old(self)@.favicons, owner_url@),
            final(self)@.pages == old(self)@.pages,
    {
        take_one(&mut self.favicons, owner_url)
    }
}

impl Default for PendingFetches {
    fn default() -> (p: Self)
        ensures
            p@.pages == Map::<Seq<char>, Seq<u128>>::empty(),
            p@.favicons == Map::<Seq<char>, Seq<u128>>::empty(),
    {
        PendingFetches::new()
    }
}

/// Convert one fetch-service answer into the app vocabulary, reattaching
/// the requesting node from the table. `None` for answers the app has no
/// lane for (subresources) and for answers nobody asked for.
pub fn update_from_fetch(update: FetchUpdate, pending: &mut PendingFetches) -> (r: Option<Update>)
    ensures
        match update {
            FetchUpdate::Page { url, result } => {
                &&& final(pending)@.pages == after_take(old(pending)@.pages, url@)
                &&& final(pending)@.favicons == old(pending)@.favicons
                &&& match taken(old(pending)@.pages, url@) {
                    Some(node) => r == Some(Update::PageFetched { node, url, result }),
                    None => r is None,
                }
            },
            FetchUpdate::Favicon { owner_url, bytes } => {
                &&& final(pending)@.favicons == after_take(old(pending)@.favicons, owner_url@)
                &&& final(pending)@.pages == old(pending)@.pages
                &&& match taken(old(pending)@.favicons, owner_url@) {
                    Some(node) => r == Some(Update::FaviconFetched { node, owner_url, bytes }),
                    None => r is None,
                }
            },
            FetchUpdate::Subresource => r is None && final(pending)@ == old(pending)@,
        },
{
    match update {
        FetchUpdate::Page { url, result } => match pending.take_page(url.as_str()) {
            Some(node) => Some(Update::PageFetched { node, url, result }),
            None => None,
        },
        FetchUpdate::Favicon { owner_url, bytes } => match pending.take_favicon(owner_url.as_str()) {
            Some(node) => Some(Update::FaviconFetched { node, owner_url, bytes }),
            None => None,
        },
        FetchUpdate::Subresource => None,
    }
}

/// Turn an effect into the fetch service's command, if it is
/// fetch-shaped, noting its requester in the table first.
pub fn fetch_command_for(effect: &Effect, pending: &mut PendingFetches) -> (r: Option<FetchCommand>)
    ensures
        match *effect {
            Effect::FetchPage { node, url } => {
                &&& final(pending)@.pages == noted(old(pending)@.pages, url@, node)
                &&& final(pending)@.favicons == old(pending)@.favicons
                &&& r matches Some(FetchCommand::Page(u)) && u@ == url@
            },
            Effect::FetchFavicon { node, owner_url, url } => {
                &&& final(pending)@.favicons == noted(old(pending)@.favicons, owner_url@, node)
                &&& final(pending)@.pages == old(pending)@.pages
                &&& r matches Some(FetchCommand::Favicon { owner_url: o, url: u }) && o@ == owner_url@ && u@ == url@
            },
            _ => r is None && final(pending)@ == old(pending)@,
        },
{
    match effect {
        Effect::FetchPage { node, url } => {
            pending.note_page(url.as_str(), *node);
            Some(FetchCommand::Page(url.clone()))
        },
        Effect::FetchFavicon { node, owner_url, url } => {
            pending.note_favicon(owner_url.as_str(), *node);
            Some(FetchCommand::Favicon { owner_url: owner_url.clone(), url: url.clone() })
        },
        _ => None,
    }
}

/// A completion goes back to the node that asked last for the same
/// address, and afterwards the table is as it was before the ask.
pub proof fn lemma_take_undoes_note(m: Map<Seq<char>, Seq<u128>>, key: Seq<char>, node: u128)
    requires
        tidy(m),
    ensures
        taken(noted(m, key, node), key) == Some(node),
        after_take(noted(m, key, node), key) == m,
        tidy(noted(m, key, node)),
{
    let n = noted(m, key, node);
    if m.contains_key(key) {
        assert(n[key].drop_last() =~= m[key]);
        assert(after_take(n, key) =~= m);
    } else {
        assert(after_take(n, key) =~= m);
    }
}

/// A completion nobody is waiting for is dropped: no requester, and the
/// table is untouched.
pub proof fn lemma_unmatched_is_dropped(m: Map<Seq<char>, Seq<u128>>, key: Seq<char>)
    requires
        tidy(m),
        !m.contains_key(key),
    ensures
        taken(m, key) is None,
        after_take(m, key) == m,
{
}

/// Completions never mint requesters: the node a completion goes to was
/// waiting on that address, and the table stays tidy.
pub proof fn lemma_taken_was_waiting(m: Map<Seq<char>, Seq<u128>>, key: Seq<char>)
    requires
        tidy(m),
    ensures
        taken(m, key) matches Some(node) ==> m[key].contains(node),
        tidy(after_take(m, key)),
{
    if m.contains_key(key) && m[key].len() > 0 {
        assert(m[key][m[key].len() - 1] == m[key].last());
    }
}

/// What the url crate makes of `text`: the parsed URL's serialization and
/// its scheme, or nothing when it does not parse.
pub uninterp spec fn url_parse_result(text: Seq<char>) -> Option<(Seq<char>, Seq<char>)>;

/// `url::Url::parse`, with the URL converted to its serialization (its
/// `Display`) and its `scheme()`.
#[verifier::external_body]
fn parse_url(text: &str) -> (r: Option<(String, String)>)
    ensures
        url_parse_result(text@) == (match r {
            Some((ser, sch)) => Some((ser@, sch@)),
            None => None,
        }),
{
    url::Url::parse(text).ok().map(|u| (u.to_string(), u.scheme().to_string()))
}

/// What the url crate makes of `href` joined onto the URL serialized as
/// `base`: the joined URL's serialization, or nothing when it does not
/// parse against that base.
pub uninterp spec fn url_join_result(base: Seq<char>, href: Seq<char>) -> Option<Seq<char>>;

/// `url::Url::join`, with the base given by its serialization (parsed back
/// into the URL it serializes) and the result converted to its
/// serialization.
#[verifier::external_body]
fn join_url(base: &str, href: &str) -> (r: Option<String>)
    ensures
        url_join_result(base@, href@) == (match r {
            Some(u) => Some(u@),
            None => None,
        }),
{
    url::Url::parse(base).ok().and_then(|b| b.join(href).ok()).map(|u| u.to_string())
}

/// The well-known favicon of a web page's URL: `/favicon.ico` joined onto
/// it, for http and https only.
pub open spec fn well_known_favicon(base: Seq<char>, scheme: Seq<char>) -> Option<Seq<char>> {
    if scheme == "http"@ || scheme == "https"@ {
        url_join_result(base, "/favicon.ico"@)
    } else {
        None
    }
}

/// The favicon URL of a fetched page: the document's declared icon href
/// resolved against the page URL, else the well-known `/favicon.ico` for
/// web pages; nothing when neither applies or the page URL does not parse.
pub open spec fn favicon_for(page_url: Seq<char>, icon_href: Option<Seq<char>>) -> Option<Seq<char>> {
    match url_parse_result(page_url) {
        None => None,
        Some((base, scheme)) => match icon_href {
            Some(href) => match url_join_result(base, href) {
                Some(resolved) => Some(resolved),
                None => well_known_favicon(base, scheme),
            },
            None => well_known_favicon(base, scheme),
        },
    }
}

/// The text of an optional href.
pub open spec fn href_text(h: Option<&str>) -> Option<Seq<char>> {
    match h {
        Some(s) => Some(s@),
        None => None,
    }
}

/// The favicon URL for a fetched page (see [`favicon_for`]); `icon_href`
/// is the document's declared `<link rel=icon>` href, when it has one.
pub fn favicon_url_for(page_url: &str, icon_href: Option<&str>) -> (r: Option<String>)
    ensures
        favicon_for(page_url@, href_text(icon_href)) == (match r {
            Some(u) => Some(u@),
            None => None,
        }),
{
    let (base, scheme) = match parse_url(page_url) {
        Some(parsed) => parsed,
        None => {
            return None;
        },
    };
    if let Some(href) = icon_href {
        if let Some(resolved) = join_url(base.as_str(), href) {
            return Some(resolved);
        }
    }
    if str_eq(scheme.as_str(), "http") || str_eq(scheme.as_str(), "https") {
        join_url(base.as_str(), "/favicon.ico")
    } else {
        None
    }
}

} // verus!
