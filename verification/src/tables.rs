//! The hash tables of the library.
//!
//! Each is a collection of `hashbrown` that Verus does not look into, with a
//! name for what it holds.
use vstd::prelude::*;
use hashbrown::{HashMap, HashSet};

use crate::protocol::{
    EventRequestWillBeSent, EventRequestWillBeSentView, HttpRequest, HttpRequestView,
};

verus! {

/// The requests in flight, by their identifiers.
#[verifier::external_body]
#[derive(Debug)]
pub struct RequestTable {
    inner: HashMap<String, HttpRequest>,
}

/// The requests in a table, by their identifiers.
pub uninterp spec fn requests_in(table: RequestTable) -> Map<Seq<char>, HttpRequestView>;

impl View for RequestTable {
    type V = Map<Seq<char>, HttpRequestView>;

    open spec fn view(&self) -> Map<Seq<char>, HttpRequestView> {
        requests_in(*self)
    }
}

impl RequestTable {
    /// Calls `hashbrown::HashMap::new`.
    ///
    /// Trusted: the new map is empty.
    #[verifier::external_body]
    pub(crate) fn new() -> (table: RequestTable)
        ensures
            requests_in(table) =~= Map::empty(),
    {
        RequestTable { inner: HashMap::new() }
    }

    /// Calls `hashbrown::HashMap::insert`.
    ///
    /// Trusted: afterwards the key has the new value, in place of any earlier
    /// one, and every other key keeps its own.
    #[verifier::external_body]
    pub(crate) fn insert(&mut self, key: String, value: HttpRequest)
        ensures
            requests_in(*final(self)) == requests_in(*old(self)).insert(key@, value@),
    {
        self.inner.insert(key, value);
    }

    /// Calls `hashbrown::HashMap::remove`.
    ///
    /// Trusted: the key is gone afterwards, its value is what comes back, and
    /// nothing comes back if and only if there was none.
    #[verifier::external_body]
    pub(crate) fn remove(&mut self, key: &str) -> (value: Option<HttpRequest>)
        ensures
            requests_in(*final(self)) == requests_in(*old(self)).remove(key@),
            match value {
                Some(v) => requests_in(*old(self)).contains_pair(key@, v@),
                None => !requests_in(*old(self)).dom().contains(key@),
            },
    {
        self.inner.remove(key)
    }
}

/// The requests that are about to be sent, by their identifiers.
#[verifier::external_body]
#[derive(Debug)]
pub struct SentTable {
    inner: HashMap<String, EventRequestWillBeSent>,
}

/// The events in a table, by the identifiers of their requests.
pub uninterp spec fn sent_in(table: SentTable) -> Map<Seq<char>, EventRequestWillBeSentView>;

impl View for SentTable {
    type V = Map<Seq<char>, EventRequestWillBeSentView>;

    open spec fn view(&self) -> Map<Seq<char>, EventRequestWillBeSentView> {
        sent_in(*self)
    }
}

impl SentTable {
    /// Calls `hashbrown::HashMap::new`.
    ///
    /// Trusted: the new map is empty.
    #[verifier::external_body]
    pub(crate) fn new() -> (table: SentTable)
        ensures
            sent_in(table) =~= Map::empty(),
    {
        SentTable { inner: HashMap::new() }
    }

    /// Calls `hashbrown::HashMap::insert`.
    ///
    /// Trusted: afterwards the key has the new value, in place of any earlier
    /// one, and every other key keeps its own.
    #[verifier::external_body]
    pub(crate) fn insert(&mut self, key: String, value: EventRequestWillBeSent)
        ensures
            sent_in(*final(self)) == sent_in(*old(self)).insert(key@, value@),
    {
        self.inner.insert(key, value);
    }

    /// Calls `hashbrown::HashMap::remove`.
    ///
    /// Trusted: the key is gone afterwards, its value is what comes back, and
    /// nothing comes back if and only if there was none.
    #[verifier::external_body]
    pub(crate) fn remove(&mut self, key: &str) -> (value: Option<EventRequestWillBeSent>)
        ensures
            sent_in(*final(self)) == sent_in(*old(self)).remove(key@),
            match value {
                Some(v) => sent_in(*old(self)).contains_pair(key@, v@),
                None => !sent_in(*old(self)).dom().contains(key@),
            },
    {
        self.inner.remove(key)
    }
}

/// The pauses of requests, by the identifiers of the requests.
#[verifier::external_body]
#[derive(Debug)]
pub struct PauseTable {
    inner: HashMap<String, String>,
}

/// The pauses in a table, by the identifiers of the requests.
pub uninterp spec fn pauses_in(table: PauseTable) -> Map<Seq<char>, Seq<char>>;

impl View for PauseTable {
    type V = Map<Seq<char>, Seq<char>>;

    open spec fn view(&self) -> Map<Seq<char>, Seq<char>> {
        pauses_in(*self)
    }
}

impl PauseTable {
    /// Calls `hashbrown::HashMap::new`.
    ///
    /// Trusted: the new map is empty.
    #[verifier::external_body]
    pub(crate) fn new() -> (table: PauseTable)
        ensures
            pauses_in(table) =~= Map::empty(),
    {
        PauseTable { inner: HashMap::new() }
    }

    /// Calls `hashbrown::HashMap::insert`.
    ///
    /// Trusted: afterwards the key has the new value, in place of any earlier
    /// one, and every other key keeps its own.
    #[verifier::external_body]
    pub(crate) fn insert(&mut self, key: String, value: String)
        ensures
            pauses_in(*final(self)) == pauses_in(*old(self)).insert(key@, value@),
    {
        self.inner.insert(key, value);
    }

    /// Calls `hashbrown::HashMap::remove`.
    ///
    /// Trusted: the key is gone afterwards, its value is what comes back, and
    /// nothing comes back if and only if there was none.
    #[verifier::external_body]
    pub(crate) fn remove(&mut self, key: &str) -> (value: Option<String>)
        ensures
            pauses_in(*final(self)) == pauses_in(*old(self)).remove(key@),
            match value {
                Some(v) => pauses_in(*old(self)).contains_pair(key@, v@),
                None => !pauses_in(*old(self)).dom().contains(key@),
            },
    {
        self.inner.remove(key)
    }
}

/// A set of identifiers.
#[verifier::external_body]
#[derive(Debug)]
pub struct IdSet {
    inner: HashSet<String>,
}

/// The identifiers in a set.
pub uninterp spec fn ids_in(set: IdSet) -> Set<Seq<char>>;

impl View for IdSet {
    type V = Set<Seq<char>>;

    open spec fn view(&self) -> Set<Seq<char>> {
        ids_in(*self)
    }
}

impl IdSet {
    /// Calls `hashbrown::HashSet::new`.
    ///
    /// Trusted: the new set is empty.
    #[verifier::external_body]
    pub(crate) fn new() -> (set: IdSet)
        ensures
            ids_in(set) =~= Set::empty(),
    {
        IdSet { inner: HashSet::new() }
    }

    /// Calls `hashbrown::HashSet::insert`.
    ///
    /// Trusted: the value is in the set afterwards, every other value stays as it
    /// was, and the answer is whether the value is new.
    #[verifier::external_body]
    pub(crate) fn insert(&mut self, value: String) -> (fresh: bool)
        ensures
            ids_in(*final(self)) == ids_in(*old(self)).insert(value@),
            fresh == !ids_in(*old(self)).contains(value@),
    {
        self.inner.insert(value)
    }

    /// Calls `hashbrown::HashSet::remove`.
    ///
    /// Trusted: the value is not in the set afterwards, and every other value
    /// stays as it was.
    #[verifier::external_body]
    pub(crate) fn remove(&mut self, value: &str)
        ensures
            ids_in(*final(self)) == ids_in(*old(self)).remove(value@),
    {
        self.inner.remove(value);
    }

    /// Calls `hashbrown::HashSet::contains`.
    ///
    /// Trusted: the answer is whether the value is in the set.
    #[verifier::external_body]
    pub(crate) fn contains(&self, value: &str) -> (found: bool)
        ensures
            found == ids_in(*self).contains(value@),
    {
        self.inner.contains(value)
    }
}

/// A set of DOM nodes, by their numbers.
#[verifier::external_body]
#[derive(Debug)]
pub struct NodeSet {
    inner: HashSet<i64>,
}

/// The numbers in a set.
pub uninterp spec fn nodes_in(set: NodeSet) -> Set<i64>;

impl View for NodeSet {
    type V = Set<i64>;

    open spec fn view(&self) -> Set<i64> {
        nodes_in(*self)
    }
}

impl NodeSet {
    /// Calls `hashbrown::HashSet::new`.
    ///
    /// Trusted: the new set is empty.
    #[verifier::external_body]
    pub(crate) fn new() -> (set: NodeSet)
        ensures
            nodes_in(set) =~= Set::empty(),
    {
        NodeSet { inner: HashSet::new() }
    }

    /// Calls `hashbrown::HashSet::insert`.
    ///
    /// Trusted: the value is in the set afterwards, every other value stays as it
    /// was, and the answer is whether the value is new.
    #[verifier::external_body]
    pub(crate) fn insert(&mut self, value: i64) -> (fresh: bool)
        ensures
            nodes_in(*final(self)) == nodes_in(*old(self)).insert(value),
            fresh == !nodes_in(*old(self)).contains(value),
    {
        self.inner.insert(value)
    }
}

} // verus!
