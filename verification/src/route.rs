//! The routing table: which backend serves which host.
//!
//! A [`RoutingTable`] is built once from the routes of a configuration and is
//! never changed afterwards. The [`TableSlot`] holds the table that is current
//! and is the only place where one table gives way to another, always whole.

use crate::http_model::authority_ok;
use crate::http_model::is_authority;
use vstd::hash_map::StringHashMap;
use vstd::prelude::*;

verus! {

/// The name of a middleware that a route asks for. The proxy carries the name
/// and gives it no meaning.
#[derive(Clone, Debug, PartialEq, Eq)]
pub struct MiddlewareRef {
    pub name: String,
}

impl View for MiddlewareRef {
    type V = Seq<char>;

    open spec fn view(&self) -> Seq<char> {
        self.name@
    }
}

/// Where the requests for one host go.
#[derive(Clone, Debug, PartialEq, Eq)]
pub struct RouteEntry {
    /// The backend, as `host` or `host:port`.
    pub destination: String,
    /// The middleware named for this route, in the order given.
    pub middleware: Vec<MiddlewareRef>,
}

/// A route as a mathematical value.
pub struct RouteEntryView {
    pub destination: Seq<char>,
    pub middleware: Seq<Seq<char>>,
}

impl View for RouteEntry {
    type V = RouteEntryView;

    open spec fn view(&self) -> RouteEntryView {
        RouteEntryView {
            destination: self.destination@,
            middleware: self.middleware@.map_values(|m: MiddlewareRef| m@),
        }
    }
}

/// Why a configuration did not become a routing table.
#[derive(Clone, Debug, PartialEq, Eq)]
pub enum LoadError {
    /// The file could not be read; the text says why.
    Unreadable(String),
    /// The content does not have the shape of a routing table.
    Malformed(String),
    /// The route for `host` names a destination that is no network authority.
    InvalidDestination { host: String, destination: String },
}

/// What reading and parsing a configuration came to, before any route is
/// looked at.
#[derive(Clone, Debug, PartialEq, Eq)]
pub enum ConfigSource {
    /// The file could not be read; the text says why.
    Unreadable(String),
    /// The content could not be parsed; the text says why.
    Malformed(String),
    /// The routes that the content lists, host by host.
    Routes(Vec<(String, RouteEntry)>),
}

/// The table as a map from host to route.
pub type TableView = Map<Seq<char>, RouteEntryView>;

/// What a lookup of `host` finds in a table.
pub open spec fn lookup(table: TableView, host: Seq<char>) -> Option<RouteEntryView> {
    if table.contains_key(host) {
        Some(table[host])
    } else {
        None
    }
}

/// Every destination in the table is a network authority.
pub open spec fn destinations_valid(table: TableView) -> bool {
    forall|host: Seq<char>| #[trigger]
        table.contains_key(host) ==> authority_ok(table[host].destination)
}

/// The table that a list of routes describes: the routes are entered in
/// order, so that of two routes for one host the later one stays.
pub open spec fn table_of(routes: Seq<(String, RouteEntry)>) -> TableView
    decreases routes.len(),
{
    if routes.len() == 0 {
        Map::empty()
    } else {
        table_of(routes.drop_last()).insert(routes.last().0@, routes.last().1@)
    }
}

/// Every route of the list names a destination that is a network authority.
pub open spec fn all_valid(routes: Seq<(String, RouteEntry)>) -> bool {
    forall|i: int| 0 <= i < routes.len() ==> authority_ok((#[trigger] routes[i]).1.destination@)
}

/// `index` is the first route of the list whose destination is no network
/// authority.
pub open spec fn is_first_invalid(routes: Seq<(String, RouteEntry)>, index: int) -> bool {
    &&& 0 <= index < routes.len()
    &&& !authority_ok(routes[index].1.destination@)
    &&& forall|j: int| 0 <= j < index ==> authority_ok((#[trigger] routes[j]).1.destination@)
}

/// No host has two routes in the list.
pub open spec fn hosts_distinct(routes: Seq<(String, RouteEntry)>) -> bool {
    forall|i: int, j: int|
        0 <= i < j < routes.len() ==> (#[trigger] routes[i]).0@ != (#[trigger] routes[j]).0@
}

/// The list has a route that sends `host` to `entry`.
pub open spec fn lists(
    routes: Seq<(String, RouteEntry)>,
    host: Seq<char>,
    entry: RouteEntryView,
) -> bool {
    exists|i: int|
        0 <= i < routes.len() && (#[trigger] routes[i]).0@ == host && routes[i].1@ == entry
}

/// What loading a list of routes owes: the table of the routes where all
/// destinations are network authorities, else the error that names the first
/// route whose destination is none.
pub open spec fn loads(
    routes: Seq<(String, RouteEntry)>,
    loaded: Result<RoutingTable, LoadError>,
) -> bool {
    match loaded {
        Ok(table) => all_valid(routes) && table@ == table_of(routes) && table.wf(),
        Err(error) => exists|i: int|
            {
                &&& #[trigger] is_first_invalid(routes, i)
                &&& error matches LoadError::InvalidDestination { host, destination }
                &&& host@ == routes[i].0@
                &&& destination@ == routes[i].1.destination@
            },
    }
}

/// A mapping from host to route. Hosts are compared as exact strings.
pub struct RoutingTable {
    routes: StringHashMap<RouteEntry>,
}

impl View for RoutingTable {
    type V = TableView;

    closed spec fn view(&self) -> TableView {
        self.routes@.map_values(|entry: RouteEntry| entry@)
    }
}

impl RoutingTable {
    #[verifier::type_invariant]
    closed spec fn inv(self) -> bool {
        &&& self.routes@.dom().finite()
        &&& forall|host: Seq<char>| #[trigger]
            self.routes@.contains_key(host) ==> authority_ok(self.routes@[host].destination@)
    }

    /// The table is finite and all its destinations are network authorities.
    /// This holds of every table that the program holds.
    pub open spec fn wf(&self) -> bool {
        &&& self@.dom().finite()
        &&& destinations_valid(self@)
    }

    /// The table without routes.
    pub fn new() -> (table: RoutingTable)
        ensures
            table@ == Map::<Seq<char>, RouteEntryView>::empty(),
            table.wf(),
    {
        let table = RoutingTable { routes: StringHashMap::new() };
        assert(table@ =~= Map::<Seq<char>, RouteEntryView>::empty());
        table
    }

    /// Builds the table that `routes` describes. One destination that is no
    /// network authority fails the whole load, and the error names the first
    /// such route.
    pub fn from_routes(routes: Vec<(String, RouteEntry)>) -> (loaded: Result<
        RoutingTable,
        LoadError,
    >)
        ensures
            loaded is Ok <==> all_valid(routes@),
            loads(routes@, loaded),
    {
        let mut map: StringHashMap<RouteEntry> = StringHashMap::new();
        let ghost all = routes@;
        assert(map@.map_values(|entry: RouteEntry| entry@) =~= table_of(all.take(0)));
        for route in it: routes
            invariant
                it.seq() == all,
                map@.dom().finite(),
                map@.map_values(|entry: RouteEntry| entry@) == table_of(
                    all.take(it.index() as int),
                ),
                forall|host: Seq<char>| #[trigger]
                    map@.contains_key(host) ==> authority_ok(map@[host].destination@),
                forall|j: int|
                    0 <= j < it.index() ==> authority_ok((#[trigger] all[j]).1.destination@),
        {
            let ghost at = it.index() as int;
            let (host, entry) = route;
            if !is_authority(entry.destination.as_str()) {
                assert(is_first_invalid(all, at));
                return Err(
                    LoadError::InvalidDestination { host: host, destination: entry.destination },
                );
            }
            proof {
                assert(all.take(at + 1).drop_last() == all.take(at));
                assert(map@.insert(host@, entry).map_values(|e: RouteEntry| e@) =~= map@.map_values(
                    |e: RouteEntry| e@,
                ).insert(host@, entry@));
            }
            map.insert(host, entry);
        }
        assert(all.take(all.len() as int) == all);
        let table = RoutingTable { routes: map };
        assert(table@.dom() =~= table.routes@.dom());
        Ok(table)
    }

    /// The route for `host`, if the table has one.
    pub fn get(&self, host: &str) -> (found: Option<&RouteEntry>)
        ensures
            found is Some <==> self@.contains_key(host@),
            found matches Some(entry) ==> entry@ == self@[host@] && authority_ok(
                entry.destination@,
            ),
    {
        proof {
            use_type_invariant(self);
        }
        self.routes.get(host)
    }

    /// Whether the table has a route for `host`.
    pub fn contains(&self, host: &str) -> (present: bool)
        ensures
            present == self@.contains_key(host@),
    {
        self.routes.contains_key(host)
    }

    /// The number of hosts that the table routes.
    pub fn len(&self) -> (count: usize)
        ensures
            count == self@.len(),
    {
        assert(self@.dom() =~= self.routes@.dom());
        self.routes.len()
    }
}

/// Ends a load: a configuration that could not be read or parsed fails with
/// the reason it gave, one that could becomes the table of its routes, or
/// fails on the first destination that is no network authority.
pub fn load_proxy_map(source: ConfigSource) -> (loaded: Result<RoutingTable, LoadError>)
    ensures
        match source {
            ConfigSource::Unreadable(reason) => loaded == Err::<RoutingTable, LoadError>(
                LoadError::Unreadable(reason),
            ),
            ConfigSource::Malformed(reason) => loaded == Err::<RoutingTable, LoadError>(
                LoadError::Malformed(reason),
            ),
            ConfigSource::Routes(routes) => (loaded is Ok <==> all_valid(routes@)) && loads(
                routes@,
                loaded,
            ),
        },
{
    match source {
        ConfigSource::Unreadable(reason) => Err(LoadError::Unreadable(reason)),
        ConfigSource::Malformed(reason) => Err(LoadError::Malformed(reason)),
        ConfigSource::Routes(routes) => RoutingTable::from_routes(routes),
    }
}

/// The hosts of the table are the hosts of the routes.
pub proof fn lemma_table_hosts(routes: Seq<(String, RouteEntry)>, host: Seq<char>)
    ensures
        table_of(routes).contains_key(host) <==> exists|i: int|
            0 <= i < routes.len() && (#[trigger] routes[i]).0@ == host,
    decreases routes.len(),
{
    if routes.len() > 0 {
        let before = routes.drop_last();
        let last = routes.len() - 1;
        lemma_table_hosts(before, host);
        if table_of(routes).contains_key(host) {
            if routes[last].0@ != host {
                let i = choose|i: int| 0 <= i < before.len() && (#[trigger] before[i]).0@ == host;
                assert(routes[i].0@ == host);
            }
        }
        if exists|i: int| 0 <= i < routes.len() && (#[trigger] routes[i]).0@ == host {
            let i = choose|i: int| 0 <= i < routes.len() && (#[trigger] routes[i]).0@ == host;
            if i < last {
                assert(before[i].0@ == host);
            }
        }
    }
}

/// The table sends a host to the last route that the list has for it.
pub proof fn lemma_table_entry(routes: Seq<(String, RouteEntry)>, index: int)
    requires
        0 <= index < routes.len(),
        forall|j: int| index < j < routes.len() ==> (#[trigger] routes[j]).0@ != routes[index].0@,
    ensures
        table_of(routes).contains_key(routes[index].0@),
        table_of(routes)[routes[index].0@] == routes[index].1@,
    decreases routes.len(),
{
    let before = routes.drop_last();
    let last = routes.len() - 1;
    if index < last {
        assert(before[index] == routes[index]);
        assert forall|j: int| index < j < before.len() implies (#[trigger] before[j]).0@
            != before[index].0@ by {
            assert(before[j] == routes[j]);
        }
        lemma_table_entry(before, index);
        assert(routes[last].0@ != routes[index].0@);
    }
}

/// The order of the routes is irrelevant: two lists without a repeated host
/// that hold the same routes describe the same table.
pub proof fn lemma_order_is_irrelevant(
    first: Seq<(String, RouteEntry)>,
    second: Seq<(String, RouteEntry)>,
)
    requires
        hosts_distinct(first),
        hosts_distinct(second),
        forall|host: Seq<char>, entry: RouteEntryView|
            lists(first, host, entry) <==> lists(second, host, entry),
    ensures
        table_of(first) == table_of(second),
{
    let one = table_of(first);
    let other = table_of(second);
    assert forall|host: Seq<char>| #[trigger]
        one.contains_key(host) == other.contains_key(host) by {
        if one.contains_key(host) {
            lemma_listed_route_is_in_table(first, second, host);
        }
        if other.contains_key(host) {
            lemma_listed_route_is_in_table(second, first, host);
        }
    }
    assert forall|host: Seq<char>| #[trigger] one.contains_key(host) implies one[host]
        == other[host] by {
        lemma_listed_route_is_in_table(first, second, host);
    }
    assert(one =~= other);
}

/// A host of one table has the same route in the table of any list without a
/// repeated host that holds the same routes.
proof fn lemma_listed_route_is_in_table(
    first: Seq<(String, RouteEntry)>,
    second: Seq<(String, RouteEntry)>,
    host: Seq<char>,
)
    requires
        hosts_distinct(first),
        hosts_distinct(second),
        forall|host: Seq<char>, entry: RouteEntryView|
            lists(first, host, entry) <==> lists(second, host, entry),
        table_of(first).contains_key(host),
    ensures
        table_of(second).contains_key(host),
        table_of(second)[host] == table_of(first)[host],
{
    lemma_table_hosts(first, host);
    let i = choose|i: int| 0 <= i < first.len() && (#[trigger] first[i]).0@ == host;
    lemma_table_entry(first, i);
    let entry = first[i].1@;
    assert(lists(first, host, entry));
    assert(lists(second, host, entry));
    let j = choose|j: int|
        0 <= j < second.len() && (#[trigger] second[j]).0@ == host && second[j].1@ == entry;
    lemma_table_entry(second, j);
}

} // verus!
