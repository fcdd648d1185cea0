//! The slot that holds the routing table in force.
//!
//! The slot starts empty, takes the first table that loads and from then on
//! swaps in each table that a reload produces. A table never changes while it
//! sits in the slot: a reader sees the table from before a swap or the one
//! from after it, whole. Whoever shares a slot between tasks guards it with a
//! readers-writer lock; `replace` and `reload` ask for exclusive access by
//! their signature.

use crate::http_model::authority_ok;
use crate::route::hosts_distinct;
use crate::route::lemma_order_is_irrelevant;
use crate::route::lists;
use crate::route::loads;
use crate::route::lookup;
use crate::route::LoadError;
use crate::route::RouteEntry;
use crate::route::RouteEntryView;
use crate::route::RoutingTable;
use crate::route::TableView;
use vstd::prelude::*;

verus! {

/// What a reload did to the slot.
#[derive(Clone, Debug, PartialEq, Eq)]
pub enum ReloadOutcome {
    /// The new table is in force.
    Installed,
    /// The load failed and the table from before stays in force.
    Kept(LoadError),
}

/// The table that is in force after a reload: the loaded one, or the one from
/// before where the load failed.
pub open spec fn reloaded(
    current: TableView,
    loaded: Result<RoutingTable, LoadError>,
) -> TableView {
    match loaded {
        Ok(table) => table@,
        Err(_) => current,
    }
}

/// The place of the current routing table.
pub struct TableSlot {
    current: RoutingTable,
}

impl View for TableSlot {
    type V = TableView;

    closed spec fn view(&self) -> TableView {
        self.current@
    }
}

impl TableSlot {
    /// The slot as it is created: it routes no host.
    pub fn new() -> (slot: TableSlot)
        ensures
            slot@ == Map::<Seq<char>, RouteEntryView>::empty(),
    {
        TableSlot { current: RoutingTable::new() }
    }

    /// The slot at startup. A first load that failed is handed back as the
    /// error it is: there is no table to serve with.
    pub fn start(loaded: Result<RoutingTable, LoadError>) -> (started: Result<
        TableSlot,
        LoadError,
    >)
        ensures
            match loaded {
                Ok(table) => started matches Ok(slot) && slot@ == table@,
                Err(error) => started == Err::<TableSlot, LoadError>(error),
            },
    {
        match loaded {
            Ok(table) => Ok(TableSlot { current: table }),
            Err(error) => Err(error),
        }
    }

    /// The table in force.
    pub fn table(&self) -> (table: &RoutingTable)
        ensures
            table@ == self@,
    {
        &self.current
    }

    /// The route that the table in force has for `host`.
    pub fn get(&self, host: &str) -> (found: Option<&RouteEntry>)
        ensures
            found is Some <==> self@.contains_key(host@),
            found matches Some(entry) ==> entry@ == self@[host@] && authority_ok(
                entry.destination@,
            ),
    {
        self.current.get(host)
    }

    /// Puts `table` in force. Nothing of the table from before remains.
    pub fn replace(&mut self, table: RoutingTable)
        ensures
            final(self)@ == table@,
    {
        self.current = table;
    }

    /// Ends a reload: a table that loaded is put in force, a failure leaves
    /// the slot as it was and is handed back for the log.
    pub fn reload(&mut self, loaded: Result<RoutingTable, LoadError>) -> (outcome: ReloadOutcome)
        ensures
            final(self)@ == reloaded(old(self)@, loaded),
            loaded is Err ==> final(self)@ == old(self)@,
            match loaded {
                Ok(_) => outcome == ReloadOutcome::Installed,
                Err(error) => outcome == ReloadOutcome::Kept(error),
            },
    {
        match loaded {
            Ok(table) => {
                self.replace(table);
                ReloadOutcome::Installed
            },
            Err(error) => ReloadOutcome::Kept(error),
        }
    }
}

/// A swap is whole: once a table is put in force, every lookup finds what
/// that table holds and nothing of the table from before.
pub proof fn lemma_swap_is_whole(before: TableView, table: RoutingTable, host: Seq<char>)
    ensures
        reloaded(before, Ok(table)) == table@,
        lookup(reloaded(before, Ok(table)), host) == lookup(table@, host),
{
}

/// A reload that fails changes no lookup: the table after it is the table
/// from before.
pub proof fn lemma_failed_reload_keeps_routes(
    current: TableView,
    error: LoadError,
    host: Seq<char>,
)
    ensures
        reloaded(current, Err(error)) == current,
        lookup(reloaded(current, Err(error)), host) == lookup(current, host),
{
}

/// Reloading a configuration that has not changed gives a table equal to the
/// one in force, and every host is routed as before. A configuration is
/// unchanged when it lists the same routes, in whatever order they are read.
pub proof fn lemma_unchanged_reload_keeps_routes(
    before: Seq<(String, RouteEntry)>,
    after: Seq<(String, RouteEntry)>,
    current: RoutingTable,
    loaded: RoutingTable,
    host: Seq<char>,
)
    requires
        hosts_distinct(before),
        hosts_distinct(after),
        forall|h: Seq<char>, entry: RouteEntryView|
            lists(before, h, entry) <==> lists(after, h, entry),
        loads(before, Ok(current)),
        loads(after, Ok(loaded)),
    ensures
        reloaded(current@, Ok(loaded)) == current@,
        lookup(reloaded(current@, Ok(loaded)), host) == lookup(current@, host),
{
    lemma_order_is_irrelevant(before, after);
}

} // verus!
