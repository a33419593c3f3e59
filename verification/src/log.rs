//! Shadow-log rows as storage returns them, the entries sent to clients, and
//! the query that binds a filter to one block.
use crate::params::texts;
use std::collections::VecDeque;
use vstd::prelude::*;

verus! {

/// One shadow log as the storage query returns it.
#[derive(Debug, Clone, PartialEq, Eq)]
pub struct ShadowLogRow {
    /// Address of the contract that emitted the log.
    pub address: String,
    /// The log's topics, in order.
    pub topics: Vec<String>,
    /// The log's payload.
    pub data: Vec<u8>,
    /// Hash of the block that holds the log.
    pub block_hash: String,
    /// Number of the block that holds the log.
    pub block_number: u64,
    /// Position of the log within its block.
    pub log_index: u64,
}

/// One log in the form in which it is sent to a client.
#[derive(Debug, Clone, PartialEq, Eq)]
pub struct WireLogEntry {
    pub address: String,
    pub topics: Vec<String>,
    pub data: Vec<u8>,
    pub block_hash: String,
    pub block_number: u64,
    pub log_index: u64,
}

/// Mathematical model of a [`ShadowLogRow`].
pub struct ShadowLogRowView {
    pub address: Seq<char>,
    pub topics: Seq<Seq<char>>,
    pub data: Seq<u8>,
    pub block_hash: Seq<char>,
    pub block_number: nat,
    pub log_index: nat,
}

/// Mathematical model of a [`WireLogEntry`].
pub struct WireLogEntryView {
    pub address: Seq<char>,
    pub topics: Seq<Seq<char>>,
    pub data: Seq<u8>,
    pub block_hash: Seq<char>,
    pub block_number: nat,
    pub log_index: nat,
}

impl View for ShadowLogRow {
    type V = ShadowLogRowView;

    open spec fn view(&self) -> ShadowLogRowView {
        ShadowLogRowView {
            address: self.address@,
            topics: texts(self.topics@),
            data: self.data@,
            block_hash: self.block_hash@,
            block_number: self.block_number as nat,
            log_index: self.log_index as nat,
        }
    }
}

impl View for WireLogEntry {
    type V = WireLogEntryView;

    open spec fn view(&self) -> WireLogEntryView {
        WireLogEntryView {
            address: self.address@,
            topics: texts(self.topics@),
            data: self.data@,
            block_hash: self.block_hash@,
            block_number: self.block_number as nat,
            log_index: self.log_index as nat,
        }
    }
}

/// The wire entry of a row: every field carried over as it is.
pub open spec fn wire_entry(row: ShadowLogRowView) -> WireLogEntryView {
    WireLogEntryView {
        address: row.address,
        topics: row.topics,
        data: row.data,
        block_hash: row.block_hash,
        block_number: row.block_number,
        log_index: row.log_index,
    }
}

/// The wire entries of a list of rows, in the rows' order.
pub open spec fn wire_entries(rows: Seq<ShadowLogRowView>) -> Seq<WireLogEntryView> {
    rows.map_values(|row: ShadowLogRowView| wire_entry(row))
}

/// The models of a list of rows, in order.
pub open spec fn row_views(rows: Seq<ShadowLogRow>) -> Seq<ShadowLogRowView> {
    rows.map_values(|row: ShadowLogRow| row@)
}

/// The models of a list of entries, in order.
pub open spec fn entry_views(entries: Seq<WireLogEntry>) -> Seq<WireLogEntryView> {
    entries.map_values(|entry: WireLogEntry| entry@)
}

impl WireLogEntry {
    /// Turns a storage row into the entry sent for it. Total: every row has an
    /// entry.
    pub fn from_row(row: ShadowLogRow) -> (entry: WireLogEntry)
        ensures
            entry@ == wire_entry(row@),
    {
        WireLogEntry {
            address: row.address,
            topics: row.topics,
            data: row.data,
            block_hash: row.block_hash,
            block_number: row.block_number,
            log_index: row.log_index,
        }
    }
}

/// Turns the rows of one block into the entries to send, keeping their order.
pub fn transform_rows(rows: Vec<ShadowLogRow>) -> (entries: VecDeque<WireLogEntry>)
    ensures
        entry_views(entries@) == wire_entries(row_views(rows@)),
{
    let mut entries: VecDeque<WireLogEntry> = VecDeque::new();
    let ghost all = rows@;
    for row in it: rows
        invariant
            it.seq() == all,
            entries@.len() == it.index(),
            entry_views(entries@) == wire_entries(row_views(all.take(it.index() as int))),
    {
        let ghost before = entries@;
        let ghost done = it.index() as int;
        entries.push_back(WireLogEntry::from_row(row));
        proof {
            let target = wire_entries(row_views(all.take(done + 1)));
            assert(entry_views(before) == wire_entries(row_views(all.take(done))));
            assert forall|i: int| 0 <= i < done + 1 implies entry_views(entries@)[i]
                == target[i] by {
                if i < done {
                    assert(entry_views(before)[i] == wire_entries(
                        row_views(all.take(done)),
                    )[i]);
                }
            }
            assert(entry_views(entries@) =~= target);
        }
    }
    assert(all.take(all.len() as int) =~= all);
    entries
}

/// A filter bound to exactly one block, as query mediation resolves it from
/// the raw parameters and a block hash. A fresh one belongs to every block; the
/// engine passes it to the storage query and keeps no copy.
#[derive(Debug, Clone, PartialEq, Eq)]
pub struct ValidatedQueryParams {
    /// Hash of the one block the query is about.
    pub block_hash: String,
    /// Number of that block.
    pub block_number: u64,
    /// The addresses to match; empty where any address matches.
    pub addresses: Vec<String>,
    /// One predicate per topic position: a value to match, or `None` for the
    /// wildcard.
    pub topics: Vec<Option<String>>,
}

/// Mathematical model of [`ValidatedQueryParams`].
pub struct ValidatedQueryView {
    pub block_hash: Seq<char>,
    pub block_number: nat,
    pub addresses: Seq<Seq<char>>,
    pub topics: Seq<Option<Seq<char>>>,
}

/// The models of a list of topic predicates, in order.
pub open spec fn predicate_views(topics: Seq<Option<String>>) -> Seq<Option<Seq<char>>> {
    topics.map_values(
        |topic: Option<String>|
            match topic {
                Some(value) => Some(value@),
                None => None,
            },
    )
}

impl View for ValidatedQueryParams {
    type V = ValidatedQueryView;

    open spec fn view(&self) -> ValidatedQueryView {
        ValidatedQueryView {
            block_hash: self.block_hash@,
            block_number: self.block_number as nat,
            addresses: texts(self.addresses@),
            topics: predicate_views(self.topics@),
        }
    }
}

} // verus!
