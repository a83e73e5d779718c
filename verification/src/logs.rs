//! The per-user log: what the service tells a user about their uploads.

use crate::catalog::DbManager;
use crate::pages::{newest_first, order_newest_first, page_bounds, page_of};
use crate::text::str_eq;
use vstd::prelude::*;

verus! {

/// Severity of a log entry.
#[derive(Clone, Copy, Debug, PartialEq, Eq, Structural)]
pub enum LogLevel {
    /// Something went as intended.
    Info,
    /// Something failed.
    Error,
}

impl LogLevel {
    /// The name under which the level is stored and shown.
    pub open spec fn spec_name(self) -> Seq<char> {
        match self {
            LogLevel::Info => "Info"@,
            LogLevel::Error => "Error"@,
        }
    }

    /// The name under which the level is stored and shown.
    pub fn name(self) -> (name: String)
        ensures
            name@ == self.spec_name(),
    {
        match self {
            LogLevel::Info => "Info".to_owned(),
            LogLevel::Error => "Error".to_owned(),
        }
    }
}

/// A message that waits to be appended to a user's log.
pub struct LogLine {
    pub level: LogLevel,
    pub message: String,
}

/// An entry of a user's log as the catalog holds it.
pub struct LogEntry {
    pub id: i32,
    pub level: String,
    pub date: i64,
    pub message: String,
}

/// A row of the log table: an entry and the user it belongs to.
pub struct LogRow {
    pub user_id: String,
    pub entry: LogEntry,
}

/// Why a line could not be appended to the log.
#[derive(Clone, Copy, Debug, PartialEq, Eq, Structural)]
pub enum AddLogError {
    InternalError,
}

/// Why the log could not be read.
#[derive(Clone, Copy, Debug, PartialEq, Eq, Structural)]
pub enum GetLogError {
    InternalError,
    NotFound,
}

/// The body of the answer to a request for a page of the log.
pub struct LogResponse {
    pub logs: Vec<LogEntry>,
}


/// What an entry of the log says.
pub struct EntryView {
    pub id: i32,
    pub level: Seq<char>,
    pub date: i64,
    pub message: Seq<char>,
}

impl View for LogEntry {
    type V = EntryView;

    open spec fn view(&self) -> EntryView {
        EntryView { id: self.id, level: self.level@, date: self.date, message: self.message@ }
    }
}

/// Selects the entries of `user`.
pub open spec fn entry_of(user: Seq<char>) -> spec_fn(LogRow) -> Option<LogEntry> {
    |row: LogRow|
        if row.user_id@ == user {
            Some(row.entry)
        } else {
            None
        }
}

/// The dates of entries.
pub open spec fn dates_of(entries: Seq<LogEntry>) -> Seq<i64> {
    entries.map_values(|e: LogEntry| e.date)
}

/// The page of the log that holds `entries`, newest first.
pub open spec fn log_page(entries: Seq<LogEntry>, page: u64, page_size: u64) -> Seq<EntryView> {
    page_of(
        newest_first(dates_of(entries), entries.len() as int).map_values(|k: int| entries[k]),
        page,
        page_size,
    ).map_values(|e: LogEntry| e@)
}

impl DbManager {
    /// Appends a line to the user's log. Entries are numbered from 1 in the
    /// order in which they were appended. Nothing else in the catalog
    /// changes; in particular no media is stamped.
    pub fn add_log(&mut self, user_id: String, level: LogLevel, date: i64, message: String) -> (added:
        Result<(), AddLogError>)
        requires
            old(self).wf(),
        ensures
            final(self).wf(),
            final(self).users == old(self).users,
            final(self).media == old(self).media,
            final(self).faces == old(self).faces,
            final(self).clusters == old(self).clusters,
            final(self).media_faces == old(self).media_faces,
            added is Ok <==> old(self).logs@.len() < i32::MAX,
            match added {
                Ok(()) => {
                    &&& final(self).logs@.len() == old(self).logs@.len() + 1
                    &&& final(self).logs@.drop_last() == old(self).logs@
                    &&& final(self).logs@.last().user_id@ == user_id@
                    &&& final(self).logs@.last().entry@ == (EntryView {
                        id: (old(self).logs@.len() + 1) as i32,
                        level: level.spec_name(),
                        date,
                        message: message@,
                    })
                },
                Err(_) => final(self).logs@ == old(self).logs@,
            },
    {
        if self.logs.len() >= i32::MAX as usize {
            return Err(AddLogError::InternalError);
        }
        let id: i32 = (self.logs.len() + 1) as i32;
        self.logs.push(LogRow { user_id, entry: LogEntry { id, level: level.name(), date, message } });
        assert(self.logs@.drop_last() =~= old(self).logs@);
        Ok(())
    }

    /// Lists a page of the user's log, newest first.
    pub fn get_logs(&self, user_id: &str, page: u64, page_size: u64) -> (entries: Vec<LogEntry>)
        ensures
            entries@.map_values(|e: LogEntry| e@) == log_page(
                self.logs@.filter_map(entry_of(user_id@)),
                page,
                page_size,
            ),
            entries@.len() <= page_size,
    {
        let ghost keep = entry_of(user_id@);
        let ghost own = self.logs@.filter_map(keep);
        let mut positions: Vec<usize> = Vec::new();
        let mut dates: Vec<i64> = Vec::new();
        let mut i: usize = 0;
        assert(positions@.map_values(|p: usize| self.logs@[p as int].entry)
            =~= self.logs@.take(0).filter_map(keep));
        while i < self.logs.len()
            invariant
                0 <= i <= self.logs@.len(),
                keep == entry_of(user_id@),
                forall|k: int| 0 <= k < positions@.len() ==> #[trigger] positions@[k] < i,
                positions@.map_values(|p: usize| self.logs@[p as int].entry) == self.logs@.take(
                    i as int,
                ).filter_map(keep),
                dates@ == dates_of(positions@.map_values(|p: usize| self.logs@[p as int].entry)),
            decreases self.logs@.len() - i,
        {
            proof {
                self.logs@.lemma_filter_map_take_succ(keep, i as int);
            }
            if str_eq(self.logs[i].user_id.as_str(), user_id) {
                let ghost before = positions@;
                positions.push(i);
                dates.push(self.logs[i].entry.date);
                assert(positions@.map_values(|p: usize| self.logs@[p as int].entry)
                    =~= before.map_values(|p: usize| self.logs@[p as int].entry).push(
                    self.logs@[i as int].entry,
                ));
                assert(dates@ =~= dates_of(
                    positions@.map_values(|p: usize| self.logs@[p as int].entry),
                ));
            }
            i += 1;
        }
        assert(self.logs@.take(self.logs@.len() as int) == self.logs@);
        let order = order_newest_first(&dates);
        let (start, end) = page_bounds(order.len(), page, page_size);
        let ghost listing = newest_first(dates_of(own), own.len() as int).map_values(
            |k: int| own[k],
        );
        let mut entries: Vec<LogEntry> = Vec::new();
        let mut k: usize = start;
        assert(entries@.map_values(|e: LogEntry| e@) =~= listing.subrange(
            start as int,
            k as int,
        ).map_values(|e: LogEntry| e@));
        while k < end
            invariant
                start <= k <= end <= order@.len(),
                own == positions@.map_values(|p: usize| self.logs@[p as int].entry),
                listing == newest_first(dates_of(own), own.len() as int).map_values(
                    |k: int| own[k],
                ),
                order@.len() == positions@.len(),
                order@.map_values(|i: usize| i as int) == newest_first(
                    dates_of(own),
                    own.len() as int,
                ),
                forall|j: int| 0 <= j < order@.len() ==> #[trigger] order@[j] < positions@.len(),
                forall|j: int|
                    0 <= j < positions@.len() ==> #[trigger] positions@[j] < self.logs@.len(),
                entries@.map_values(|e: LogEntry| e@) == listing.subrange(
                    start as int,
                    k as int,
                ).map_values(|e: LogEntry| e@),
            decreases end - k,
        {
            let e = &self.logs[positions[order[k]]].entry;
            proof {
                assert(order@.map_values(|i: usize| i as int)[k as int] == order@[k as int] as int);
                assert(listing[k as int] == own[order@[k as int] as int]);
                assert(own[order@[k as int] as int] == *e);
            }
            let ghost before = entries@;
            let copy = LogEntry {
                id: e.id,
                level: e.level.clone(),
                date: e.date,
                message: e.message.clone(),
            };
            entries.push(copy);
            assert(entries@.map_values(|e: LogEntry| e@) =~= before.map_values(
                |e: LogEntry| e@,
            ).push(e@));
            assert(listing.subrange(start as int, k + 1).map_values(|e: LogEntry| e@)
                =~= listing.subrange(start as int, k as int).map_values(|e: LogEntry| e@).push(
                listing[k as int]@,
            ));
            k += 1;
        }
        entries
    }
}

} // verus!
