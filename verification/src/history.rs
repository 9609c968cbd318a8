//! The history of finished transfers: the latest ones, newest first.

use vstd::prelude::*;

use crate::number::decimal;
use crate::order::{sort, sorted_from, stable_order, Ranked};
use crate::storage::new_id;
use crate::text::{contains, copy_opt, mentions, opt_view};

verus! {

/// How many transfers are remembered.
pub const MAX_HISTORY_ENTRIES: usize = 30;

/// A finished transfer.
#[derive(Debug, Clone)]
pub struct UploadHistoryEntry {
    pub id: String,
    pub local_path: String,
    pub remote_path: String,
    pub host: String,
    pub port: u16,
    pub username: String,
    pub file_size: u64,
    pub status: String,
    pub retry_count: u32,
    pub finished_at: i64,
    pub message: Option<String>,
    pub direction: String,
}

/// The transfers that are remembered.
#[derive(Debug, Clone)]
pub struct HistoryStore {
    pub entries: Vec<UploadHistoryEntry>,
}

/// What a finished transfer says.
pub struct Past {
    pub id: Seq<char>,
    pub local_path: Seq<char>,
    pub remote_path: Seq<char>,
    pub host: Seq<char>,
    pub port: u16,
    pub username: Seq<char>,
    pub file_size: u64,
    pub status: Seq<char>,
    pub retry_count: u32,
    pub finished_at: i64,
    pub message: Option<Seq<char>>,
    pub direction: Seq<char>,
}

impl View for UploadHistoryEntry {
    type V = Past;

    open spec fn view(&self) -> Past {
        Past {
            id: self.id@,
            local_path: self.local_path@,
            remote_path: self.remote_path@,
            host: self.host@,
            port: self.port,
            username: self.username@,
            file_size: self.file_size,
            status: self.status@,
            retry_count: self.retry_count,
            finished_at: self.finished_at,
            message: opt_view(self.message),
            direction: self.direction@,
        }
    }
}

impl Ranked for UploadHistoryEntry {
    /// Later transfers stand in front.
    open spec fn precedes(self, other: Self) -> bool {
        self.finished_at >= other.finished_at
    }

    proof fn precedes_total(a: Self, b: Self) {
    }

    proof fn precedes_transitive(a: Self, b: Self, c: Self) {
    }

    fn may_precede(&self, other: &Self) -> (r: bool) {
        self.finished_at >= other.finished_at
    }
}

impl Default for HistoryStore {
    fn default() -> (r: Self)
        ensures
            r.entries@ == Seq::<UploadHistoryEntry>::empty(),
    {
        HistoryStore { entries: Vec::new() }
    }
}

/// The direction of an entry that names none.
pub fn default_direction() -> (r: String)
    ensures
        r@ == "upload"@,
{
    "upload".to_owned()
}

/// What stands in the store that was read: nothing if there is no such file.
pub open spec fn stored(read: Result<HistoryStore, String>) -> Result<
    Seq<UploadHistoryEntry>,
    Seq<char>,
> {
    match read {
        Ok(store) => Ok(store.entries@),
        Err(e) => if mentions(e@, "not found"@) {
            Ok(Seq::empty())
        } else {
            Err(e@)
        },
    }
}

/// Takes what was read from the history file; a missing file is an empty store.
pub fn load_store(read: Result<HistoryStore, String>) -> (r: Result<HistoryStore, String>)
    ensures
        match stored(read) {
            Ok(entries) => r matches Ok(store) && store.entries@ == entries,
            Err(e) => r matches Err(x) && x@ == e,
        },
{
    match read {
        Ok(store) => Ok(store),
        Err(e) => if contains(e.as_str(), "not found") {
            Ok(HistoryStore::default())
        } else {
            Err(e)
        },
    }
}

/// Lists the history, the latest transfer first.
pub fn list_history(read: Result<HistoryStore, String>) -> (r: Result<
    Vec<UploadHistoryEntry>,
    String,
>)
    ensures
        match stored(read) {
            Ok(entries) => r matches Ok(list) && sorted_from(entries, list@),
            Err(e) => r matches Err(x) && x@ == e,
        },
{
    match load_store(read) {
        Ok(store) => Ok(sort(store.entries)),
        Err(e) => Err(e),
    }
}

/// The store with one more transfer in front, cut to the number that is kept.
pub open spec fn appended(
    entries: Seq<UploadHistoryEntry>,
    entry: UploadHistoryEntry,
) -> Seq<UploadHistoryEntry> {
    let longer = seq![entry] + entries;
    if longer.len() > MAX_HISTORY_ENTRIES {
        longer.take(MAX_HISTORY_ENTRIES as int)
    } else {
        longer
    }
}

/// Adds a transfer to the history, and gives the store that is to be saved.
/// The oldest one is dropped where there are too many.
pub fn append_history(
    read: Result<HistoryStore, String>,
    entry: UploadHistoryEntry,
) -> (r: Result<HistoryStore, String>)
    ensures
        match stored(read) {
            Ok(entries) => r matches Ok(store) && store.entries@ == appended(entries, entry),
            Err(e) => r matches Err(x) && x@ == e,
        },
{
    match load_store(read) {
        Ok(store) => {
            let ghost entries = store.entries@;
            let mut kept = store.entries;
            kept.insert(0, entry);
            proof {
                assert(kept@ =~= seq![entry] + entries);
            }
            kept.truncate(MAX_HISTORY_ENTRIES);
            proof {
                assert(kept@ =~= appended(entries, entry));
            }
            Ok(HistoryStore { entries: kept })
        },
        Err(e) => Err(e),
    }
}

/// A transfer that is to be remembered.
#[derive(Debug, Clone)]
pub struct FinishedTransfer {
    pub local_path: String,
    pub remote_path: String,
    pub host: String,
    pub port: u16,
    pub username: String,
    pub file_size: u64,
    pub status: String,
    pub retry_count: u32,
    pub message: Option<String>,
}

/// The entry of a transfer that ended `finished_at` seconds after the epoch;
/// its name is the time in milliseconds.
pub open spec fn past_of(
    done: FinishedTransfer,
    direction: Seq<char>,
    millis: u128,
    finished_at: i64,
) -> Past {
    Past {
        id: decimal(millis as nat),
        local_path: done.local_path@,
        remote_path: done.remote_path@,
        host: done.host@,
        port: done.port,
        username: done.username@,
        file_size: done.file_size,
        status: done.status@,
        retry_count: done.retry_count,
        finished_at,
        message: opt_view(done.message),
        direction,
    }
}

fn entry_of(
    done: &FinishedTransfer,
    direction: &str,
    millis: u128,
    finished_at: i64,
) -> (r: UploadHistoryEntry)
    ensures
        r@ == past_of(*done, direction@, millis, finished_at),
{
    UploadHistoryEntry {
        id: new_id(millis),
        local_path: done.local_path.clone(),
        remote_path: done.remote_path.clone(),
        host: done.host.clone(),
        port: done.port,
        username: done.username.clone(),
        file_size: done.file_size,
        status: done.status.clone(),
        retry_count: done.retry_count,
        finished_at,
        message: copy_opt(&done.message),
        direction: direction.to_owned(),
    }
}

/// The store after a transfer was remembered.
pub open spec fn remembers(
    r: Result<HistoryStore, String>,
    read: Result<HistoryStore, String>,
    past: Past,
) -> bool {
    match stored(read) {
        Ok(entries) => r matches Ok(store) && exists|entry: UploadHistoryEntry|
            entry@ == past && store.entries@ == #[trigger] appended(entries, entry),
        Err(e) => r matches Err(x) && x@ == e,
    }
}

/// Remembers an upload, and gives the store that is to be saved.
pub fn record_upload_result(
    read: Result<HistoryStore, String>,
    done: &FinishedTransfer,
    millis: u128,
    finished_at: i64,
) -> (r: Result<HistoryStore, String>)
    ensures
        remembers(r, read, past_of(*done, "upload"@, millis, finished_at)),
{
    append_history(read, entry_of(done, "upload", millis, finished_at))
}

/// Remembers a download, and gives the store that is to be saved.
pub fn record_download_result(
    read: Result<HistoryStore, String>,
    done: &FinishedTransfer,
    millis: u128,
    finished_at: i64,
) -> (r: Result<HistoryStore, String>)
    ensures
        remembers(r, read, past_of(*done, "download"@, millis, finished_at)),
{
    append_history(read, entry_of(done, "download", millis, finished_at))
}

/// A history never holds more than the latest thirty transfers: the new one is
/// in front, and the others keep their order.
pub proof fn history_keeps_the_latest(
    entries: Seq<UploadHistoryEntry>,
    entry: UploadHistoryEntry,
)
    ensures
        ({
            let kept = appended(entries, entry);
            &&& 1 <= kept.len() <= MAX_HISTORY_ENTRIES
            &&& kept[0] == entry
            &&& forall|i: int| 1 <= i < kept.len() ==> #[trigger] kept[i] == entries[i - 1]
            &&& entries.len() < MAX_HISTORY_ENTRIES ==> kept.len() == entries.len() + 1
        }),
{
}

/// A history listed newest first stays so when a transfer is added that ended
/// no earlier than those in it.
pub proof fn history_stays_newest_first(
    entries: Seq<UploadHistoryEntry>,
    entry: UploadHistoryEntry,
)
    requires
        forall|i: int, j: int|
            0 <= i < j < entries.len() ==> #[trigger] entries[i].finished_at
                >= #[trigger] entries[j].finished_at,
        forall|i: int|
            0 <= i < entries.len() ==> entry.finished_at >= #[trigger] entries[i].finished_at,
    ensures
        ({
            let kept = appended(entries, entry);
            forall|i: int, j: int|
                0 <= i < j < kept.len() ==> #[trigger] kept[i].finished_at
                    >= #[trigger] kept[j].finished_at
        }),
{
}

/// The entry of a finished transfer says of it what is known: the two paths, the
/// server, the size, how it ended and after how many repetitions, the message,
/// which way it went, and when it ended.
pub proof fn entries_say_what_has_finished(
    done: FinishedTransfer,
    direction: Seq<char>,
    millis: u128,
    finished_at: i64,
)
    ensures
        ({
            let past = past_of(done, direction, millis, finished_at);
            &&& past.local_path == done.local_path@
            &&& past.remote_path == done.remote_path@
            &&& past.host == done.host@
            &&& past.port == done.port
            &&& past.username == done.username@
            &&& past.file_size == done.file_size
            &&& past.status == done.status@
            &&& past.retry_count == done.retry_count
            &&& past.message is Some <==> done.message is Some
            &&& done.message matches Some(message) ==> past.message == Some(message@)
            &&& past.direction == direction
            &&& past.finished_at == finished_at
            &&& past.id == decimal(millis as nat)
        }),
{
}

/// A transfer that is remembered stands in front of the history, and those before
/// it follow in their order, as many as are kept. Where the history could not be
/// read, nothing is remembered, and that is told.
pub proof fn remembered_transfers_stand_in_front(
    r: Result<HistoryStore, String>,
    read: Result<HistoryStore, String>,
    past: Past,
)
    requires
        remembers(r, read, past),
    ensures
        r is Ok <==> read is Ok || mentions(read->Err_0@, "not found"@),
        r matches Err(e) ==> e@ == read->Err_0@,
        r is Ok && read is Ok ==> ({
            let after = r->Ok_0.entries@;
            let before = read->Ok_0.entries@;
            &&& after.len() == if before.len() < 30 {
                before.len() + 1
            } else {
                30
            }
            &&& after[0]@ == past
            &&& forall|i: int| 1 <= i < after.len() ==> #[trigger] after[i] == before[i - 1]
        }),
        r is Ok && read is Err ==> r->Ok_0.entries@.len() == 1 && r->Ok_0.entries@[0]@ == past,
{
}

/// The history is listed completely, each transfer once, the one that ended last
/// in front; of two that ended at the same time the one that stands first.
pub proof fn history_is_listed_latest_first(
    entries: Seq<UploadHistoryEntry>,
    list: Seq<UploadHistoryEntry>,
)
    requires
        sorted_from(entries, list),
    ensures
        list.len() == entries.len(),
        exists|from: Seq<int>|
            {
                &&& from.len() == list.len()
                &&& forall|i: int|
                    0 <= i < list.len() ==> 0 <= #[trigger] from[i] < entries.len() && list[i]
                        == entries[from[i]]
                &&& forall|i: int, j: int|
                    0 <= i < j < list.len() ==> {
                        &&& #[trigger] from[i] != #[trigger] from[j]
                        &&& list[i].finished_at >= list[j].finished_at
                        &&& list[i].finished_at == list[j].finished_at ==> from[i] < from[j]
                    }
            },
{
    let from = choose|from: Seq<int>| stable_order(entries, list, from);
    assert forall|i: int, j: int| 0 <= i < j < list.len() implies {
        &&& #[trigger] from[i] != #[trigger] from[j]
        &&& list[i].finished_at >= list[j].finished_at
        &&& list[i].finished_at == list[j].finished_at ==> from[i] < from[j]
    } by {
        assert(list[i].precedes(list[j]));
        if list[i].finished_at == list[j].finished_at {
            assert(list[j].precedes(list[i]));
        }
    }
}

/// A history that is not there counts as empty; one that cannot be read for
/// another reason is an error, and that reason is told; one that was read is as
/// it was read.
pub proof fn missing_histories_are_empty(read: Result<HistoryStore, String>)
    ensures
        match read {
            Ok(store) => stored(read) == Ok::<Seq<UploadHistoryEntry>, Seq<char>>(store.entries@),
            Err(e) => {
                &&& mentions(e@, "not found"@) ==> stored(read) is Ok && stored(read)->Ok_0.len()
                    == 0
                &&& !mentions(e@, "not found"@) ==> stored(read) == Err::<
                    Seq<UploadHistoryEntry>,
                    Seq<char>,
                >(e@)
            },
        },
{
}

/// What is said of a past transfer is said of its fields, each of them.
pub proof fn entries_show_every_field(entry: UploadHistoryEntry)
    ensures
        entry@.id == entry.id@,
        entry@.local_path == entry.local_path@,
        entry@.remote_path == entry.remote_path@,
        entry@.host == entry.host@,
        entry@.port == entry.port,
        entry@.username == entry.username@,
        entry@.file_size == entry.file_size,
        entry@.status == entry.status@,
        entry@.retry_count == entry.retry_count,
        entry@.finished_at == entry.finished_at,
        entry@.message is Some <==> entry.message is Some,
        entry.message is Some ==> entry@.message.unwrap() == entry.message.unwrap()@,
        entry@.direction == entry.direction@,
{
}

/// An upload that is remembered stands in front of the history, as an upload, with
/// all that was said of it.
pub proof fn finished_uploads_are_remembered(
    read: Result<HistoryStore, String>,
    done: FinishedTransfer,
    millis: u128,
    finished_at: i64,
    kept: Result<HistoryStore, String>,
)
    requires
        call_ensures(record_upload_result, (read, &done, millis, finished_at), kept),
    ensures
        read is Ok ==> kept is Ok,
        kept is Ok ==> ({
            let entry = kept->Ok_0.entries@[0];
            &&& kept->Ok_0.entries@.len() > 0
            &&& entry.direction@ == "upload"@
            &&& told_of(entry, done, finished_at)
        }),
{
    let past = past_of(done, "upload"@, millis, finished_at);
    remembered_transfers_stand_in_front(kept, read, past);
    entries_say_what_has_finished(done, "upload"@, millis, finished_at);
}

/// A download that is remembered stands in front of the history, as a download,
/// with all that was said of it.
pub proof fn finished_downloads_are_remembered(
    read: Result<HistoryStore, String>,
    done: FinishedTransfer,
    millis: u128,
    finished_at: i64,
    kept: Result<HistoryStore, String>,
)
    requires
        call_ensures(record_download_result, (read, &done, millis, finished_at), kept),
    ensures
        read is Ok ==> kept is Ok,
        kept is Ok ==> ({
            let entry = kept->Ok_0.entries@[0];
            &&& kept->Ok_0.entries@.len() > 0
            &&& entry.direction@ == "download"@
            &&& told_of(entry, done, finished_at)
        }),
{
    let past = past_of(done, "download"@, millis, finished_at);
    remembered_transfers_stand_in_front(kept, read, past);
    entries_say_what_has_finished(done, "download"@, millis, finished_at);
}

/// An entry says all that was said of a transfer that has ended.
pub open spec fn told_of(
    entry: UploadHistoryEntry,
    done: FinishedTransfer,
    finished_at: i64,
) -> bool {
    &&& entry.local_path@ == done.local_path@
    &&& entry.remote_path@ == done.remote_path@
    &&& entry.host@ == done.host@
    &&& entry.port == done.port
    &&& entry.username@ == done.username@
    &&& entry.file_size == done.file_size
    &&& entry.status@ == done.status@
    &&& entry.retry_count == done.retry_count
    &&& entry.finished_at == finished_at
    &&& entry.message is Some <==> done.message is Some
    &&& entry.message is Some ==> entry.message.unwrap()@ == done.message.unwrap()@
}

} // verus!
