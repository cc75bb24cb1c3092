use vstd::prelude::*;
use crate::commands::CommandError;

verus! {

/// Two days, in milliseconds: how long a captured message is retained.
pub const RETENTION_WINDOW_MS: i64 = 172_800_000;

/// What the store keeps of a platform message: enough to find it again by id
/// and to re-post its text.
pub struct MessageData {
    pub id: u64,
    pub channel_id: u64,
    pub author_id: u64,
    pub guild_id: Option<u64>,
    pub content: String,
}

/// A message together with the moment (milliseconds since the Unix epoch) at
/// which the bot observed it.
pub struct StoredMessage {
    pub captured_at: i64,
    pub message: MessageData,
}

/// The retained messages, in capture order.
pub struct MessageStorage {
    pub messages: Vec<StoredMessage>,
}

/// One stored entry as the store file holds it: capture time, message id,
/// channel id, author id, guild id and text.
pub type StoredRow = (i64, u64, u64, u64, Option<u64>, String);

/// The value of a row, with the text as characters.
pub type RowView = (i64, u64, u64, u64, Option<u64>, Seq<char>);

/// The value of a stored row.
pub open spec fn row_view(row: StoredRow) -> RowView {
    (row.0, row.1, row.2, row.3, row.4, row.5@)
}

/// The values of a sequence of rows.
pub open spec fn rows_view(rows: Seq<StoredRow>) -> Seq<RowView> {
    rows.map_values(|row: StoredRow| row_view(row))
}

/// The row values of a sequence of entries.
pub open spec fn entries_view(entries: Seq<StoredMessage>) -> Seq<RowView> {
    entries.map_values(|e: StoredMessage| entry_view(e))
}

/// The row value of an entry.
pub open spec fn entry_view(e: StoredMessage) -> RowView {
    (
        e.captured_at,
        e.message.id,
        e.message.channel_id,
        e.message.author_id,
        e.message.guild_id,
        e.message.content@,
    )
}

/// The JSON text that serde_json prints for a sequence of rows.
pub uninterp spec fn json_text_of(rows: Seq<RowView>) -> Seq<char>;

/// The rows that serde_json reads from a text, or `None` where it refuses it.
pub uninterp spec fn parsed_rows_of(text: Seq<char>) -> Option<Seq<RowView>>;

/// Relies on serde_json::to_string, which prints a sequence of tuples as a
/// JSON array of arrays; what it prints depends on the rows alone. It fails
/// only where a `Serialize` impl fails or a map has non-string keys, and
/// neither occurs in integers, options of integers and strings.
#[verifier::external_body]
fn rows_to_json(rows: &Vec<StoredRow>) -> (r: Result<String, serde_json::Error>)
    ensures
        r is Ok,
        r matches Ok(text) ==> text@ == json_text_of(rows_view(rows@)),
{
    serde_json::to_string(rows)
}

/// Relies on serde_json::from_str: it reads rows from JSON text or fails,
/// depending on the text alone.
#[verifier::external_body]
fn json_to_rows(text: &str) -> (r: Result<Vec<StoredRow>, serde_json::Error>)
    ensures
        r is Ok <==> parsed_rows_of(text@) is Some,
        r matches Ok(rows) ==> parsed_rows_of(text@) == Some(
            rows_view(rows@),
        ),
{
    serde_json::from_str(text)
}

/// An entry captured at `captured_at` is still retained at `now` when its age
/// does not exceed the window.
pub open spec fn retained(captured_at: int, now: int, window: int) -> bool {
    now - captured_at <= window
}

/// The entries of `entries` that are still retained at `now`, in their order.
pub open spec fn retained_entries(entries: Seq<StoredMessage>, now: int, window: int) -> Seq<
    StoredMessage,
> {
    entries.filter(retained_at(now, window))
}

/// The retention test at `now`, as a predicate on entries.
pub open spec fn retained_at(now: int, window: int) -> spec_fn(StoredMessage) -> bool {
    |e: StoredMessage| retained(e.captured_at as int, now, window)
}

/// The store after a message-created event at `now`: a message of the watched
/// author is appended and the whole store is then evicted; any other message
/// leaves the store as it was.
pub open spec fn captured_entries(
    entries: Seq<StoredMessage>,
    message: MessageData,
    watched_author: u64,
    now: i64,
    window: i64,
) -> Seq<StoredMessage> {
    if message.author_id == watched_author {
        retained_entries(
            entries.push(StoredMessage { captured_at: now, message }),
            now as int,
            window as int,
        )
    } else {
        entries
    }
}

impl MessageData {
    /// A copy of the message data.
    pub fn duplicate(&self) -> (r: MessageData)
        ensures
            r == *self,
    {
        MessageData {
            id: self.id,
            channel_id: self.channel_id,
            author_id: self.author_id,
            guild_id: self.guild_id,
            content: self.content.clone(),
        }
    }
}

impl StoredMessage {
    /// A copy of the entry.
    pub fn duplicate(&self) -> (r: StoredMessage)
        ensures
            r == *self,
    {
        StoredMessage { captured_at: self.captured_at, message: self.message.duplicate() }
    }
}

/// Whether an entry captured at `captured_at` must be evicted at `now`: its
/// age is strictly greater than `window`.
pub fn is_expired(captured_at: i64, now: i64, window: i64) -> (r: bool)
    ensures
        r == !retained(captured_at as int, now as int, window as int),
{
    (now as i128) - (captured_at as i128) > (window as i128)
}

impl MessageStorage {
    /// An empty store.
    pub fn new() -> (r: MessageStorage)
        ensures
            r.messages@.len() == 0,
    {
        MessageStorage { messages: Vec::new() }
    }

    /// The store in its file form: one row per entry, in order.
    pub open spec fn rows(&self) -> Seq<RowView> {
        entries_view(self.messages@)
    }

    /// The entries as rows, in order.
    pub fn to_rows(&self) -> (r: Vec<StoredRow>)
        ensures
            rows_view(r@) == self.rows(),
    {
        let mut rows: Vec<StoredRow> = Vec::new();
        let mut i: usize = 0;
        while i < self.messages.len()
            invariant
                i <= self.messages@.len(),
                rows@.len() == i,
                forall|j: int| 0 <= j < i ==> row_view(#[trigger] rows@[j]) == entry_view(self.messages@[j]),
            decreases self.messages@.len() - i,
        {
            let e = &self.messages[i];
            let row: StoredRow = (
                e.captured_at,
                e.message.id,
                e.message.channel_id,
                e.message.author_id,
                e.message.guild_id,
                e.message.content.clone(),
            );
            rows.push(row);
            i = i + 1;
        }
        let ghost lhs = rows_view(rows@);
        let ghost rhs = self.rows();
        assert(lhs.len() == rhs.len());
        assert forall|j: int| 0 <= j < lhs.len() implies lhs[j] == rhs[j] by {
            assert(row_view(rows@[j]) == entry_view(self.messages@[j]));
        }
        assert(lhs =~= rhs);
        rows
    }

    /// The store whose entries are the given rows, in order.
    pub fn from_rows(rows: Vec<StoredRow>) -> (r: MessageStorage)
        ensures
            r.rows() == rows_view(rows@),
    {
        let mut messages: Vec<StoredMessage> = Vec::new();
        let mut i: usize = 0;
        while i < rows.len()
            invariant
                i <= rows@.len(),
                messages@.len() == i,
                forall|j: int| 0 <= j < i ==> entry_view(#[trigger] messages@[j]) == row_view(rows@[j]),
            decreases rows@.len() - i,
        {
            let row = &rows[i];
            let e = StoredMessage {
                captured_at: row.0,
                message: MessageData {
                    id: row.1,
                    channel_id: row.2,
                    author_id: row.3,
                    guild_id: row.4,
                    content: row.5.clone(),
                },
            };
            messages.push(e);
            i = i + 1;
        }
        let r = MessageStorage { messages };
        let ghost lhs = r.rows();
        let ghost rhs = rows_view(rows@);
        assert(lhs.len() == rhs.len());
        assert forall|j: int| 0 <= j < lhs.len() implies lhs[j] == rhs[j] by {
            assert(entry_view(r.messages@[j]) == row_view(rows@[j]));
        }
        assert(lhs =~= rhs);
        r
    }

    /// The store as JSON text, as the store file holds it. Encoding always
    /// succeeds.
    pub fn to_json(&self) -> (r: Result<String, CommandError>)
        ensures
            r is Ok,
            match r {
                Ok(text) => text@ == json_text_of(self.rows()),
                Err(e) => e is Serialization,
            },
    {
        let rows = self.to_rows();
        match rows_to_json(&rows) {
            Ok(text) => Ok(text),
            Err(e) => Err(CommandError::Serialization(e)),
        }
    }

    /// Reads a store from JSON text; fails with a serialization error exactly
    /// where the text does not hold a sequence of rows.
    pub fn from_json(text: &str) -> (r: Result<MessageStorage, CommandError>)
        ensures
            r is Ok <==> parsed_rows_of(text@) is Some,
            match r {
                Ok(s) => parsed_rows_of(text@) == Some(s.rows()),
                Err(e) => e is Serialization,
            },
    {
        match json_to_rows(text) {
            Ok(rows) => Ok(MessageStorage::from_rows(rows)),
            Err(e) => Err(CommandError::Serialization(e)),
        }
    }

    /// Removes every entry older than `window` at `now`. Every entry is looked
    /// at once, and the survivors keep their order.
    pub fn evict(&mut self, now: i64, window: i64)
        ensures
            final(self).messages@ == retained_entries(old(self).messages@, now as int, window as int),
    {
        let ghost pred = retained_at(now as int, window as int);
        let mut kept: Vec<StoredMessage> = Vec::new();
        let n = self.messages.len();
        let mut i: usize = 0;
        while i < n
            invariant
                n == self.messages@.len(),
                i <= n,
                pred == retained_at(now as int, window as int),
                kept@ == self.messages@.subrange(0, i as int).filter(pred),
            decreases n - i,
        {
            let ghost before = self.messages@.subrange(0, i as int);
            let ghost entry = self.messages@[i as int];
            proof {
                reveal(Seq::filter);
            }
            assert(self.messages@.subrange(0, i + 1).drop_last() == before);
            assert(self.messages@.subrange(0, i + 1).last() == entry);
            assert(self.messages@.subrange(0, i + 1).filter(pred) == if pred(entry) {
                before.filter(pred).push(entry)
            } else {
                before.filter(pred)
            });
            let expired = is_expired(self.messages[i].captured_at, now, window);
            assert(pred(entry) == !expired);
            if !expired {
                let copy = self.messages[i].duplicate();
                kept.push(copy);
            }
            assert(kept@ == self.messages@.subrange(0, i + 1).filter(pred));
            i = i + 1;
        }
        assert(self.messages@.subrange(0, n as int) == self.messages@);
        self.messages = kept;
    }

    /// Handles a message-created event observed at `now`. A message whose
    /// author is not `watched_author` is ignored; any other is appended with
    /// `captured_at = now`, after which every entry older than `window` is
    /// evicted. Returns whether the message was captured.
    pub fn capture(&mut self, message: MessageData, watched_author: u64, now: i64, window: i64) -> (r:
        bool)
        ensures
            r == (message.author_id == watched_author),
            final(self).messages@ == captured_entries(
                old(self).messages@,
                message,
                watched_author,
                now,
                window,
            ),
    {
        if message.author_id != watched_author {
            return false;
        }
        self.messages.push(StoredMessage { captured_at: now, message });
        self.evict(now, window);
        true
    }
}

/// After eviction every remaining entry is within the window, every entry
/// that is gone was older than the window, and no entry within the window is
/// lost.
pub proof fn lemma_eviction_correct(entries: Seq<StoredMessage>, now: int, window: int)
    ensures
        forall|e: StoredMessage| #[trigger]
            retained_entries(entries, now, window).contains(e) ==> entries.contains(e)
                && retained(e.captured_at as int, now, window),
        forall|i: int|
            0 <= i < entries.len() ==> (#[trigger] retained_entries(entries, now, window).contains(
                entries[i],
            ) <==> retained(entries[i].captured_at as int, now, window)),
{
    let pred = retained_at(now, window);
    assert forall|e: StoredMessage| #[trigger]
        retained_entries(entries, now, window).contains(e) implies entries.contains(e) && retained(
        e.captured_at as int,
        now,
        window,
    ) by {
        entries.lemma_filter_contains_rev(pred, e);
        let k = choose|k: int|
            0 <= k < entries.filter(pred).len() && entries.filter(pred)[k] == e;
        entries.lemma_filter_pred(pred, k);
    }
    assert forall|i: int| 0 <= i < entries.len() implies (#[trigger] retained_entries(
        entries,
        now,
        window,
    ).contains(entries[i]) <==> retained(entries[i].captured_at as int, now, window)) by {
        if retained(entries[i].captured_at as int, now, window) {
            entries.lemma_filter_contains(pred, i);
        }
    }
}

/// A store read back from rows equal to those of another store holds the same
/// entries: same capture times, ids, channels, authors, guilds and texts, in
/// the same order.
pub proof fn lemma_rows_reproduce_entries(original: MessageStorage, decoded: MessageStorage)
    requires
        decoded.rows() == original.rows(),
    ensures
        decoded.messages@.len() == original.messages@.len(),
        forall|i: int|
            0 <= i < original.messages@.len() ==> {
                let a = #[trigger] original.messages@[i];
                let b = decoded.messages@[i];
                &&& b.captured_at == a.captured_at
                &&& b.message.id == a.message.id
                &&& b.message.channel_id == a.message.channel_id
                &&& b.message.author_id == a.message.author_id
                &&& b.message.guild_id == a.message.guild_id
                &&& b.message.content@ == a.message.content@
            },
{
    assert(decoded.rows().len() == decoded.messages@.len());
    assert(original.rows().len() == original.messages@.len());
    assert forall|i: int| 0 <= i < original.messages@.len() implies {
        let a = #[trigger] original.messages@[i];
        let b = decoded.messages@[i];
        &&& b.captured_at == a.captured_at
        &&& b.message.id == a.message.id
        &&& b.message.channel_id == a.message.channel_id
        &&& b.message.author_id == a.message.author_id
        &&& b.message.guild_id == a.message.guild_id
        &&& b.message.content@ == a.message.content@
    } by {
        assert(decoded.rows()[i] == original.rows()[i]);
    }
    assert(decoded.rows().len() == original.rows().len());
}

/// Eviction keeps an entry whose age is exactly the window and evicts one that
/// is a millisecond older.
pub proof fn lemma_boundary_age(now: int, window: int)
    ensures
        retained(now - window, now, window),
        !retained(now - window - 1, now, window),
{
}

/// A message-created event from an author other than the watched one leaves
/// the store unchanged, so that message never enters it.
pub proof fn lemma_capture_filter(
    entries: Seq<StoredMessage>,
    message: MessageData,
    watched_author: u64,
    now: i64,
    window: i64,
)
    requires
        message.author_id != watched_author,
    ensures
        captured_entries(entries, message, watched_author, now, window) == entries,
        forall|e: StoredMessage|
            e.message == message && !entries.contains(e) ==> !#[trigger] captured_entries(
                entries,
                message,
                watched_author,
                now,
                window,
            ).contains(e),
{
}

/// Two message-created events of the watched author handled one after the
/// other, within one window of each other, leave both messages in the store.
pub proof fn lemma_serialized_captures_keep_both(
    entries: Seq<StoredMessage>,
    first: MessageData,
    second: MessageData,
    watched_author: u64,
    first_now: i64,
    second_now: i64,
    window: i64,
)
    requires
        first.author_id == watched_author,
        second.author_id == watched_author,
        first_now <= second_now,
        second_now - first_now <= window,
    ensures
        ({
            let result = captured_entries(
                captured_entries(entries, first, watched_author, first_now, window),
                second,
                watched_author,
                second_now,
                window,
            );
            result.contains(StoredMessage { captured_at: first_now, message: first })
                && result.contains(StoredMessage { captured_at: second_now, message: second })
        }),
{
    let e1 = StoredMessage { captured_at: first_now, message: first };
    let e2 = StoredMessage { captured_at: second_now, message: second };
    let s1 = entries.push(e1);
    assert(s1[s1.len() - 1] == e1);
    lemma_eviction_correct(s1, first_now as int, window as int);
    let mid = retained_entries(s1, first_now as int, window as int);
    assert(mid.contains(e1));
    let s2 = mid.push(e2);
    let k = choose|k: int| 0 <= k < mid.len() && mid[k] == e1;
    assert(s2[k] == e1);
    assert(s2[s2.len() - 1] == e2);
    lemma_eviction_correct(s2, second_now as int, window as int);
}

/// Two message-created events handled at once, each loading the same store and
/// saving its own result, lose an update: the second save no longer holds the
/// first message.
pub proof fn lemma_interleaved_captures_lose_update(
    entries: Seq<StoredMessage>,
    first: MessageData,
    second: MessageData,
    watched_author: u64,
    first_now: i64,
    second_now: i64,
    window: i64,
)
    requires
        !entries.contains(StoredMessage { captured_at: first_now, message: first }),
        first != second,
    ensures
        !captured_entries(entries, second, watched_author, second_now, window).contains(
            StoredMessage { captured_at: first_now, message: first },
        ),
{
    let e1 = StoredMessage { captured_at: first_now, message: first };
    let e2 = StoredMessage { captured_at: second_now, message: second };
    if second.author_id == watched_author {
        let s = entries.push(e2);
        lemma_eviction_correct(s, second_now as int, window as int);
        if retained_entries(s, second_now as int, window as int).contains(e1) {
            let k = choose|k: int| 0 <= k < s.len() && s[k] == e1;
            if k < entries.len() {
                assert(entries[k] == e1);
            }
        }
    }
}

} // verus!
