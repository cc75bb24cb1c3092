use std::collections::HashMap;
use vstd::prelude::*;
use crate::message_storage::{MessageStorage, StoredMessage};

verus! {

/// A read-only snapshot of the bot's settings handed to a command: the watched
/// author, the destination channel of each community, the store file and the
/// settings file.
pub struct Configuration {
    pub observed_users: u64,
    pub send_channels: HashMap<u64, u64>,
    pub message_storage_path: String,
    pub file_path: String,
}

/// What a message-deleted event leads to.
pub enum RelayOutcome {
    /// The deletion happened outside a community (a direct message).
    NoCommunity,
    /// No stored entry has the deleted id.
    NotFound,
    /// The entry was found but its community has no destination channel.
    NoDestination,
    /// Post `content` to the channel `channel_id`.
    Send { channel_id: u64, content: String },
}

/// The index of the first entry at or after `start` whose message id is `id`.
pub open spec fn first_match_from(entries: Seq<StoredMessage>, id: u64, start: int) -> Option<int>
    decreases entries.len() - start,
{
    if start < 0 || start >= entries.len() {
        None
    } else if entries[start].message.id == id {
        Some(start)
    } else {
        first_match_from(entries, id, start + 1)
    }
}

/// The index of the first entry, in store order, whose message id is `id`.
pub open spec fn first_match(entries: Seq<StoredMessage>, id: u64) -> Option<int> {
    first_match_from(entries, id, 0)
}

/// The outcome of a deletion of `deleted_id` in `guild_id`, given the stored
/// entries and the destination channel of each community.
pub open spec fn relay_outcome(
    entries: Seq<StoredMessage>,
    deleted_id: u64,
    guild_id: Option<u64>,
    destinations: Map<u64, u64>,
) -> RelayOutcome {
    match guild_id {
        None => RelayOutcome::NoCommunity,
        Some(g) => match first_match(entries, deleted_id) {
            None => RelayOutcome::NotFound,
            Some(i) => if destinations.contains_key(g) {
                RelayOutcome::Send {
                    channel_id: destinations[g],
                    content: entries[i].message.content,
                }
            } else {
                RelayOutcome::NoDestination
            },
        },
    }
}

proof fn lemma_first_match_from(entries: Seq<StoredMessage>, id: u64, start: int)
    requires
        0 <= start,
    ensures
        match first_match_from(entries, id, start) {
            Some(i) => start <= i < entries.len() && entries[i].message.id == id && forall|j: int|
                start <= j < i ==> #[trigger] entries[j].message.id != id,
            None => forall|j: int| start <= j < entries.len() ==> #[trigger] entries[j].message.id != id,
        },
    decreases entries.len() - start,
{
    if start < entries.len() && entries[start].message.id != id {
        lemma_first_match_from(entries, id, start + 1);
    }
}

/// The first match is an entry with the id, and no earlier entry has it; where
/// there is none, no entry has the id.
pub proof fn lemma_first_match(entries: Seq<StoredMessage>, id: u64)
    ensures
        match first_match(entries, id) {
            Some(i) => 0 <= i < entries.len() && entries[i].message.id == id && forall|j: int|
                0 <= j < i ==> #[trigger] entries[j].message.id != id,
            None => forall|j: int| 0 <= j < entries.len() ==> #[trigger] entries[j].message.id != id,
        },
{
    lemma_first_match_from(entries, id, 0);
}

/// A deletion whose id is in no stored entry sends nothing.
pub proof fn lemma_relay_miss(
    entries: Seq<StoredMessage>,
    deleted_id: u64,
    guild_id: Option<u64>,
    destinations: Map<u64, u64>,
)
    requires
        forall|j: int| 0 <= j < entries.len() ==> #[trigger] entries[j].message.id != deleted_id,
    ensures
        !(relay_outcome(entries, deleted_id, guild_id, destinations) is Send),
{
    lemma_first_match(entries, deleted_id);
}

/// A deletion in a community with a destination, of an id that a stored entry
/// has, sends the text of the first such entry to that destination.
pub proof fn lemma_relay_match(
    entries: Seq<StoredMessage>,
    deleted_id: u64,
    guild: u64,
    destinations: Map<u64, u64>,
    i: int,
)
    requires
        0 <= i < entries.len(),
        entries[i].message.id == deleted_id,
        forall|j: int| 0 <= j < i ==> #[trigger] entries[j].message.id != deleted_id,
        destinations.contains_key(guild),
    ensures
        relay_outcome(entries, deleted_id, Some(guild), destinations) == (RelayOutcome::Send {
            channel_id: destinations[guild],
            content: entries[i].message.content,
        }),
{
    lemma_first_match(entries, deleted_id);
    match first_match(entries, deleted_id) {
        Some(k) => {
            if k < i {
                assert(entries[k].message.id != deleted_id);
            } else if k > i {
                assert(entries[i].message.id != deleted_id);
            }
        },
        None => {
            assert(entries[i].message.id != deleted_id);
        },
    }
}

impl MessageStorage {
    /// The position of the first entry whose message id is `id`.
    pub fn find_message(&self, id: u64) -> (r: Option<usize>)
        ensures
            match r {
                Some(i) => first_match(self.messages@, id) == Some(i as int),
                None => first_match(self.messages@, id) is None,
            },
    {
        let mut i: usize = 0;
        while i < self.messages.len()
            invariant
                i <= self.messages@.len(),
                first_match(self.messages@, id) == first_match_from(self.messages@, id, i as int),
            decreases self.messages@.len() - i,
        {
            if self.messages[i].message.id == id {
                return Some(i);
            }
            i = i + 1;
        }
        None
    }
}

/// Decides what a message-deleted event leads to: nothing outside a
/// community; nothing when no stored entry has the deleted id; nothing when
/// the community has no destination channel; else the text of the first
/// stored entry with that id, to be posted to the destination channel. The
/// store is left as it is.
pub fn plan_relay(
    storage: &MessageStorage,
    deleted_id: u64,
    guild_id: Option<u64>,
    destinations: &HashMap<u64, u64>,
) -> (r: RelayOutcome)
    ensures
        r == relay_outcome(storage.messages@, deleted_id, guild_id, destinations@),
{
    let guild = match guild_id {
        None => return RelayOutcome::NoCommunity,
        Some(g) => g,
    };
    let index = match storage.find_message(deleted_id) {
        None => return RelayOutcome::NotFound,
        Some(i) => i,
    };
    proof {
        lemma_first_match(storage.messages@, deleted_id);
    }
    match destinations.get(&guild) {
        None => RelayOutcome::NoDestination,
        Some(channel) => RelayOutcome::Send {
            channel_id: *channel,
            content: storage.messages[index].message.content.clone(),
        },
    }
}

} // verus!
