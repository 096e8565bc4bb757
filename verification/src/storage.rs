//! What is kept in the browser's storage: the connection config and the time of
//! the last sync, each as one text under its own key.

use crate::sync::{SyncConfig, SyncConfigView};
use vstd::prelude::*;
use vstd::string::*;

verus! {

/// The key of the connection config.
pub const SYNC_CONFIG_KEY: &'static str = "amp_gh_sync";

/// The key of the time of the last sync.
pub const LAST_SYNCED_KEY: &'static str = "amp_last_synced_at";

/// What reading one key of the storage came to.
#[derive(Debug)]
pub enum ItemRead {
    /// There is no storage here.
    NoStorage,
    /// The storage refused.
    Refused,
    /// Nothing is stored under the key.
    Absent,
    Found(String),
}

/// One text to be stored under one key, in place of what is there.
#[derive(Debug)]
pub struct ItemWrite {
    pub key: String,
    pub value: String,
}

/// What an [`ItemWrite`] holds.
#[verifier::ext_equal]
pub struct ItemWriteView {
    pub key: Seq<char>,
    pub value: Seq<char>,
}

impl View for ItemWrite {
    type V = ItemWriteView;

    open spec fn view(&self) -> ItemWriteView {
        ItemWriteView { key: self.key@, value: self.value@ }
    }
}

impl ItemWriteView {
    /// The write that keeps the time of the last sync.
    pub open spec fn last_synced_at(ts: Seq<char>) -> ItemWriteView {
        ItemWriteView { key: LAST_SYNCED_KEY@, value: ts }
    }

    /// The write that keeps the connection config, printed as JSON.
    pub open spec fn sync_config(json: Seq<char>) -> ItemWriteView {
        ItemWriteView { key: SYNC_CONFIG_KEY@, value: json }
    }

    /// What the storage holds after the write.
    pub open spec fn applied(self, items: Map<Seq<char>, Seq<char>>) -> Map<
        Seq<char>,
        Seq<char>,
    > {
        items.insert(self.key, self.value)
    }
}

impl ItemRead {
    /// The text that was found.
    pub open spec fn found(self) -> Option<Seq<char>> {
        match self {
            ItemRead::Found(text) => Some(text@),
            _ => None,
        }
    }

    /// Whether this is what reading `key` comes to in a storage that holds `items`.
    pub open spec fn reads(self, items: Map<Seq<char>, Seq<char>>, key: Seq<char>) -> bool {
        if items.contains_key(key) {
            self matches ItemRead::Found(text) && text@ == items[key]
        } else {
            self is Absent
        }
    }
}

/// The config that a stored text comes to, by what it was parsed to.
pub open spec fn loaded_config(parsed: Option<SyncConfigView>) -> SyncConfigView {
    match parsed {
        Some(cfg) => cfg,
        None => SyncConfigView::empty(),
    }
}

/// The text under a key, where there is one. A storage that is missing or refuses
/// counts as one that holds nothing.
pub fn stored_text(read: ItemRead) -> (res: Option<String>)
    ensures
        crate::text::opt_text(res) == read.found(),
{
    match read {
        ItemRead::Found(text) => Some(text),
        _ => None,
    }
}

/// The connection config, from what its stored text was parsed to. Without a text,
/// or with one that is not a config, it is the empty config.
pub fn load_sync_config(parsed: Option<SyncConfig>) -> (res: SyncConfig)
    ensures
        res@ == loaded_config(
            match parsed {
                Some(cfg) => Some(cfg@),
                None => None,
            },
        ),
{
    match parsed {
        Some(cfg) => cfg,
        None => SyncConfig::default(),
    }
}

/// The write that keeps the connection config, given the JSON that it was printed
/// as. A config that could not be printed is not written.
pub fn save_sync_config(printed: Option<String>) -> (res: Option<ItemWrite>)
    ensures
        match printed {
            Some(json) => res matches Some(w) && w@ == ItemWriteView::sync_config(json@),
            None => res is None,
        },
{
    match printed {
        Some(json) => Some(ItemWrite { key: SYNC_CONFIG_KEY.to_owned(), value: json }),
        None => None,
    }
}

/// The time of the last sync, from what reading its key came to.
pub fn load_last_synced_at(read: ItemRead) -> (res: Option<String>)
    ensures
        crate::text::opt_text(res) == read.found(),
{
    stored_text(read)
}

/// The write that keeps the time of the last sync.
pub fn save_last_synced_at(ts: &str) -> (res: ItemWrite)
    ensures
        res@ == ItemWriteView::last_synced_at(ts@),
{
    ItemWrite { key: LAST_SYNCED_KEY.to_owned(), value: ts.to_owned() }
}

} // verus!
