//! What the feed aggregator sends.
use vstd::prelude::*;

verus! {

/// One new article. A field absent from the notification reads as empty.
pub struct MinifluxEntry {
    pub title: String,
    pub url: String,
}

/// One notification: the feed's title and its new articles, in order.
pub struct MinifluxWebhook {
    pub feed_title: String,
    pub entries: Vec<MinifluxEntry>,
}

impl Default for MinifluxEntry {
    /// An entry whose fields are both empty, as a notification that names
    /// neither gives it.
    fn default() -> (r: MinifluxEntry)
        ensures
            r.title@ == Seq::<char>::empty(),
            r.url@ == Seq::<char>::empty(),
    {
        MinifluxEntry { title: String::new(), url: String::new() }
    }
}

impl Default for MinifluxWebhook {
    /// A notification with an empty feed title and no entries.
    fn default() -> (r: MinifluxWebhook)
        ensures
            r.feed_title@ == Seq::<char>::empty(),
            r.entries@ == Seq::<MinifluxEntry>::empty(),
    {
        MinifluxWebhook { feed_title: String::new(), entries: Vec::new() }
    }
}

} // verus!
