//! Change notifications of the key-value store and the filters that select
//! them.

use vstd::prelude::*;
use crate::ids::{random_uuid_value, is_random_uuid};
use crate::text::str_starts_with;

verus! {

/// The kind of a change to the store.
#[derive(Debug, Clone, Copy, PartialEq, Eq, Structural)]
pub enum ChangeType {
    Created,
    Updated,
    Deleted,
    Cleared,
}

impl ChangeType {
    /// "CREATED", "UPDATED", "DELETED" or "CLEARED".
    pub fn as_text(&self) -> (r: &'static str)
        ensures
            r@ == match *self {
                ChangeType::Created => "CREATED"@,
                ChangeType::Updated => "UPDATED"@,
                ChangeType::Deleted => "DELETED"@,
                ChangeType::Cleared => "CLEARED"@,
            },
    {
        match self {
            ChangeType::Created => "CREATED",
            ChangeType::Updated => "UPDATED",
            ChangeType::Deleted => "DELETED",
            ChangeType::Cleared => "CLEARED",
        }
    }
}

/// A change to the store.
#[derive(Debug, Clone)]
pub struct ChangeNotification {
    pub key: String,
    pub change_type: ChangeType,
    pub old_value: Option<String>,
    pub new_value: Option<String>,
    pub version: u64,
    pub timestamp: u64,
}

/// Identifier of a subscription, held as the value of its UUID.
#[derive(Debug, Clone, Copy, PartialEq, Eq, Hash, Structural)]
pub struct SubscriptionId(pub u128);

impl SubscriptionId {
    /// A fresh random identifier: the value of a random (version 4) UUID.
    pub fn new() -> (r: SubscriptionId)
        ensures
            is_random_uuid(r.0),
    {
        SubscriptionId(random_uuid_value())
    }
}

impl Default for SubscriptionId {
    fn default() -> (r: SubscriptionId) {
        SubscriptionId::new()
    }
}

/// Which notifications a subscriber wants.
#[derive(Debug)]
pub enum NotificationFilter {
    /// All notifications
    All,
    /// Only notifications for specific key
    Key(String),
    /// Only notifications for keys with specific prefix
    KeyPrefix(String),
    /// Only notifications of specific type
    ChangeType(ChangeType),
    /// Combined filters (all must match)
    And(Vec<NotificationFilter>),
    /// Any of the filters can match
    Or(Vec<NotificationFilter>),
}

/// Whether `f` selects `n`.
pub open spec fn filter_matches(f: NotificationFilter, n: ChangeNotification) -> bool
    decreases f,
{
    match f {
        NotificationFilter::All => true,
        NotificationFilter::Key(k) => n.key@ == k@,
        NotificationFilter::KeyPrefix(p) => p@.is_prefix_of(n.key@),
        NotificationFilter::ChangeType(t) => n.change_type == t,
        NotificationFilter::And(fs) => all_filters_match(fs@, n),
        NotificationFilter::Or(fs) => any_filter_matches(fs@, n),
    }
}

/// Whether every filter of `fs` selects `n`.
pub open spec fn all_filters_match(fs: Seq<NotificationFilter>, n: ChangeNotification) -> bool
    decreases fs,
{
    if fs.len() == 0 {
        true
    } else {
        filter_matches(fs.last(), n) && all_filters_match(fs.drop_last(), n)
    }
}

/// Whether some filter of `fs` selects `n`.
pub open spec fn any_filter_matches(fs: Seq<NotificationFilter>, n: ChangeNotification) -> bool
    decreases fs,
{
    if fs.len() == 0 {
        false
    } else {
        filter_matches(fs.last(), n) || any_filter_matches(fs.drop_last(), n)
    }
}

impl NotificationFilter {
    /// A copy of the filter.
    pub fn duplicate(&self) -> (r: NotificationFilter)
        ensures
            forall|n: ChangeNotification| filter_matches(r, n) == filter_matches(*self, n),
        decreases self,
    {
        match self {
            NotificationFilter::All => NotificationFilter::All,
            NotificationFilter::Key(k) => NotificationFilter::Key(k.clone()),
            NotificationFilter::KeyPrefix(p) => NotificationFilter::KeyPrefix(p.clone()),
            NotificationFilter::ChangeType(t) => NotificationFilter::ChangeType(*t),
            NotificationFilter::And(fs) => {
                let r = NotificationFilter::And(duplicate_all(fs));
                assert forall|n: ChangeNotification| filter_matches(r, n) == filter_matches(*self, n) by {
                    assert(filter_matches(*self, n) == all_filters_match(fs@, n));
                }
                r
            },
            NotificationFilter::Or(fs) => {
                let r = NotificationFilter::Or(duplicate_all(fs));
                assert forall|n: ChangeNotification| filter_matches(r, n) == filter_matches(*self, n) by {
                    assert(filter_matches(*self, n) == any_filter_matches(fs@, n));
                }
                r
            },
        }
    }

    /// Whether the filter selects `notification`.
    #[verifier::loop_isolation(false)]
    pub fn matches(&self, notification: &ChangeNotification) -> (r: bool)
        ensures
            r == filter_matches(*self, *notification),
        decreases self,
    {
        match self {
            NotificationFilter::All => true,
            NotificationFilter::Key(key) => notification.key == *key,
            NotificationFilter::KeyPrefix(prefix) => str_starts_with(notification.key.as_str(), prefix.as_str()),
            NotificationFilter::ChangeType(change_type) => notification.change_type == *change_type,
            NotificationFilter::And(filters) => {
                let mut i: usize = 0;
                while i < filters.len()
                    invariant
                        i <= filters@.len(),
                        all_filters_match(filters@.take(i as int), *notification),
                    decreases filters@.len() - i,
                {
                    proof {
                        assert(filters@.take(i + 1).drop_last() =~= filters@.take(i as int));
                    }
                    proof { vstd::std_specs::vec::axiom_vec_index_decreases(*filters, i as int); }
                    if !filters[i].matches(notification) {
                        proof {
                            if all_filters_match(filters@, *notification) {
                                lemma_all_match_prefix(filters@, (i + 1) as int, *notification);
                            }
                        }
                        return false;
                    }
                    i = i + 1;
                }
                assert(filters@.take(filters@.len() as int) =~= filters@);
                true
            },
            NotificationFilter::Or(filters) => {
                let mut i: usize = 0;
                while i < filters.len()
                    invariant
                        i <= filters@.len(),
                        !any_filter_matches(filters@.take(i as int), *notification),
                    decreases filters@.len() - i,
                {
                    proof {
                        assert(filters@.take(i + 1).drop_last() =~= filters@.take(i as int));
                    }
                    proof { vstd::std_specs::vec::axiom_vec_index_decreases(*filters, i as int); }
                    if filters[i].matches(notification) {
                        proof {
                            lemma_any_match_prefix(filters@, (i + 1) as int, *notification);
                        }
                        return true;
                    }
                    i = i + 1;
                }
                assert(filters@.take(filters@.len() as int) =~= filters@);
                false
            },
        }
    }
}

/// Copies of the filters of `fs`, in order.
fn duplicate_all(fs: &Vec<NotificationFilter>) -> (r: Vec<NotificationFilter>)
    ensures
        forall|n: ChangeNotification| all_filters_match(r@, n) == all_filters_match(fs@, n),
        forall|n: ChangeNotification| any_filter_matches(r@, n) == any_filter_matches(fs@, n),
    decreases fs,
{
    let mut out: Vec<NotificationFilter> = Vec::new();
    let mut i: usize = 0;
    while i < fs.len()
        invariant
            i <= fs@.len(),
            out@.len() == i,
            forall|j: int, n: ChangeNotification| 0 <= j < i ==>
                #[trigger] filter_matches(out@[j], n) == filter_matches(fs@[j], n),
        decreases fs@.len() - i,
    {
        proof { vstd::std_specs::vec::axiom_vec_index_decreases(*fs, i as int); }
        out.push(fs[i].duplicate());
        i = i + 1;
    }
    proof {
        assert forall|n: ChangeNotification| all_filters_match(out@, n) == all_filters_match(fs@, n)
            && any_filter_matches(out@, n) == any_filter_matches(fs@, n) by {
            lemma_equivalent_filters(out@, fs@, n);
        }
    }
    out
}

/// Filters that select the same notifications, one by one, select the same
/// notifications together.
proof fn lemma_equivalent_filters(a: Seq<NotificationFilter>, b: Seq<NotificationFilter>, n: ChangeNotification)
    requires
        a.len() == b.len(),
        forall|j: int, m: ChangeNotification| 0 <= j < a.len() ==>
            #[trigger] filter_matches(a[j], m) == filter_matches(b[j], m),
    ensures
        all_filters_match(a, n) == all_filters_match(b, n),
        any_filter_matches(a, n) == any_filter_matches(b, n),
    decreases a.len(),
{
    if a.len() > 0 {
        assert(filter_matches(a[a.len() - 1], n) == filter_matches(b[b.len() - 1], n));
        lemma_equivalent_filters(a.drop_last(), b.drop_last(), n);
    }
}

/// If every filter of `fs` selects `n`, so does every filter of a prefix.
proof fn lemma_all_match_prefix(fs: Seq<NotificationFilter>, k: int, n: ChangeNotification)
    requires
        0 <= k <= fs.len(),
        all_filters_match(fs, n),
    ensures
        all_filters_match(fs.take(k), n),
    decreases fs.len(),
{
    if k < fs.len() {
        assert(fs.drop_last().take(k) =~= fs.take(k));
        lemma_all_match_prefix(fs.drop_last(), k, n);
    } else {
        assert(fs.take(k) =~= fs);
    }
}


/// If a filter of a prefix of `fs` selects `n`, some filter of `fs` does.
proof fn lemma_any_match_prefix(fs: Seq<NotificationFilter>, k: int, n: ChangeNotification)
    requires
        0 <= k <= fs.len(),
        any_filter_matches(fs.take(k), n),
    ensures
        any_filter_matches(fs, n),
    decreases fs.len(),
{
    if k < fs.len() {
        assert(fs.drop_last().take(k) =~= fs.take(k));
        lemma_any_match_prefix(fs.drop_last(), k, n);
    } else {
        assert(fs.take(k) =~= fs);
    }
}

/// Counters of a notification bus.
#[derive(Debug, Clone, Default)]
pub struct NotificationStats {
    pub total_notifications_sent: u64,
    pub total_subscribers: usize,
    pub dropped_notifications: u64,
}

} // verus!
