//! The tunnel registry: the process-wide table from tunnel id to the
//! running supervisor's cancellation signal. Connecting replaces any
//! supervisor already registered under the id — its signal is fired and the
//! entry removed — so at most one supervisor is ever active per id.

use vstd::prelude::*;

use std::sync::Arc;

use crate::launcher::TunnelConfig;
use crate::text::str_eq;

verus! {

#[verifier::external_type_specification]
#[verifier::external_body]
pub struct ExNotify(tokio::sync::Notify);

/// Relies on `tokio::sync::Notify::new`: a fresh signal with no permit
/// stored.
pub assume_specification[ tokio::sync::Notify::new ]() -> tokio::sync::Notify;

/// Relies on `tokio::sync::Notify::notify_one`: wakes one waiter, or stores
/// a single permit that the next wait consumes immediately; repeated calls
/// store no further permit.
pub assume_specification[ tokio::sync::Notify::notify_one ](n: &tokio::sync::Notify);

/// Relies on `Arc::clone`: the returned handle is the same shared value.
#[verifier::external_body]
fn clone_arc(n: &Arc<tokio::sync::Notify>) -> (r: Arc<tokio::sync::Notify>)
    ensures
        r == *n,
{
    n.clone()
}

/// One registered tunnel: its id and the signal that cancels its
/// supervisor.
struct TunnelEntry {
    id: String,
    cancel: Arc<tokio::sync::Notify>,
}

/// Number of occurrences of `id` in `s`.
pub open spec fn occurrences(s: Seq<Seq<char>>, id: Seq<char>) -> nat
    decreases s.len(),
{
    if s.len() == 0 {
        0
    } else {
        (if s[0] == id {
            1nat
        } else {
            0nat
        }) + occurrences(s.subrange(1, s.len() as int), id)
    }
}

proof fn lemma_no_occurrence(s: Seq<Seq<char>>, id: Seq<char>)
    requires
        !s.contains(id),
    ensures
        occurrences(s, id) == 0,
    decreases s.len(),
{
    if s.len() > 0 {
        assert(s[0] != id);
        let rest = s.subrange(1, s.len() as int);
        assert(!rest.contains(id)) by {
            if rest.contains(id) {
                let k = choose|k: int| 0 <= k < rest.len() && rest[k] == id;
                assert(s[k + 1] == id);
            }
        }
        lemma_no_occurrence(rest, id);
    }
}

proof fn lemma_unique_occurrence(s: Seq<Seq<char>>, id: Seq<char>)
    requires
        forall|i: int, j: int| 0 <= i < j < s.len() ==> s[i] != s[j],
        s.contains(id),
    ensures
        occurrences(s, id) == 1,
    decreases s.len(),
{
    let rest = s.subrange(1, s.len() as int);
    if s[0] == id {
        assert(!rest.contains(id)) by {
            if rest.contains(id) {
                let k = choose|k: int| 0 <= k < rest.len() && rest[k] == id;
                assert(s[0] == s[k + 1]);
            }
        }
        lemma_no_occurrence(rest, id);
    } else {
        let k = choose|k: int| 0 <= k < s.len() && s[k] == id;
        assert(rest[k - 1] == id);
        assert(rest.contains(id));
        assert(forall|i: int, j: int| 0 <= i < j < rest.len() ==> rest[i] != rest[j]);
        lemma_unique_occurrence(rest, id);
    }
}

/// The registry of running tunnels.
pub struct CloudflareManager {
    tunnels: Vec<TunnelEntry>,
}

impl CloudflareManager {
    /// The ids registered, in insertion order.
    pub closed spec fn ids(&self) -> Seq<Seq<char>> {
        self.tunnels@.map_values(|e: TunnelEntry| e.id@)
    }

    /// A supervisor is registered under `id`.
    pub open spec fn active(&self, id: Seq<char>) -> bool {
        self.ids().contains(id)
    }

    /// No id is registered twice.
    pub open spec fn wf(&self) -> bool {
        forall|i: int, j: int| 0 <= i < j < self.ids().len() ==> self.ids()[i] != self.ids()[j]
    }

    /// `s` is the cancellation signal registered under `id` — the one that
    /// `disconnect` of that id fires.
    pub closed spec fn has_signal(&self, id: Seq<char>, s: Arc<tokio::sync::Notify>) -> bool {
        exists|k: int|
            0 <= k < self.tunnels@.len() && self.tunnels@[k].id@ == id && self.tunnels@[k].cancel
                == s
    }

    /// An empty registry.
    pub fn new() -> (r: Self)
        ensures
            r.wf(),
            r.ids() == Seq::<Seq<char>>::empty(),
    {
        let r = CloudflareManager { tunnels: Vec::new() };
        proof {
            assert(r.ids() =~= Seq::<Seq<char>>::empty());
        }
        r
    }

    fn find_idx(&self, id: &str) -> (r: Option<usize>)
        ensures
            match r {
                Some(i) => i < self.ids().len() && self.ids()[i as int] == id@,
                None => !self.active(id@),
            },
    {
        let n = self.tunnels.len();
        let mut i: usize = 0;
        while i < n
            invariant
                n == self.tunnels@.len(),
                i <= n,
                forall|k: int| 0 <= k < i ==> self.ids()[k] != id@,
            decreases n - i,
        {
            if str_eq(self.tunnels[i].id.as_str(), id) {
                proof {
                    assert(self.ids()[i as int] == self.tunnels@[i as int].id@);
                }
                return Some(i);
            }
            i += 1;
        }
        None
    }

    /// Registers a new supervisor for `config.id` and returns the signal
    /// that cancels it: the very signal stored in the table, so that firing
    /// what `disconnect` holds wakes what the driver waits on. Any
    /// supervisor already registered under the id has its signal fired and
    /// its entry removed first, so the id stays registered exactly once;
    /// every other id is untouched.
    pub fn connect(&mut self, config: &TunnelConfig) -> (cancel: Arc<tokio::sync::Notify>)
        requires
            old(self).wf(),
        ensures
            final(self).wf(),
            final(self).active(config.id@),
            final(self).has_signal(config.id@, cancel),
            occurrences(final(self).ids(), config.id@) == 1,
            forall|x: Seq<char>| x != config.id@
                ==> (final(self).active(x) <==> old(self).active(x)),
    {
        self.disconnect(config.id.as_str());
        let signal = Arc::new(tokio::sync::Notify::new());
        let handle = clone_arc(&signal);
        let ghost mid = *self;
        let entry = TunnelEntry { id: config.id.clone(), cancel: signal };
        self.tunnels.push(entry);
        proof {
            assert(self.ids() =~= mid.ids().push(config.id@));
            assert(self.active(config.id@)) by {
                assert(self.ids()[self.ids().len() - 1] == config.id@);
            }
            assert forall|x: Seq<char>| x != config.id@ implies (self.active(x) <==> mid.active(
                x,
            )) by {
                if mid.active(x) {
                    let k = choose|k: int| 0 <= k < mid.ids().len() && mid.ids()[k] == x;
                    assert(self.ids()[k] == x);
                }
                if self.active(x) {
                    let k = choose|k: int| 0 <= k < self.ids().len() && self.ids()[k] == x;
                    assert(k < mid.ids().len() && mid.ids()[k] == x);
                }
            }
            assert(self.wf()) by {
                assert forall|i: int, j: int|
                    0 <= i < j < self.ids().len() implies self.ids()[i] != self.ids()[j] by {
                    if j < self.ids().len() - 1 {
                        assert(mid.ids()[i] == self.ids()[i] && mid.ids()[j] == self.ids()[j]);
                    } else {
                        assert(self.ids()[j] == config.id@);
                        if self.ids()[i] == config.id@ {
                            assert(mid.ids()[i] == config.id@);
                            assert(mid.active(config.id@));
                        }
                    }
                }
            }
            lemma_unique_occurrence(self.ids(), config.id@);
            assert(self.has_signal(config.id@, handle)) by {
                let k = self.tunnels@.len() - 1;
                assert(self.tunnels@[k].id@ == config.id@ && self.tunnels@[k].cancel == handle);
            }
        }
        handle
    }

    /// Fires the cancellation signal of the supervisor registered under
    /// `id`, if any, and removes the entry. Absent ids are left exactly as
    /// they are: nothing fires, nothing changes.
    pub fn disconnect(&mut self, id: &str)
        requires
            old(self).wf(),
        ensures
            final(self).wf(),
            !final(self).active(id@),
            forall|x: Seq<char>| x != id@ ==> (final(self).active(x) <==> old(self).active(x)),
            !old(self).active(id@) ==> *final(self) == *old(self),
    {
        match self.find_idx(id) {
            None => {},
            Some(i) => {
                self.tunnels[i].cancel.notify_one();
                let ghost pre = *self;
                self.tunnels.remove(i);
                proof {
                    assert(self.ids() =~= pre.ids().remove(i as int));
                    assert(!self.active(id@)) by {
                        if self.active(id@) {
                            let k = choose|k: int| 0 <= k < self.ids().len() && self.ids()[k]
                                == id@;
                            if k < i {
                                assert(pre.ids()[k] == id@);
                            } else {
                                assert(pre.ids()[k + 1] == id@);
                            }
                        }
                    }
                    assert forall|x: Seq<char>| x != id@ implies (self.active(x) <==> pre.active(
                        x,
                    )) by {
                        if self.active(x) {
                            let k = choose|k: int| 0 <= k < self.ids().len() && self.ids()[k] == x;
                            if k < i {
                                assert(pre.ids()[k] == x);
                            } else {
                                assert(pre.ids()[k + 1] == x);
                            }
                        }
                        if pre.active(x) {
                            let k = choose|k: int| 0 <= k < pre.ids().len() && pre.ids()[k] == x;
                            if k < i {
                                assert(self.ids()[k] == x);
                            } else {
                                assert(k != i);
                                assert(self.ids()[k - 1] == x);
                            }
                        }
                    }
                    assert(self.wf()) by {
                        assert forall|a: int, b: int|
                            0 <= a < b < self.ids().len() implies self.ids()[a] != self.ids()[b] by {
                            let pa = if a < i {
                                a
                            } else {
                                a + 1
                            };
                            let pb = if b < i {
                                b
                            } else {
                                b + 1
                            };
                            assert(self.ids()[a] == pre.ids()[pa]);
                            assert(self.ids()[b] == pre.ids()[pb]);
                        }
                    }
                }
            },
        }
    }

    /// Fires every registered cancellation signal and empties the table;
    /// used once at host shutdown.
    pub fn disconnect_all(&mut self)
        ensures
            final(self).wf(),
            final(self).ids() == Seq::<Seq<char>>::empty(),
    {
        let n = self.tunnels.len();
        let mut i: usize = 0;
        while i < n
            invariant
                n == self.tunnels@.len(),
                i <= n,
            decreases n - i,
        {
            self.tunnels[i].cancel.notify_one();
            i += 1;
        }
        self.tunnels.clear();
        proof {
            assert(self.ids() =~= Seq::<Seq<char>>::empty());
        }
    }

    /// Whether a supervisor is registered under `id`, in the wire form the
    /// host expects.
    pub fn get_status(&self, id: &str) -> (r: String)
        ensures
            r@ == if self.active(id@) {
                "active"@
            } else {
                "inactive"@
            },
    {
        match self.find_idx(id) {
            Some(_) => String::from_str("active"),
            None => String::from_str("inactive"),
        }
    }
}

/// Law: one supervisor per id — in a well-formed registry an active id is
/// registered exactly once.
pub proof fn lemma_active_unique(m: &CloudflareManager, id: Seq<char>)
    requires
        m.wf(),
        m.active(id),
    ensures
        occurrences(m.ids(), id) == 1,
{
    lemma_unique_occurrence(m.ids(), id);
}

} // verus!
