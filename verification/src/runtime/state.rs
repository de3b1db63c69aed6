//! The runtime's registry of I/O sources: every listener, stream or timer that
//! waits for readiness has an `IoState` stored under a token, and the reactor
//! finds it again by that token.
use std::sync::Arc;
use futures::task::AtomicWaker;
use slab::Slab;
use vstd::prelude::*;

verus! {

#[verifier::external_type_specification]
#[verifier::external_body]
pub struct ExAtomicWaker(futures::task::AtomicWaker);

#[verifier::external_type_specification]
#[verifier::external_body]
#[verifier::reject_recursive_types(T)]
pub struct ExSlab<T>(slab::Slab<T>);

/// The wakers of one I/O source: the task waiting for it to become readable,
/// and the one waiting for it to become writable.
pub struct IoState {
    pub read_waker: AtomicWaker,
    pub write_waker: AtomicWaker,
}

/// What a slab of I/O states holds: each occupied key with its value.
pub uninterp spec fn slab_entries(s: Slab<Arc<IoState>>) -> Map<usize, Arc<IoState>>;

/// How many slots a slab of I/O states has: the occupied ones and the vacated
/// ones. Every occupied key is below it.
pub uninterp spec fn slab_slots(s: Slab<Arc<IoState>>) -> nat;

/// The most slots that the registry lets its slab grow to. A slab stores its
/// slots in a `Vec` of entries of at most 16 bytes here, and that `Vec` panics
/// when it would need more than `isize::MAX` bytes; this bound keeps every
/// growth of it well below that.
pub open spec fn slot_limit() -> int {
    isize::MAX as int / 64
}

/// Calls `AtomicWaker::new`, which makes a waker slot with no waker in it.
/// Nothing of the value can be observed here, so nothing is stated of it.
#[verifier::external_body]
fn atomic_waker_new() -> AtomicWaker {
    AtomicWaker::new()
}

/// Calls `Slab::new`, which makes a slab with no entries and no slots.
#[verifier::external_body]
fn slab_new() -> (s: Slab<Arc<IoState>>)
    ensures
        slab_entries(s).dom() == Set::<usize>::empty(),
        slab_slots(s) == 0,
{
    Slab::new()
}

/// Calls `Slab::insert`. The slab's source stores the value at its next vacant
/// key, which is a vacated slot or, when there is none vacated, one new slot at
/// the end; it returns that key. So the key was free, is at most the old slot
/// count, and the slot count grows by one exactly when the key is that count.
/// The slab panics when its `Vec` of slots cannot grow; the bound on the slot
/// count keeps that case out, so under it the call returns normally.
#[verifier::external_body]
fn slab_insert(s: &mut Slab<Arc<IoState>>, val: Arc<IoState>) -> (key: usize)
    requires
        slab_slots(*old(s)) < slot_limit(),
    ensures
        !slab_entries(*old(s)).dom().contains(key),
        key <= slab_slots(*old(s)),
        slab_entries(*final(s)) == slab_entries(*old(s)).insert(key, val),
        slab_slots(*final(s)) == if key == slab_slots(*old(s)) {
            slab_slots(*old(s)) + 1
        } else {
            slab_slots(*old(s))
        },
    no_unwind
{
    s.insert(val)
}

/// Calls `Slab::get`: the value stored under `key`, or `None` where the key is
/// not occupied.
#[verifier::external_body]
fn slab_get(s: &Slab<Arc<IoState>>, key: usize) -> (r: Option<&Arc<IoState>>)
    ensures
        r is Some <==> slab_entries(*s).dom().contains(key),
        r is Some ==> *r->0 == slab_entries(*s)[key],
{
    s.get(key)
}

/// Calls `Slab::len`: the number of values stored, that is of occupied keys.
#[verifier::external_body]
fn slab_len(s: &Slab<Arc<IoState>>) -> (n: usize)
    ensures
        n == slab_entries(*s).dom().len(),
{
    s.len()
}

/// Calls `Arc::clone`, which makes a second pointer to the same value.
#[verifier::external_body]
pub(crate) fn share(io_state: &Arc<IoState>) -> (r: Arc<IoState>)
    ensures
        *r == **io_state,
{
    io_state.clone()
}

impl IoState {
    /// A fresh I/O state with no task waiting on it.
    pub fn new() -> IoState {
        IoState { read_waker: atomic_waker_new(), write_waker: atomic_waker_new() }
    }
}

/// The tokens under which I/O sources are registered with the reactor.
///
/// Nothing is ever removed, so the tokens in use are exactly `0..len`: each
/// registration takes the next number.
pub struct IoRegistry {
    slabs: Slab<Arc<IoState>>,
}

impl IoRegistry {
    #[verifier::type_invariant]
    spec fn dense(self) -> bool {
        &&& slab_slots(self.slabs) <= slot_limit()
        &&& forall|k: usize| #[trigger]
            slab_entries(self.slabs).dom().contains(k) <==> k < slab_slots(self.slabs)
    }

    /// The registered I/O states by token.
    pub closed spec fn entries(self) -> Map<usize, Arc<IoState>> {
        slab_entries(self.slabs)
    }

    /// How many I/O sources were registered.
    pub closed spec fn count(self) -> nat {
        slab_slots(self.slabs)
    }
}

/// The tokens in use by a registry that has seen `count` registrations.
pub open spec fn tokens_below(count: nat) -> Set<usize> {
    Set::new(|k: usize| k < count)
}

/// The registered states after `io_state` was stored under `token`.
pub open spec fn registered(
    entries: Map<usize, Arc<IoState>>,
    token: usize,
    io_state: Arc<IoState>,
) -> Map<usize, Arc<IoState>> {
    entries.insert(token, io_state)
}

/// What a lookup of `token` finds.
pub open spec fn looked_up(entries: Map<usize, Arc<IoState>>, token: usize) -> Option<Arc<IoState>> {
    if entries.dom().contains(token) {
        Some(entries[token])
    } else {
        None
    }
}

/// Law: a lookup right after a registration finds the state just registered,
/// and a registration changes what a lookup of any other token finds in no way.
pub proof fn lemma_lookup_after_register(
    entries: Map<usize, Arc<IoState>>,
    token: usize,
    io_state: Arc<IoState>,
    other: usize,
)
    requires
        other != token,
    ensures
        looked_up(registered(entries, token, io_state), token) == Some(io_state),
        looked_up(registered(entries, token, io_state), other) == looked_up(entries, other),
{
}

/// Law: two registrations in a row, each under a token that was free before
/// it, get different tokens, and both states stay registered.
pub proof fn lemma_fresh_tokens_differ(
    entries: Map<usize, Arc<IoState>>,
    first: usize,
    first_state: Arc<IoState>,
    second: usize,
    second_state: Arc<IoState>,
)
    requires
        !entries.dom().contains(first),
        !registered(entries, first, first_state).dom().contains(second),
    ensures
        first != second,
        looked_up(registered(registered(entries, first, first_state), second, second_state), first)
            == Some(first_state),
        looked_up(registered(registered(entries, first, first_state), second, second_state), second)
            == Some(second_state),
{
}

proof fn lemma_tokens_below_len(n: nat)
    requires
        n <= usize::MAX,
    ensures
        tokens_below(n).finite(),
        tokens_below(n).len() == n,
    decreases n,
{
    if n == 0 {
        assert(tokens_below(0) =~= Set::<usize>::empty());
    } else {
        let m = (n - 1) as nat;
        lemma_tokens_below_len(m);
        assert(tokens_below(n) =~= tokens_below(m).insert(m as usize));
    }
}

impl IoRegistry {
    pub fn new() -> (r: IoRegistry)
        ensures
            r.entries().dom() == Set::<usize>::empty(),
            r.count() == 0,
            r.entries().dom() == tokens_below(r.count()),
    {
        let slabs = slab_new();
        IoRegistry { slabs }
    }

    /// Stores `io_state` under the next free token and returns that token: the
    /// number of registrations made before it.
    pub fn insert(&mut self, io_state: Arc<IoState>) -> (token: usize)
        requires
            old(self).count() < slot_limit(),
        ensures
            !old(self).entries().dom().contains(token),
            token == old(self).count(),
            final(self).count() == old(self).count() + 1,
            final(self).entries() == registered(old(self).entries(), token, io_state),
            final(self).entries().dom() == tokens_below(final(self).count()),
    {
        proof {
            use_type_invariant(&*self);
        }
        let token = slab_insert(&mut self.slabs, io_state);
        proof {
            assert(self.entries().dom() =~= tokens_below(self.count()));
        }
        token
    }

    /// Makes a fresh I/O state and registers it: what binding a listener,
    /// accepting a stream or arming a timer does before it asks the poller to
    /// watch the source under the returned token. Returns the token and a
    /// second handle to the state that was stored.
    pub fn register(&mut self) -> (r: (usize, Arc<IoState>))
        requires
            old(self).count() < slot_limit(),
        ensures
            !old(self).entries().dom().contains(r.0),
            r.0 == old(self).count(),
            final(self).count() == old(self).count() + 1,
            final(self).entries() == registered(old(self).entries(), r.0, r.1),
            final(self).entries().dom() == tokens_below(final(self).count()),
    {
        let io_state = Arc::new(IoState::new());
        let stored = share(&io_state);
        let token = self.insert(stored);
        (token, io_state)
    }

    /// The I/O state registered under `token`, as a second handle to it, or
    /// `None` when no source has that token.
    pub fn lookup(&self, token: usize) -> (r: Option<Arc<IoState>>)
        ensures
            r == looked_up(self.entries(), token),
    {
        match slab_get(&self.slabs, token) {
            Some(io_state) => Some(share(io_state)),
            None => None,
        }
    }

    /// Whether one more registration fits within the slot limit.
    pub fn has_room(&self) -> (b: bool)
        ensures
            b <==> self.count() < slot_limit(),
    {
        proof {
            use_type_invariant(self);
        }
        let limit: usize = (isize::MAX as usize) / 64;
        self.len() < limit
    }

    /// The number of registrations so far.
    pub fn len(&self) -> (n: usize)
        ensures
            n == self.count(),
            self.entries().dom() == tokens_below(self.count()),
    {
        proof {
            use_type_invariant(self);
            lemma_tokens_below_len(self.count());
            assert(self.entries().dom() =~= tokens_below(self.count()));
        }
        slab_len(&self.slabs)
    }
}

} // verus!
