//! The two-way registry of voice channels and their companion threads.

use vstd::prelude::*;
use std::collections::HashMap;

verus! {

broadcast use vstd::std_specs::hash::group_hash_axioms;

/// `back` maps every value of `forth` to its key, and nothing else.
pub open spec fn mirrored(forth: Map<u64, u64>, back: Map<u64, u64>) -> bool {
    &&& forall|v: u64| #[trigger]
        forth.contains_key(v) ==> back.contains_key(forth[v]) && back[forth[v]] == v
    &&& forall|t: u64| #[trigger]
        back.contains_key(t) ==> forth.contains_key(back[t]) && forth[back[t]] == t
}

/// `m` without the key `k`, where there is one.
pub open spec fn without(m: Map<u64, u64>, k: Option<u64>) -> Map<u64, u64> {
    match k {
        Some(k) => m.remove(k),
        None => m,
    }
}

/// What `m` holds under `k`, if anything.
pub open spec fn lookup(m: Map<u64, u64>, k: u64) -> Option<u64> {
    if m.contains_key(k) {
        Some(m[k])
    } else {
        None
    }
}

/// The links after `voice` and `thread` have been paired: whatever either
/// of them was paired with before is let go.
pub open spec fn paired(forth: Map<u64, u64>, back: Map<u64, u64>, voice: u64, thread: u64) -> Map<
    u64,
    u64,
> {
    without(forth, lookup(back, thread)).insert(voice, thread)
}

/// The pairs of voice channel and thread that are currently linked, kept in
/// both directions.
pub struct LinkRegistry {
    vc_to_thread: HashMap<u64, u64>,
    thread_to_vc: HashMap<u64, u64>,
}

impl View for LinkRegistry {
    type V = Map<u64, u64>;

    /// The links, from voice channel to thread.
    closed spec fn view(&self) -> Map<u64, u64> {
        self.vc_to_thread@
    }
}

impl LinkRegistry {
    /// The links, from thread to voice channel.
    pub closed spec fn threads(&self) -> Map<u64, u64> {
        self.thread_to_vc@
    }

    /// The two directions agree: the registry is a one-to-one pairing.
    pub open spec fn wf(&self) -> bool {
        mirrored(self@, self.threads())
    }

    /// A registry without links.
    pub fn new() -> (registry: LinkRegistry)
        ensures
            registry.wf(),
            registry@ == Map::<u64, u64>::empty(),
            registry.threads() == Map::<u64, u64>::empty(),
    {
        LinkRegistry { vc_to_thread: HashMap::new(), thread_to_vc: HashMap::new() }
    }

    /// The thread linked to `voice`, if any.
    pub fn lookup_thread(&self, voice: u64) -> (thread: Option<u64>)
        ensures
            thread == lookup(self@, voice),
    {
        match self.vc_to_thread.get(&voice) {
            Some(t) => Some(*t),
            None => None,
        }
    }

    /// The voice channel linked to `thread`, if any.
    pub fn lookup_voice(&self, thread: u64) -> (voice: Option<u64>)
        ensures
            voice == lookup(self.threads(), thread),
    {
        match self.thread_to_vc.get(&thread) {
            Some(v) => Some(*v),
            None => None,
        }
    }

    /// Links `voice` and `thread` in both directions. A link that either of
    /// them had before is dropped, so the pairing stays one-to-one.
    pub fn insert(&mut self, voice: u64, thread: u64)
        ensures
            old(self).wf() ==> final(self).wf(),
            final(self)@ == paired(old(self)@, old(self).threads(), voice, thread),
            final(self).threads() == paired(old(self).threads(), old(self)@, thread, voice),
    {
        let prior_thread = self.lookup_thread(voice);
        let prior_voice = self.lookup_voice(thread);
        if let Some(t) = prior_thread {
            self.thread_to_vc.remove(&t);
        }
        if let Some(v) = prior_voice {
            self.vc_to_thread.remove(&v);
        }
        self.vc_to_thread.insert(voice, thread);
        self.thread_to_vc.insert(thread, voice);
        assert(self@ =~= paired(old(self)@, old(self).threads(), voice, thread));
        assert(self.threads() =~= paired(old(self).threads(), old(self)@, thread, voice));
    }

    /// Drops the link of `voice`, in both directions. Without such a link
    /// nothing changes.
    pub fn remove(&mut self, voice: u64)
        ensures
            old(self).wf() ==> final(self).wf(),
            final(self)@ == old(self)@.remove(voice),
            final(self).threads() == without(old(self).threads(), lookup(old(self)@, voice)),
    {
        let gone = self.vc_to_thread.remove(&voice);
        if let Some(t) = gone {
            self.thread_to_vc.remove(&t);
        }
    }
}

/// Right after `voice` and `thread` are paired, each is found under the
/// other, whatever the registry held before.
pub proof fn law_inserted_pair_is_found(forth: Map<u64, u64>, back: Map<u64, u64>, voice: u64, thread: u64)
    requires
        mirrored(forth, back),
    ensures
        lookup(paired(forth, back, voice, thread), voice) == Some(thread),
        lookup(paired(back, forth, thread, voice), thread) == Some(voice),
        mirrored(paired(forth, back, voice, thread), paired(back, forth, thread, voice)),
{
}

/// Once the link of `voice` is removed, neither `voice` nor the thread it
/// was paired with is found any more.
pub proof fn law_removed_pair_is_absent(forth: Map<u64, u64>, back: Map<u64, u64>, voice: u64)
    requires
        mirrored(forth, back),
    ensures
        lookup(forth.remove(voice), voice).is_none(),
        forth.contains_key(voice) ==> lookup(without(back, lookup(forth, voice)), forth[voice]).is_none(),
        mirrored(forth.remove(voice), without(back, lookup(forth, voice))),
{
}

} // verus!
