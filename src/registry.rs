use std::collections::HashMap;
use vstd::prelude::*;

use crate::session::{PlaybackSession, QueueError, SessionModel, Snapshot};
use crate::track::{view_opt, Track};

verus! {

broadcast use vstd::std_specs::hash::group_hash_axioms;

/// What a successful `play` reports: the title, the queue index the track
/// took, and the track to start on the voice sink if playback began.
pub struct Enqueued {
    pub title: String,
    pub index: usize,
    pub started: Option<Track>,
}

/// The sessions of every voice session identifier. A session is created
/// on first use and may be discarded once it is idle. Every command takes
/// the registry by `&mut`, so commands on it are serialised.
pub struct SessionRegistry {
    sessions: HashMap<u64, PlaybackSession>,
}

impl View for SessionRegistry {
    type V = Map<u64, SessionModel>;

    closed spec fn view(&self) -> Map<u64, SessionModel> {
        self.sessions@.map_values(|s: PlaybackSession| s@)
    }
}

impl SessionRegistry {
    /// Every session upholds its invariant.
    pub open spec fn wf(&self) -> bool {
        forall|id: u64| self@.contains_key(id) ==> (#[trigger] self@[id]).wf()
    }

    /// The session of `id`, or a fresh one when there is none yet.
    pub open spec fn session(&self, id: u64) -> SessionModel {
        if self@.contains_key(id) {
            self@[id]
        } else {
            SessionModel::empty()
        }
    }

    spec fn sessions_wf(&self) -> bool {
        forall|id: u64| self.sessions@.contains_key(id) ==> (#[trigger] self.sessions@[id]).wf()
    }

    proof fn lemma_wf(&self)
        ensures
            self.wf() <==> self.sessions_wf(),
    {
        assert forall|id: u64| #[trigger] self@.contains_key(id) <==> self.sessions@.contains_key(id) by {}
        assert forall|id: u64| self.sessions@.contains_key(id) implies
            #[trigger] self@[id] == self.sessions@[id]@ by {}
        if self.wf() {
            assert forall|id: u64| self.sessions@.contains_key(id) implies
                (#[trigger] self.sessions@[id]).wf() by {
                assert(self@.contains_key(id));
                assert(self@[id].wf());
            }
        }
        if self.sessions_wf() {
            assert forall|id: u64| self@.contains_key(id) implies (#[trigger] self@[id]).wf() by {
                assert(self.sessions@.contains_key(id));
                assert(self.sessions@[id].wf());
            }
        }
    }

    /// An empty registry.
    pub fn new() -> (r: SessionRegistry)
        ensures
            r@ == Map::<u64, SessionModel>::empty(),
            r.wf(),
    {
        let r = SessionRegistry { sessions: HashMap::new() };
        assert(r@ =~= Map::<u64, SessionModel>::empty());
        r
    }

    /// Takes the session of `id` out of the map, or makes a fresh one.
    fn take(&mut self, id: u64) -> (s: PlaybackSession)
        requires
            old(self).wf(),
        ensures
            s.wf(),
            s@ == old(self).session(id),
            final(self)@ == old(self)@.remove(id),
            final(self).wf(),
    {
        proof { self.lemma_wf(); }
        let found = self.sessions.remove(&id);
        proof {
            assert(self@ =~= old(self)@.remove(id));
            self.lemma_wf();
        }
        match found {
            Some(s) => s,
            None => PlaybackSession::new(),
        }
    }

    /// Puts a session back under `id`.
    fn put(&mut self, id: u64, s: PlaybackSession)
        requires
            old(self).wf(),
            s.wf(),
        ensures
            final(self)@ == old(self)@.insert(id, s@),
            final(self).wf(),
    {
        proof { self.lemma_wf(); }
        let ghost v = s@;
        self.sessions.insert(id, s);
        proof {
            assert(self@ =~= old(self)@.insert(id, v));
            self.lemma_wf();
        }
    }

    /// Makes sure a session exists for `id`.
    pub fn get_or_create(&mut self, id: u64)
        requires
            old(self).wf(),
        ensures
            final(self).wf(),
            final(self)@ == old(self)@.insert(id, old(self).session(id)),
    {
        let s = self.take(id);
        self.put(id, s);
    }

    /// Queues a resolved track on the session of `id`, once the voice sink
    /// is attached. A failed resolution or attachment changes nothing.
    pub fn play(&mut self, id: u64, resolved: Result<Track, String>, sink_attached: bool) -> (r:
        Result<Enqueued, QueueError>)
        requires
            old(self).wf(),
        ensures
            final(self).wf(),
            match resolved {
                Err(msg) => r == Err::<Enqueued, QueueError>(QueueError::ResolutionFailed(msg))
                    && final(self)@ == old(self)@,
                Ok(t) => if !sink_attached {
                    r == Err::<Enqueued, QueueError>(QueueError::SinkAttachFailed)
                        && final(self)@ == old(self)@
                } else {
                    &&& r is Ok
                    &&& final(self)@ == old(self)@.insert(id, old(self).session(id).enqueued(t@))
                    &&& r->Ok_0.title@ == t@.title
                    &&& r->Ok_0.index == old(self).session(id).queue.len()
                    &&& view_opt(r->Ok_0.started) == if old(self).session(id).current is None {
                        Some(t@)
                    } else {
                        None
                    }
                },
            },
    {
        let track = match resolved {
            Err(msg) => { return Err(QueueError::ResolutionFailed(msg)); },
            Ok(t) => t,
        };
        if !sink_attached {
            return Err(QueueError::SinkAttachFailed);
        }
        let title = track.title.clone();
        let copy = track.duplicate();
        let mut s = self.take(id);
        let starts = s.current().is_none();
        let index = s.enqueue(track);
        self.put(id, s);
        let started = if starts { Some(copy) } else { None };
        Ok(Enqueued { title, index, started })
    }

    /// The stream of the current track of `id` ended: moves on to the next
    /// queued track, which is returned, or goes idle.
    pub fn advance(&mut self, id: u64) -> (r: Option<Track>)
        requires
            old(self).wf(),
        ensures
            final(self).wf(),
            final(self)@ == old(self)@.insert(id, old(self).session(id).advanced()),
            view_opt(r) == old(self).session(id).advanced().current,
    {
        let mut s = self.take(id);
        let r = s.advance();
        self.put(id, s);
        r
    }

    /// Skips the current track of `id`; returns the track that now plays.
    pub fn skip(&mut self, id: u64) -> (r: Result<Option<Track>, QueueError>)
        requires
            old(self).wf(),
        ensures
            final(self).wf(),
            final(self)@ == old(self)@.insert(id, old(self).session(id).skipped()),
            match r {
                Ok(next) => old(self).session(id).current is Some
                    && view_opt(next) == old(self).session(id).skipped().current,
                Err(e) => old(self).session(id).current is None && e == QueueError::NothingPlaying,
            },
    {
        let mut s = self.take(id);
        let r = s.skip();
        self.put(id, s);
        r
    }

    /// Pauses the session of `id`.
    pub fn pause(&mut self, id: u64) -> (r: Result<(), QueueError>)
        requires
            old(self).wf(),
        ensures
            final(self).wf(),
            final(self)@ == old(self)@.insert(id, old(self).session(id).paused()),
            match r {
                Ok(_) => old(self).session(id).state == crate::session::PlaybackState::Playing,
                Err(e) => old(self).session(id).state != crate::session::PlaybackState::Playing
                    && e == QueueError::NothingPlaying,
            },
    {
        let mut s = self.take(id);
        let r = s.pause();
        self.put(id, s);
        r
    }

    /// Resumes the session of `id`.
    pub fn resume(&mut self, id: u64) -> (r: Result<(), QueueError>)
        requires
            old(self).wf(),
        ensures
            final(self).wf(),
            final(self)@ == old(self)@.insert(id, old(self).session(id).resumed()),
            match r {
                Ok(_) => old(self).session(id).state == crate::session::PlaybackState::Paused,
                Err(e) => old(self).session(id).state != crate::session::PlaybackState::Paused
                    && e == QueueError::NothingPlaying,
            },
    {
        let mut s = self.take(id);
        let r = s.resume();
        self.put(id, s);
        r
    }

    /// Empties the session of `id`.
    pub fn clear(&mut self, id: u64)
        requires
            old(self).wf(),
        ensures
            final(self).wf(),
            final(self)@ == old(self)@.insert(id, SessionModel::empty()),
    {
        let mut s = self.take(id);
        s.clear();
        self.put(id, s);
    }

    /// Removes the queued track at `index` from the session of `id`.
    pub fn remove(&mut self, id: u64, index: i64) -> (r: Result<Track, QueueError>)
        requires
            old(self).wf(),
        ensures
            final(self).wf(),
            final(self)@ == old(self)@.insert(id, old(self).session(id).after_remove(index as int)),
            match r {
                Ok(t) => old(self).session(id).valid_index(index as int)
                    && t@ == old(self).session(id).queue[index as int],
                Err(e) => !old(self).session(id).valid_index(index as int)
                    && e == QueueError::InvalidIndex,
            },
    {
        let mut s = self.take(id);
        let r = s.remove(index);
        self.put(id, s);
        r
    }

    /// Lists the session of `id`; never fails and never creates a session.
    pub fn list_queue(&self, id: u64) -> (r: Snapshot)
        requires
            self.wf(),
        ensures
            r@ == self.session(id).snapshot(),
    {
        match self.sessions.get(&id) {
            Some(s) => s.snapshot(),
            None => PlaybackSession::new().snapshot(),
        }
    }

    /// Discards the session of `id` if it exists and is idle; returns
    /// whether it did.
    pub fn remove_if_idle(&mut self, id: u64) -> (r: bool)
        requires
            old(self).wf(),
        ensures
            final(self).wf(),
            r == (old(self)@.contains_key(id) && old(self)@[id].is_idle()),
            final(self)@ == if r { old(self)@.remove(id) } else { old(self)@ },
    {
        let idle = match self.sessions.get(&id) {
            Some(s) => s.is_idle(),
            None => false,
        };
        if idle {
            let s = self.take(id);
            assert(self@ =~= old(self)@.remove(id));
        }
        idle
    }

    /// Whether a session exists for `id`.
    pub fn contains(&self, id: u64) -> (r: bool)
        ensures
            r == self@.contains_key(id),
    {
        self.sessions.contains_key(&id)
    }
}

} // verus!
