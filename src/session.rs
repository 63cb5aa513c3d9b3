use vstd::prelude::*;

use crate::track::{view_opt, view_seq, Track, TrackModel};

verus! {

/// Where the voice sink of a session stands.
#[derive(Clone, Copy, PartialEq, Eq, Structural, Debug)]
pub enum PlaybackState {
    Idle,
    Playing,
    Paused,
}

/// Why a queue command could not be carried out. A command that fails
/// leaves its session as it found it.
#[derive(PartialEq, Eq, Debug)]
pub enum QueueError {
    /// A queue index outside the queue.
    InvalidIndex,
    /// Pause, resume or skip with nothing in the matching state.
    NothingPlaying,
    /// The track locator could not be resolved; holds the resolver's message.
    ResolutionFailed(String),
    /// The voice sink could not be attached to the requested channel.
    SinkAttachFailed,
    /// A playback command for a session that has no voice connection.
    SessionNotVoiceConnected,
}

/// The mathematical value of a [`PlaybackSession`].
pub struct SessionModel {
    /// Tracks waiting to be played; index 0 is up next.
    pub queue: Seq<TrackModel>,
    /// The track bound to the voice sink, outside the queue.
    pub current: Option<TrackModel>,
    pub state: PlaybackState,
}

/// The value of a [`Snapshot`]: titles only.
pub struct SnapshotModel {
    pub titles: Seq<Seq<char>>,
    pub current: Option<Seq<char>>,
    pub state: PlaybackState,
}

impl SessionModel {
    /// A session that has never played anything.
    pub open spec fn empty() -> SessionModel {
        SessionModel { queue: Seq::empty(), current: None, state: PlaybackState::Idle }
    }

    /// Nothing is bound to the sink exactly when the session is idle, and an
    /// idle session has nothing waiting.
    pub open spec fn wf(self) -> bool {
        &&& (self.current is None <==> self.state == PlaybackState::Idle)
        &&& (self.state == PlaybackState::Idle ==> self.queue.len() == 0)
    }

    /// The tracks the session holds: the current one, then the queue.
    pub open spec fn held(self) -> Seq<TrackModel> {
        match self.current {
            Some(t) => seq![t] + self.queue,
            None => self.queue,
        }
    }

    /// Appends a track; an idle session with nothing current then promotes
    /// the head of its queue and starts playing.
    pub open spec fn enqueued(self, t: TrackModel) -> SessionModel {
        let q = self.queue.push(t);
        if self.state == PlaybackState::Idle && self.current is None {
            SessionModel { queue: q.drop_first(), current: Some(q[0]), state: PlaybackState::Playing }
        } else {
            SessionModel { queue: q, ..self }
        }
    }

    /// Moves on after the current track: the head of the queue starts
    /// playing, or the session becomes idle when the queue is empty.
    pub open spec fn advanced(self) -> SessionModel {
        if self.queue.len() > 0 {
            SessionModel {
                queue: self.queue.drop_first(),
                current: Some(self.queue[0]),
                state: PlaybackState::Playing,
            }
        } else {
            SessionModel { queue: self.queue, current: None, state: PlaybackState::Idle }
        }
    }

    /// Skipping advances when something is current, and changes nothing otherwise.
    pub open spec fn skipped(self) -> SessionModel {
        if self.current is Some {
            self.advanced()
        } else {
            self
        }
    }

    /// Pausing changes a playing session only.
    pub open spec fn paused(self) -> SessionModel {
        if self.state == PlaybackState::Playing {
            SessionModel { state: PlaybackState::Paused, ..self }
        } else {
            self
        }
    }

    /// Resuming changes a paused session only.
    pub open spec fn resumed(self) -> SessionModel {
        if self.state == PlaybackState::Paused {
            SessionModel { state: PlaybackState::Playing, ..self }
        } else {
            self
        }
    }

    /// Whether `i` addresses a queued track.
    pub open spec fn valid_index(self, i: int) -> bool {
        0 <= i < self.queue.len()
    }

    /// Removing drops the track at a valid index and closes the gap; any
    /// other index changes nothing.
    pub open spec fn after_remove(self, i: int) -> SessionModel {
        if self.valid_index(i) {
            SessionModel { queue: self.queue.remove(i), ..self }
        } else {
            self
        }
    }

    /// Whether the session can be discarded: nothing queued, nothing current.
    pub open spec fn is_idle(self) -> bool {
        self.queue.len() == 0 && self.current is None
    }

    /// What a listing of the session shows.
    pub open spec fn snapshot(self) -> SnapshotModel {
        SnapshotModel {
            titles: self.queue.map_values(|t: TrackModel| t.title),
            current: match self.current {
                Some(t) => Some(t.title),
                None => None,
            },
            state: self.state,
        }
    }
}

/// A read-only listing of a session: queued titles in order, the current
/// title and the playback state.
pub struct Snapshot {
    pub titles: Vec<String>,
    pub current: Option<String>,
    pub state: PlaybackState,
}

impl View for Snapshot {
    type V = SnapshotModel;

    open spec fn view(&self) -> SnapshotModel {
        SnapshotModel {
            titles: self.titles@.map_values(|s: String| s@),
            current: match self.current {
                Some(s) => Some(s@),
                None => None,
            },
            state: self.state,
        }
    }
}

/// The playback queue of one voice session.
pub struct PlaybackSession {
    queue: Vec<Track>,
    current: Option<Track>,
    state: PlaybackState,
}

impl View for PlaybackSession {
    type V = SessionModel;

    closed spec fn view(&self) -> SessionModel {
        SessionModel { queue: view_seq(self.queue@), current: view_opt(self.current), state: self.state }
    }
}

impl PlaybackSession {
    /// Whether the session upholds its invariant.
    pub open spec fn wf(&self) -> bool {
        self@.wf()
    }

    /// A fresh, idle session.
    pub fn new() -> (r: PlaybackSession)
        ensures
            r@ == SessionModel::empty(),
            r.wf(),
    {
        let r = PlaybackSession { queue: Vec::new(), current: None, state: PlaybackState::Idle };
        assert(r@.queue =~= Seq::empty());
        r
    }

    /// Appends `track` to the queue and returns the index it took there. A
    /// session with nothing playing starts playing it at once.
    pub fn enqueue(&mut self, track: Track) -> (index: usize)
        requires
            old(self).wf(),
        ensures
            final(self).wf(),
            final(self)@ == old(self)@.enqueued(track@),
            index == old(self)@.queue.len(),
    {
        let ghost t = track@;
        let index = self.queue.len();
        self.queue.push(track);
        assert(view_seq(self.queue@) =~= old(self)@.queue.push(t));
        if self.state == PlaybackState::Idle && self.current.is_none() {
            let head = self.queue.remove(0);
            assert(view_seq(self.queue@) =~= old(self)@.queue.push(t).drop_first());
            self.current = Some(head);
            self.state = PlaybackState::Playing;
        }
        index
    }

    /// Moves on after the current track (its stream ended): promotes the
    /// head of the queue, or goes idle. Returns the new current track.
    pub fn advance(&mut self) -> (r: Option<Track>)
        requires
            old(self).wf(),
        ensures
            final(self).wf(),
            final(self)@ == old(self)@.advanced(),
            view_opt(r) == final(self)@.current,
    {
        if self.queue.len() > 0 {
            let head = self.queue.remove(0);
            assert(view_seq(self.queue@) =~= old(self)@.queue.drop_first());
            let next = head.duplicate();
            self.current = Some(head);
            self.state = PlaybackState::Playing;
            Some(next)
        } else {
            self.current = None;
            self.state = PlaybackState::Idle;
            None
        }
    }

    /// Stops the current track and advances at once. Fails when nothing is
    /// current. Returns the new current track.
    pub fn skip(&mut self) -> (r: Result<Option<Track>, QueueError>)
        requires
            old(self).wf(),
        ensures
            final(self).wf(),
            final(self)@ == old(self)@.skipped(),
            match r {
                Ok(next) => old(self)@.current is Some && view_opt(next) == final(self)@.current,
                Err(e) => old(self)@.current is None && e == QueueError::NothingPlaying,
            },
    {
        if self.current.is_none() {
            return Err(QueueError::NothingPlaying);
        }
        Ok(self.advance())
    }

    /// Pauses a playing session; fails from any other state.
    pub fn pause(&mut self) -> (r: Result<(), QueueError>)
        requires
            old(self).wf(),
        ensures
            final(self).wf(),
            final(self)@ == old(self)@.paused(),
            match r {
                Ok(_) => old(self)@.state == PlaybackState::Playing,
                Err(e) => old(self)@.state != PlaybackState::Playing && e == QueueError::NothingPlaying,
            },
    {
        if self.state != PlaybackState::Playing {
            return Err(QueueError::NothingPlaying);
        }
        self.state = PlaybackState::Paused;
        Ok(())
    }

    /// Resumes a paused session; fails from any other state.
    pub fn resume(&mut self) -> (r: Result<(), QueueError>)
        requires
            old(self).wf(),
        ensures
            final(self).wf(),
            final(self)@ == old(self)@.resumed(),
            match r {
                Ok(_) => old(self)@.state == PlaybackState::Paused,
                Err(e) => old(self)@.state != PlaybackState::Paused && e == QueueError::NothingPlaying,
            },
    {
        if self.state != PlaybackState::Paused {
            return Err(QueueError::NothingPlaying);
        }
        self.state = PlaybackState::Playing;
        Ok(())
    }

    /// Empties the queue and drops the current track.
    pub fn clear(&mut self)
        ensures
            final(self).wf(),
            final(self)@ == SessionModel::empty(),
    {
        self.queue.clear();
        self.current = None;
        self.state = PlaybackState::Idle;
        assert(view_seq(self.queue@) =~= Seq::empty());
    }

    /// Removes and returns the queued track at `index`, closing the gap.
    /// An index outside the queue fails and changes nothing. The current
    /// track is never addressed by an index.
    pub fn remove(&mut self, index: i64) -> (r: Result<Track, QueueError>)
        requires
            old(self).wf(),
        ensures
            final(self).wf(),
            final(self)@ == old(self)@.after_remove(index as int),
            match r {
                Ok(t) => old(self)@.valid_index(index as int) && t@ == old(self)@.queue[index as int],
                Err(e) => !old(self)@.valid_index(index as int) && e == QueueError::InvalidIndex,
            },
    {
        if index < 0 || index as u64 >= self.queue.len() as u64 {
            return Err(QueueError::InvalidIndex);
        }
        let t = self.queue.remove(index as usize);
        assert(view_seq(self.queue@) =~= old(self)@.queue.remove(index as int));
        Ok(t)
    }

    /// Whether the session may be discarded.
    pub fn is_idle(&self) -> (r: bool)
        ensures
            r == self@.is_idle(),
    {
        self.queue.len() == 0 && self.current.is_none()
    }

    /// The number of queued tracks, the current one not counted.
    pub fn len(&self) -> (r: usize)
        ensures
            r == self@.queue.len(),
    {
        self.queue.len()
    }

    /// The playback state.
    pub fn state(&self) -> (r: PlaybackState)
        ensures
            r == self@.state,
    {
        self.state
    }

    /// The current track, if any.
    pub fn current(&self) -> (r: Option<&Track>)
        ensures
            match r {
                Some(t) => self@.current == Some(t@),
                None => self@.current is None,
            },
    {
        match &self.current {
            Some(t) => Some(t),
            None => None,
        }
    }

    /// The queued titles in order, the current title and the state.
    pub fn snapshot(&self) -> (r: Snapshot)
        ensures
            r@ == self@.snapshot(),
    {
        let mut titles: Vec<String> = Vec::new();
        let mut i: usize = 0;
        while i < self.queue.len()
            invariant
                i <= self.queue@.len(),
                titles@.len() == i,
                forall|j: int| 0 <= j < i ==> titles@[j]@ == #[trigger] self.queue@[j].title@,
            decreases self.queue@.len() - i,
        {
            titles.push(self.queue[i].title.clone());
            i = i + 1;
        }
        let current = match &self.current {
            Some(t) => Some(t.title.clone()),
            None => None,
        };
        let r = Snapshot { titles, current, state: self.state };
        assert(r@.titles =~= self@.snapshot().titles);
        r
    }
}

} // verus!
