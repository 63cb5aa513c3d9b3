use discobot::{PlaybackSession, PlaybackState, QueueError, SessionRegistry, Track};

fn track(title: &str) -> Track {
    Track::new(title.to_string(), format!("https://example.com/{}", title))
}

fn titles(s: &PlaybackSession) -> Vec<String> {
    s.snapshot().titles
}

#[test]
fn first_enqueue_on_idle_session_plays_at_index_zero() {
    let mut s = PlaybackSession::new();
    assert_eq!(s.state(), PlaybackState::Idle);
    let index = s.enqueue(track("A"));
    assert_eq!(index, 0);
    assert_eq!(s.state(), PlaybackState::Playing);
    assert_eq!(s.current().unwrap().title(), "A");
    assert_eq!(s.len(), 0);
    assert_eq!(s.enqueue(track("B")), 0);
    assert_eq!(s.enqueue(track("C")), 1);
    assert_eq!(s.current().unwrap().title(), "A");
    assert_eq!(titles(&s), vec!["B".to_string(), "C".to_string()]);
}

#[test]
fn remove_compacts_the_queue() {
    let mut s = PlaybackSession::new();
    for t in ["Now", "A", "B", "C", "D"] {
        s.enqueue(track(t));
    }
    let removed = s.remove(1).unwrap();
    assert_eq!(removed.title(), "B");
    assert_eq!(titles(&s), vec!["A".to_string(), "C".to_string(), "D".to_string()]);
    assert!(!titles(&s).contains(&"B".to_string()));
    assert_eq!(s.current().unwrap().title(), "Now");
}

#[test]
fn remove_out_of_range_changes_nothing() {
    let mut s = PlaybackSession::new();
    for t in ["Now", "A", "B"] {
        s.enqueue(track(t));
    }
    let before = s.snapshot();
    assert_eq!(s.remove(2).err(), Some(QueueError::InvalidIndex));
    assert_eq!(s.remove(-1).err(), Some(QueueError::InvalidIndex));
    assert_eq!(s.remove(i64::MAX).err(), Some(QueueError::InvalidIndex));
    let after = s.snapshot();
    assert_eq!(before.titles, after.titles);
    assert_eq!(before.current, after.current);
    assert_eq!(before.state, after.state);
}

#[test]
fn remove_on_empty_queue_fails() {
    let mut s = PlaybackSession::new();
    assert_eq!(s.remove(0).err(), Some(QueueError::InvalidIndex));
    assert!(s.is_idle());
}

#[test]
fn skip_promotes_the_head() {
    let mut s = PlaybackSession::new();
    for t in ["A", "B", "C"] {
        s.enqueue(track(t));
    }
    let next = s.skip().unwrap().unwrap();
    assert_eq!(next.title(), "B");
    assert_eq!(s.current().unwrap().title(), "B");
    assert_eq!(titles(&s), vec!["C".to_string()]);
    assert_eq!(s.state(), PlaybackState::Playing);
}

#[test]
fn pause_then_resume_keeps_snapshot() {
    let mut s = PlaybackSession::new();
    for t in ["A", "B"] {
        s.enqueue(track(t));
    }
    let before = s.snapshot();
    assert!(s.pause().is_ok());
    assert_eq!(s.state(), PlaybackState::Paused);
    assert!(s.resume().is_ok());
    let after = s.snapshot();
    assert_eq!(before.titles, after.titles);
    assert_eq!(before.current, after.current);
    assert_eq!(before.state, after.state);
}

#[test]
fn pause_and_resume_fail_outside_their_states() {
    let mut s = PlaybackSession::new();
    assert_eq!(s.pause().err(), Some(QueueError::NothingPlaying));
    assert_eq!(s.resume().err(), Some(QueueError::NothingPlaying));
    s.enqueue(track("A"));
    assert_eq!(s.resume().err(), Some(QueueError::NothingPlaying));
    assert!(s.pause().is_ok());
    assert_eq!(s.pause().err(), Some(QueueError::NothingPlaying));
    assert_eq!(s.state(), PlaybackState::Paused);
}

#[test]
fn clear_resets_from_any_state() {
    let mut s = PlaybackSession::new();
    s.clear();
    assert!(s.is_idle());
    for t in ["A", "B", "C"] {
        s.enqueue(track(t));
    }
    s.pause().unwrap();
    s.clear();
    let snap = s.snapshot();
    assert!(snap.titles.is_empty());
    assert_eq!(snap.current, None);
    assert_eq!(snap.state, PlaybackState::Idle);
    assert!(s.is_idle());
}

#[test]
fn two_enqueues_keep_both_tracks() {
    let mut a = PlaybackSession::new();
    a.enqueue(track("Now"));
    let mut b = PlaybackSession::new();
    b.enqueue(track("Now"));
    a.enqueue(track("X"));
    a.enqueue(track("Y"));
    b.enqueue(track("Y"));
    b.enqueue(track("X"));
    assert_eq!(titles(&a), vec!["X".to_string(), "Y".to_string()]);
    assert_eq!(titles(&b), vec!["Y".to_string(), "X".to_string()]);
}

#[test]
fn advance_goes_idle_when_queue_runs_out() {
    let mut s = PlaybackSession::new();
    s.enqueue(track("A"));
    s.enqueue(track("B"));
    assert_eq!(s.advance().unwrap().title(), "B");
    assert!(s.advance().is_none());
    assert_eq!(s.state(), PlaybackState::Idle);
    assert!(s.is_idle());
}

#[test]
fn scenario_enqueue_skip_skip() {
    let mut reg = SessionRegistry::new();
    let id: u64 = 42;
    let first = reg.play(id, Ok(track("Song1")), true).unwrap();
    assert_eq!(first.title, "Song1");
    assert_eq!(first.index, 0);
    assert_eq!(first.started.unwrap().title(), "Song1");
    assert_eq!(reg.list_queue(id).current, Some("Song1".to_string()));
    let second = reg.play(id, Ok(track("Song2")), true).unwrap();
    assert_eq!(second.index, 0);
    assert!(second.started.is_none());
    assert_eq!(reg.list_queue(id).titles, vec!["Song2".to_string()]);
    let next = reg.skip(id).unwrap();
    assert_eq!(next.unwrap().title(), "Song2");
    let snap = reg.list_queue(id);
    assert_eq!(snap.current, Some("Song2".to_string()));
    assert!(snap.titles.is_empty());
    assert!(reg.skip(id).unwrap().is_none());
    assert_eq!(reg.skip(id).err(), Some(QueueError::NothingPlaying));
}

#[test]
fn registry_play_reports_collaborator_failures() {
    let mut reg = SessionRegistry::new();
    let r = reg.play(7, Err("no such video".to_string()), true);
    assert_eq!(r.err(), Some(QueueError::ResolutionFailed("no such video".to_string())));
    assert!(!reg.contains(7));
    let r = reg.play(7, Ok(track("A")), false);
    assert_eq!(r.err(), Some(QueueError::SinkAttachFailed));
    assert!(!reg.contains(7));
}

#[test]
fn registry_sessions_are_independent() {
    let mut reg = SessionRegistry::new();
    reg.play(1, Ok(track("A")), true).unwrap();
    reg.play(1, Ok(track("B")), true).unwrap();
    reg.play(2, Ok(track("C")), true).unwrap();
    reg.pause(1).unwrap();
    assert_eq!(reg.list_queue(1).state, PlaybackState::Paused);
    assert_eq!(reg.list_queue(2).state, PlaybackState::Playing);
    assert_eq!(reg.remove(1, 0).unwrap().title(), "B");
    assert_eq!(reg.remove(2, 0).err(), Some(QueueError::InvalidIndex));
    reg.resume(1).unwrap();
    reg.clear(2);
    assert_eq!(reg.list_queue(2).state, PlaybackState::Idle);
    assert_eq!(reg.list_queue(1).current, Some("A".to_string()));
}

#[test]
fn registry_disposes_only_idle_sessions() {
    let mut reg = SessionRegistry::new();
    assert!(!reg.remove_if_idle(3));
    reg.get_or_create(3);
    assert!(reg.contains(3));
    reg.play(4, Ok(track("A")), true).unwrap();
    assert!(!reg.remove_if_idle(4));
    assert!(reg.contains(4));
    assert!(reg.remove_if_idle(3));
    assert!(!reg.contains(3));
    assert!(reg.advance(4).is_none());
    assert!(reg.remove_if_idle(4));
    let snap = reg.list_queue(9);
    assert!(snap.titles.is_empty());
    assert!(!reg.contains(9));
}
