//! The movie builder of a story statement: `movie(path)` opens at most one
//! pending movie per statement, its modifiers change it, and the end of the
//! statement either waits for it or plays it behind the story.
use vstd::prelude::*;
use crate::sound_ledger::refused_with;
use crate::story::StoryWait;
use crate::text::{blank, is_blank};

verus! {

/// A movie that a statement has started and not yet committed.
#[derive(Debug, PartialEq)]
pub struct PendingMovie {
    pub path: String,
    /// The story waits for it to end.
    pub blocking: bool,
    pub fade_out_ms: u64,
}

/// What the engine is asked to do with movies.
#[derive(Debug, PartialEq)]
pub enum MovieEffect {
    /// Plays behind the story's UI; it cannot advance the dialogue.
    Background { path: String, fade_out_ms: u64 },
    Stop,
}

/// The movie of the statement being run: at most one is pending.
#[derive(Debug)]
pub struct MovieState {
    next: u64,
    pending: Option<(u64, PendingMovie)>,
}

/// The movie numbered `id`, when it is the pending one.
pub open spec fn pending_movie(pending: Option<(u64, PendingMovie)>, id: u64) -> Option<PendingMovie> {
    match pending {
        Some((n, m)) => if n == id {
            Some(m)
        } else {
            None
        },
        None => None,
    }
}

impl MovieState {
    /// The number of the last movie started.
    pub closed spec fn last_id(&self) -> u64 {
        self.next
    }

    /// The pending movie and its number.
    pub closed spec fn entry(&self) -> Option<(u64, PendingMovie)> {
        self.pending
    }

    pub open spec fn wf(&self) -> bool {
        self.entry() matches Some((n, _)) ==> n <= self.last_id()
    }

    pub fn new() -> (s: Self)
        ensures
            s.wf(),
            s.last_id() == 0,
            s.entry() is None,
    {
        MovieState { next: 0, pending: None }
    }

    /// `movie(path)`: a blocking movie without fade; refused for a blank
    /// path, for a second movie in one statement, or when the numbers are
    /// spent.
    pub fn start(&mut self, path: String) -> (r: Result<u64, String>)
        requires
            old(self).wf(),
        ensures
            final(self).wf(),
            blank(path@) ==> *final(self) == *old(self) && refused_with(r, "movie path must not be empty"@),
            !blank(path@) && old(self).entry() is Some ==> *final(self) == *old(self) && refused_with(
                r,
                "only one movie may be started per statement"@,
            ),
            !blank(path@) && old(self).entry() is None && old(self).last_id() == u64::MAX ==> *final(self)
                == *old(self) && refused_with(r, "movie handles exhausted"@),
            !blank(path@) && old(self).entry() is None && old(self).last_id() < u64::MAX ==> {
                &&& r == Ok::<u64, String>((old(self).last_id() + 1) as u64)
                &&& final(self).last_id() == old(self).last_id() + 1
                &&& final(self).entry() == Some(
                    ((old(self).last_id() + 1) as u64, PendingMovie { path, blocking: true, fade_out_ms: 0 }),
                )
            },
    {
        if is_blank(path.as_str()) {
            return Err("movie path must not be empty".to_owned());
        }
        if self.pending.is_some() {
            return Err("only one movie may be started per statement".to_owned());
        }
        let id = match self.next.checked_add(1) {
            Some(n) => n,
            None => {
                return Err("movie handles exhausted".to_owned());
            },
        };
        self.next = id;
        self.pending = Some((id, PendingMovie { path, blocking: true, fade_out_ms: 0 }));
        Ok(id)
    }

    /// Changes the pending movie numbered `id` to blocking or not and to
    /// the given fade.
    fn update(&mut self, id: u64, blocking: Option<bool>, fade_out_ms: Option<u64>) -> (r: Result<u64, String>)
        requires
            old(self).wf(),
        ensures
            final(self).wf(),
            final(self).last_id() == old(self).last_id(),
            match pending_movie(old(self).entry(), id) {
                None => *final(self) == *old(self) && refused_with(r, "movie builder already committed"@),
                Some(m) => r == Ok::<u64, String>(id) && final(self).entry() == Some(
                    (
                        id,
                        PendingMovie {
                            path: m.path,
                            blocking: match blocking {
                                Some(b) => b,
                                None => m.blocking,
                            },
                            fade_out_ms: match fade_out_ms {
                                Some(f) => f,
                                None => m.fade_out_ms,
                            },
                        },
                    ),
                ),
            },
    {
        let current = self.pending.take();
        match current {
            Some((n, m)) => {
                if n != id {
                    self.pending = Some((n, m));
                    return Err("movie builder already committed".to_owned());
                }
                let b = match blocking {
                    Some(b) => b,
                    None => m.blocking,
                };
                let f = match fade_out_ms {
                    Some(f) => f,
                    None => m.fade_out_ms,
                };
                self.pending = Some((n, PendingMovie { path: m.path, blocking: b, fade_out_ms: f }));
                Ok(id)
            },
            None => Err("movie builder already committed".to_owned()),
        }
    }

    /// `.fadeOut(ms)`: `millis` is the fade in whole milliseconds, or the
    /// message of why the script's value is not one.
    pub fn set_fade_out(&mut self, id: u64, millis: Result<u64, String>) -> (r: Result<u64, String>)
        requires
            old(self).wf(),
        ensures
            final(self).wf(),
            final(self).last_id() == old(self).last_id(),
            millis matches Err(m) ==> *final(self) == *old(self) && refused_with(r, m@),
            millis matches Ok(ms) ==> match pending_movie(old(self).entry(), id) {
                None => *final(self) == *old(self) && refused_with(r, "movie builder already committed"@),
                Some(m) => r == Ok::<u64, String>(id) && final(self).entry() == Some(
                    (id, PendingMovie { fade_out_ms: ms, ..m }),
                ),
            },
    {
        let ms = match millis {
            Ok(ms) => ms,
            Err(m) => {
                return Err(m);
            },
        };
        self.update(id, None, Some(ms))
    }

    /// `.nonBlocking()`: plays the movie behind the story.
    pub fn set_non_blocking(&mut self, id: u64) -> (r: Result<u64, String>)
        requires
            old(self).wf(),
        ensures
            final(self).wf(),
            final(self).last_id() == old(self).last_id(),
            match pending_movie(old(self).entry(), id) {
                None => *final(self) == *old(self) && refused_with(r, "movie builder already committed"@),
                Some(m) => r == Ok::<u64, String>(id) && final(self).entry() == Some(
                    (id, PendingMovie { blocking: false, ..m }),
                ),
            },
    {
        self.update(id, Some(false), None)
    }

    /// `.await()`: the story waits for the movie again.
    pub fn await_movie(&mut self, id: u64) -> (r: Result<(), String>)
        requires
            old(self).wf(),
        ensures
            final(self).wf(),
            final(self).last_id() == old(self).last_id(),
            match pending_movie(old(self).entry(), id) {
                None => *final(self) == *old(self) && refused_with(r, "movie builder already committed"@),
                Some(m) => r is Ok && final(self).entry() == Some((id, PendingMovie { blocking: true, ..m })),
            },
    {
        match self.update(id, Some(true), None) {
            Ok(_) => Ok(()),
            Err(e) => Err(e),
        }
    }

    /// Ends the statement: a blocking movie becomes what the story waits
    /// for, another plays in the background.
    pub fn commit(&mut self, effects: &mut Vec<MovieEffect>, wait: &mut Option<StoryWait>)
        requires
            old(self).wf(),
        ensures
            final(self).wf(),
            final(self).last_id() == old(self).last_id(),
            final(self).entry() is None,
            match old(self).entry() {
                None => final(effects)@ == old(effects)@ && *final(wait) == *old(wait),
                Some((_, m)) => if m.blocking {
                    final(effects)@ == old(effects)@ && *final(wait) == Some(
                        StoryWait::Movie { path: m.path, fade_out_ms: m.fade_out_ms },
                    )
                } else {
                    final(effects)@ == old(effects)@.push(
                        MovieEffect::Background { path: m.path, fade_out_ms: m.fade_out_ms },
                    ) && *final(wait) == *old(wait)
                },
            },
    {
        let current = self.pending.take();
        match current {
            Some((_, m)) => {
                if m.blocking {
                    *wait = Some(StoryWait::Movie { path: m.path, fade_out_ms: m.fade_out_ms });
                } else {
                    effects.push(MovieEffect::Background { path: m.path, fade_out_ms: m.fade_out_ms });
                }
            },
            None => {},
        }
    }
}

impl Default for MovieState {
    fn default() -> (s: Self)
        ensures
            s.wf(),
            s.last_id() == 0,
            s.entry() is None,
    {
        MovieState::new()
    }
}

/// `stopMovie()`: stops the movie playing.
pub fn stop_movie(effects: &mut Vec<MovieEffect>)
    ensures
        final(effects)@ == old(effects)@.push(MovieEffect::Stop),
{
    effects.push(MovieEffect::Stop);
}

/// A movie that was committed can no longer be changed: every modifier is
/// refused once the statement has ended.
pub proof fn law_committed_movie_cannot_be_changed(s: MovieState, id: u64)
    requires
        s.wf(),
        s.entry() is None,
    ensures
        pending_movie(s.entry(), id) is None,
{
}

} // verus!
