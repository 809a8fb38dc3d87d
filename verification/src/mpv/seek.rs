//! Interactive seeking: a session of repeated steps that share a speed
//! and a mode, and that can be taken up again shortly after it was
//! finished.

use vstd::prelude::*;

use crate::mpv::seek_speed::SeekSpeed;
use crate::mpv::time::Time;
use crate::mpv::value::{Number, Value};
use crate::mpv::{OnError, Request};

verus! {

/// How long a finished seek session can still be taken up again, in
/// milliseconds.
pub const GRACE_MILLIS: u64 = 60_000;

/// Position and pause state of the player at one moment.
#[derive(Clone, Copy, Debug, PartialEq, Eq, Structural)]
pub struct Snapshot {
    /// The position as a percentage of the whole.
    pub pos: Number,
    pub paused: bool,
}

/// Says that a seek session can only begin once a [`Snapshot`] is given.
#[derive(Clone, Copy, Debug, PartialEq, Eq, Structural)]
pub struct SnapshotNeeded;

/// An interactive seek: repeated steps that share a speed and a mode.
#[derive(Clone, Copy, Debug, PartialEq, Eq, Structural)]
pub struct SeekState {
    pub speed: SeekSpeed,
    /// Whether steps go to the precise target rather than to a keyframe.
    pub exact: bool,
    /// When the session was finished, if it was. A finished session can be
    /// taken up again for a while.
    pub ended: Option<u64>,
    /// The position before the session began.
    pub pos: Number,
    /// Whether the player was paused before the session began.
    pub paused: bool,
}

/// Time passed on the clock between two readings of it.
pub open spec fn elapsed(since: u64, now: u64) -> int {
    if now >= since {
        now - since
    } else {
        0
    }
}

impl SeekState {
    /// Whether steps can be taken in this session as it is.
    pub open spec fn is_live(self) -> bool {
        self.ended is None
    }

    /// Whether the session is finished but can still be taken up again.
    pub open spec fn in_grace(self, now: u64) -> bool {
        self.ended matches Some(ended) && elapsed(ended, now) < GRACE_MILLIS
    }

    /// A session that begins from nothing.
    pub open spec fn fresh(snapshot: Snapshot) -> SeekState {
        SeekState {
            speed: SeekSpeed::FiveSeconds,
            exact: false,
            ended: None,
            pos: snapshot.pos,
            paused: snapshot.paused,
        }
    }

    /// Whether a session in this state needs a snapshot before steps can
    /// be taken: always, unless one is live.
    pub open spec fn needs_snapshot(session: Option<SeekState>) -> bool {
        match session {
            Some(state) => !state.is_live(),
            None => true,
        }
    }

    /// The session after a request to start seeking.
    ///
    /// A live session stays as it is. A session finished less than the
    /// grace period ago goes on with its speed and mode, from a new
    /// snapshot. Otherwise a new session begins.
    pub open spec fn started(session: Option<SeekState>, now: u64, snapshot: Snapshot) -> SeekState {
        match session {
            Some(state) => if state.is_live() {
                state
            } else if state.in_grace(now) {
                SeekState {
                    speed: state.speed,
                    exact: state.exact,
                    ended: None,
                    pos: snapshot.pos,
                    paused: snapshot.paused,
                }
            } else {
                SeekState::fresh(snapshot)
            },
            None => SeekState::fresh(snapshot),
        }
    }

    /// The session after a request to finish seeking.
    pub open spec fn finished(session: Option<SeekState>, now: u64) -> Option<SeekState> {
        match session {
            Some(state) => Some(
                SeekState {
                    speed: state.speed,
                    exact: state.exact,
                    ended: Some(now),
                    pos: state.pos,
                    paused: state.paused,
                },
            ),
            None => None,
        }
    }

    /// The session with the speed one step longer, where there is one.
    pub open spec fn faster(session: Option<SeekState>) -> Option<SeekState> {
        match session {
            Some(state) => match state.speed.next_longer() {
                Some(speed) => Some(
                    SeekState {
                        speed,
                        exact: state.exact,
                        ended: state.ended,
                        pos: state.pos,
                        paused: state.paused,
                    },
                ),
                None => session,
            },
            None => None,
        }
    }

    /// The session with the speed one step shorter, where there is one.
    pub open spec fn slower(session: Option<SeekState>) -> Option<SeekState> {
        match session {
            Some(state) => match state.speed.next_shorter() {
                Some(speed) => Some(
                    SeekState {
                        speed,
                        exact: state.exact,
                        ended: state.ended,
                        pos: state.pos,
                        paused: state.paused,
                    },
                ),
                None => session,
            },
            None => None,
        }
    }

    /// The session with the mode flipped.
    pub open spec fn toggled(session: Option<SeekState>) -> Option<SeekState> {
        match session {
            Some(state) => Some(
                SeekState {
                    speed: state.speed,
                    exact: !state.exact,
                    ended: state.ended,
                    pos: state.pos,
                    paused: state.paused,
                },
            ),
            None => None,
        }
    }
}

/// The signed distance of one seek step.
pub open spec fn seek_distance(speed: SeekSpeed, forward: bool) -> Time {
    if forward {
        speed.distance()
    } else {
        speed.distance().negated()
    }
}

/// Whether a step would go past the end of the media as far as it is
/// known.
pub open spec fn overshoots(left: Option<Time>, forward: bool, distance: Time) -> bool {
    forward && (left matches Some(left) && left@ < distance@)
}

/// Whether `request` pauses or resumes the player, whatever it answers.
pub open spec fn sets_pause(request: Request, paused: bool) -> bool {
    &&& request.command.is_set_property("pause"@, Value::Bool(paused))
    &&& request.on_error == OnError::Ignore
}

/// Whether `request` resumes the player and gives up on a failure.
pub open spec fn resumes(request: Request) -> bool {
    &&& request.command.is_set_property("pause"@, Value::Bool(false))
    &&& request.on_error == OnError::Stop
}

/// Whether `request` puts the player back to `pos` and gives up on a
/// failure.
pub open spec fn restores(request: Request, pos: Number) -> bool {
    &&& request.command.is_set_property("percent-pos"@, Value::Number(pos))
    &&& request.on_error == OnError::Stop
}

/// Whether `request` seeks by `distance` and gives up on a failure.
pub open spec fn seeks(request: Request, distance: Time, exact: bool) -> bool {
    &&& request.command.is_seek(distance, exact)
    &&& request.on_error == OnError::Stop
}

/// Whether `requests` are what finishing `session` sends: the request to
/// resume playback if the player was playing before the session began,
/// and nothing otherwise.
pub open spec fn finish_sends(session: Option<SeekState>, requests: Seq<Request>) -> bool {
    match session {
        Some(state) => if state.paused {
            requests.len() == 0
        } else {
            requests.len() == 1 && resumes(requests[0])
        },
        None => requests.len() == 0,
    }
}

/// Whether `requests` are what cancelling `session` sends: the request
/// that puts the player back to the position from before the session,
/// followed by the one to resume playback if the player was playing then.
/// Without a session nothing is sent.
pub open spec fn cancel_sends(session: Option<SeekState>, requests: Seq<Request>) -> bool {
    match session {
        Some(state) => {
            &&& requests.len() == if state.paused {
                1int
            } else {
                2int
            }
            &&& restores(requests[0], state.pos)
            &&& !state.paused ==> resumes(requests[1])
        },
        None => requests.len() == 0,
    }
}

impl SeekState {
    /// The live session that a seek step works in: the one there is, or
    /// the one that a snapshot starts. Without either there is none.
    pub open spec fn entered(
        session: Option<SeekState>,
        now: u64,
        snapshot: Option<Snapshot>,
    ) -> Option<SeekState> {
        if !SeekState::needs_snapshot(session) {
            session
        } else {
            match snapshot {
                Some(snapshot) => Some(SeekState::started(session, now, snapshot)),
                None => None,
            }
        }
    }
}

/// A session started from nothing remembers the position and pause state
/// it was given, and cancelling it right away sends the player back to
/// exactly that position, resuming playback only if it was playing.
pub proof fn cancel_undoes_start(now: u64, snapshot: Snapshot, requests: Seq<Request>)
    requires
        cancel_sends(Some(SeekState::started(None, now, snapshot)), requests),
    ensures
        SeekState::started(None, now, snapshot).pos == snapshot.pos,
        SeekState::started(None, now, snapshot).paused == snapshot.paused,
        SeekState::started(None, now, snapshot).is_live(),
        restores(requests[0], snapshot.pos),
        snapshot.paused ==> requests.len() == 1,
        !snapshot.paused ==> requests.len() == 2 && resumes(requests[1]),
{
}

/// Starting again less than the grace period after finishing goes on with
/// the speed and mode that the session had.
pub proof fn start_within_grace_resumes(
    state: SeekState,
    finished_at: u64,
    now: u64,
    snapshot: Snapshot,
)
    requires
        elapsed(finished_at, now) < GRACE_MILLIS,
    ensures
        ({
            let resumed = SeekState::started(
                SeekState::finished(Some(state), finished_at),
                now,
                snapshot,
            );
            &&& resumed.speed == state.speed
            &&& resumed.exact == state.exact
            &&& resumed.is_live()
            &&& resumed.pos == snapshot.pos
            &&& resumed.paused == snapshot.paused
        }),
{
}

/// Starting again once the grace period after finishing is over begins a
/// new session, at the default speed and seeking to keyframes.
pub proof fn start_after_grace_is_fresh(
    state: SeekState,
    finished_at: u64,
    now: u64,
    snapshot: Snapshot,
)
    requires
        elapsed(finished_at, now) >= GRACE_MILLIS,
    ensures
        ({
            let begun = SeekState::started(
                SeekState::finished(Some(state), finished_at),
                now,
                snapshot,
            );
            &&& begun == SeekState::fresh(snapshot)
            &&& begun.speed == SeekSpeed::FiveSeconds
            &&& !begun.exact
            &&& begun.is_live()
        }),
{
}

} // verus!
