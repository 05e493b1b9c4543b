use vstd::prelude::*;

verus! {

/// Where the alarm stands: silent, a worker opening the device and decoding
/// the track, or the track looping.
#[derive(Debug, Clone, Copy, PartialEq, Eq, Structural)]
pub enum PlaybackPhase {
    Idle,
    Opening,
    Playing,
}

/// Why a playback request did not lead to a sounding alarm.
#[derive(Debug, Clone, Copy, PartialEq, Eq, Structural)]
pub enum AudioError {
    /// A session is already opening or playing; it must be stopped first.
    AlreadyPlaying,
    /// The output device could not be opened or the file could not be decoded.
    OpenFailed,
    /// The session was stopped before the worker finished opening it.
    Cancelled,
}

/// The text reported to the caller for each error.
pub open spec fn error_text(e: AudioError) -> Seq<char> {
    match e {
        AudioError::AlreadyPlaying => "an alarm is already playing"@,
        AudioError::OpenFailed => "the alarm could not be played"@,
        AudioError::Cancelled => "the alarm was stopped while starting"@,
    }
}

impl AudioError {
    /// The message reported to the caller.
    pub fn message(&self) -> (r: String)
        ensures
            r@ == error_text(*self),
    {
        match self {
            AudioError::AlreadyPlaying => String::from_str("an alarm is already playing"),
            AudioError::OpenFailed => String::from_str("the alarm could not be played"),
            AudioError::Cancelled => String::from_str("the alarm was stopped while starting"),
        }
    }
}

/// The alarm's state. A worker exists while the phase is not `Idle`; the
/// playback sink is published while it is `Playing`.
#[derive(Debug, Clone, Copy, PartialEq, Eq, Structural)]
pub struct AudioState {
    pub phase: PlaybackPhase,
}

/// What stopping asks of the playback resources, in this order.
#[derive(Debug, Clone, Copy, PartialEq, Eq, Structural)]
pub struct StopPlan {
    /// Take the published sink and stop it at once.
    pub stop_sink: bool,
    /// Wait for the worker to end, which releases the device.
    pub join_worker: bool,
}

/// Whether a worker thread exists in this state.
pub open spec fn has_worker(s: AudioState) -> bool {
    s.phase !is Idle
}

/// Whether a playback sink is published in this state.
pub open spec fn has_sink(s: AudioState) -> bool {
    s.phase is Playing
}

/// The state after a play request.
pub open spec fn after_play(s: AudioState) -> AudioState {
    if s.phase is Idle {
        AudioState { phase: PlaybackPhase::Opening }
    } else {
        s
    }
}

/// The state after the worker reports whether it opened the session.
pub open spec fn after_opened(s: AudioState, opened: bool) -> AudioState {
    if s.phase is Opening {
        if opened {
            AudioState { phase: PlaybackPhase::Playing }
        } else {
            AudioState { phase: PlaybackPhase::Idle }
        }
    } else {
        s
    }
}

/// The stop plan for a state: the sink is stopped if published, the worker
/// joined if it exists.
pub open spec fn stop_plan_of(s: AudioState) -> StopPlan {
    StopPlan { stop_sink: has_sink(s), join_worker: has_worker(s) }
}

impl AudioState {
    pub fn new() -> (r: AudioState)
        ensures
            r.phase is Idle,
    {
        AudioState { phase: PlaybackPhase::Idle }
    }
}

/// Admits a play request: from `Idle` a worker is to be spawned; while a
/// session is opening or playing the request is refused and nothing changes.
pub fn play_ringtone(state: &mut AudioState) -> (r: Result<(), AudioError>)
    ensures
        *final(state) == after_play(*old(state)),
        r is Ok <==> old(state).phase is Idle,
        r is Err ==> r == Err::<(), AudioError>(AudioError::AlreadyPlaying),
{
    match state.phase {
        PlaybackPhase::Idle => {
            state.phase = PlaybackPhase::Opening;
            Ok(())
        },
        _ => Err(AudioError::AlreadyPlaying),
    }
}

/// Takes the worker's report on opening the device and decoding the track.
/// `Ok` means the sink is to be published and the track loops; on `Err` the
/// worker drops what it opened and ends.
pub fn playback_opened(state: &mut AudioState, opened: bool) -> (r: Result<(), AudioError>)
    ensures
        *final(state) == after_opened(*old(state), opened),
        r == (if old(state).phase is Opening {
            if opened {
                Ok(())
            } else {
                Err(AudioError::OpenFailed)
            }
        } else {
            Err(AudioError::Cancelled)
        }),
{
    match state.phase {
        PlaybackPhase::Opening => {
            if opened {
                state.phase = PlaybackPhase::Playing;
                Ok(())
            } else {
                state.phase = PlaybackPhase::Idle;
                Err(AudioError::OpenFailed)
            }
        },
        _ => Err(AudioError::Cancelled),
    }
}

/// Whether the worker keeps polling: it ends once the sink has been taken.
pub fn worker_should_continue(state: &AudioState) -> (r: bool)
    ensures
        r == has_sink(*state),
{
    match state.phase {
        PlaybackPhase::Playing => true,
        _ => false,
    }
}

/// Whether a volume change reaches a session; while idle it is dropped.
pub fn volume_applies(state: &AudioState) -> (r: bool)
    ensures
        r == has_sink(*state),
{
    match state.phase {
        PlaybackPhase::Playing => true,
        _ => false,
    }
}

/// Stops the alarm. The caller stops the sink and then joins the worker as the
/// plan says before it returns, so the device is released on return. From
/// `Idle` the plan is empty.
pub fn stop_ringtone(state: &mut AudioState) -> (r: StopPlan)
    ensures
        final(state).phase is Idle,
        r == stop_plan_of(*old(state)),
{
    let r = match state.phase {
        PlaybackPhase::Idle => StopPlan { stop_sink: false, join_worker: false },
        PlaybackPhase::Opening => StopPlan { stop_sink: false, join_worker: true },
        PlaybackPhase::Playing => StopPlan { stop_sink: true, join_worker: true },
    };
    state.phase = PlaybackPhase::Idle;
    r
}

} // verus!
