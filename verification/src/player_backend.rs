//! The playback state machine of the audio backend.
//!
//! The backend owns the playback state; the GStreamer pipeline itself lives
//! with the application, which performs what these functions decide and
//! reports back what the pipeline answered.
use vstd::prelude::*;

verus! {

/// Nanoseconds in one second, the unit of pipeline clock times.
pub const NSEC_PER_SEC: u64 = 1_000_000_000;

/// The largest number of seconds whose clock time fits in 64 bits of nanoseconds.
pub const MAX_CLOCK_SECONDS: u64 = 18_446_744_073;

/// The playback state that the player reports.
#[derive(Clone, Copy, Debug, PartialEq, Eq, Structural)]
pub enum PlayerState {
    Play,
    Pause,
    Stop,
}

impl Default for PlayerState {
    fn default() -> (state: Self)
        ensures
            state == PlayerState::Stop,
    {
        PlayerState::Stop
    }
}

/// The direction of a relative seek.
#[derive(Clone, Copy, Debug, PartialEq, Eq, Structural)]
pub enum SeekDirection {
    Forward,
    Backwards,
}

/// A state of the playback pipeline.
#[derive(Clone, Copy, Debug, PartialEq, Eq, Structural)]
pub enum PipelineState {
    Null,
    Ready,
    Paused,
    Playing,
}

/// A message posted on the pipeline's bus, as far as the player tells them apart.
#[derive(Clone, Copy, Debug, PartialEq, Eq, Structural)]
pub enum BusMessage {
    EndOfStream,
    Error,
    Other,
}

/// An action that the player asks the application to take.
#[derive(Clone, Copy, Debug, PartialEq, Eq, Structural)]
pub enum PlayerAction {
    PlayNext,
    Stop,
    AboutToFinish,
    UpdatePosition(u64),
}

/// How the player answers a bus message: the action it sends, if any, and
/// whether it keeps watching the bus.
#[derive(Clone, Copy, Debug, PartialEq, Eq, Structural)]
pub struct BusReply {
    pub action: Option<PlayerAction>,
    pub keep_watching: bool,
}

/// What a seek to an absolute position asks of the pipeline: pause it, seek
/// to `target_ns`, and, if that seek succeeds, resume playing when `resume`.
#[derive(Clone, Copy, Debug, PartialEq, Eq, Structural)]
pub struct SeekPlan {
    pub target_ns: u64,
    pub resume: bool,
}

/// The destination, in seconds, of a relative seek by `offset` seconds from
/// `position` in a song of `duration` seconds; `None` where no seek happens.
pub open spec fn seek_destination(
    position: nat,
    duration: nat,
    offset: nat,
    direction: SeekDirection,
) -> Option<nat> {
    match direction {
        SeekDirection::Backwards => if position >= offset {
            Some((position - offset) as nat)
        } else {
            Some(0)
        },
        SeekDirection::Forward => if duration == 0 {
            None
        } else if position + offset <= duration {
            Some(position + offset)
        } else {
            Some(duration)
        },
    }
}

/// Whether a relative seek stays within the clock times that the pipeline can represent.
pub open spec fn seek_in_range(
    position: nat,
    duration: nat,
    offset: nat,
    direction: SeekDirection,
) -> bool {
    &&& position <= MAX_CLOCK_SECONDS
    &&& duration <= MAX_CLOCK_SECONDS
    &&& offset <= MAX_CLOCK_SECONDS
    &&& (direction == SeekDirection::Forward && duration != 0) ==> position + offset
        <= MAX_CLOCK_SECONDS
}

/// Whole seconds in a clock time of `ns` nanoseconds.
pub open spec fn whole_seconds(ns: nat) -> nat {
    ns / (NSEC_PER_SEC as nat)
}

/// The audio backend: its playback state, and whether it holds the id of the
/// timer that polls the pipeline for the playback position.
#[derive(Debug)]
pub struct PlayerBackend {
    state: PlayerState,
    timer_held: bool,
}

impl PlayerBackend {
    /// A timer id is only held while playing.
    #[verifier::type_invariant]
    spec fn timer_only_while_playing(&self) -> bool {
        self.timer_held ==> self.state == PlayerState::Play
    }

    /// The current playback state.
    pub closed spec fn spec_state(&self) -> PlayerState {
        self.state
    }

    /// Whether the backend holds the id of the position timer. Dropping the id
    /// does not remove the timer from the main loop: it ends on its own once
    /// the pipeline is gone (see `position_tick`).
    pub closed spec fn spec_timer_held(&self) -> bool {
        self.timer_held
    }

    /// A position timer id is held only while playing.
    pub open spec fn wf(&self) -> bool {
        self.spec_timer_held() ==> self.spec_state() == PlayerState::Play
    }

    /// A stopped backend that holds no timer id.
    pub fn new() -> (backend: Self)
        ensures
            backend.wf(),
            backend.spec_state() == PlayerState::Stop,
            !backend.spec_timer_held(),
    {
        PlayerBackend { state: PlayerState::default(), timer_held: false }
    }

    /// The current playback state.
    pub fn state(&self) -> (state: PlayerState)
        ensures
            state == self.spec_state(),
            self.wf(),
    {
        proof { use_type_invariant(self); }
        self.state
    }

    /// Whether the backend holds the id of the position timer.
    pub fn holds_position_timer(&self) -> (held: bool)
        ensures
            held == self.spec_timer_held(),
            self.wf(),
    {
        proof { use_type_invariant(self); }
        self.timer_held
    }

    /// Switches to playing. Returns whether the state changed: only then must
    /// the pipeline be rewound to the start and set to playing.
    pub fn play(&mut self) -> (changed: bool)
        ensures
            final(self).wf(),
            final(self).spec_state() == PlayerState::Play,
            final(self).spec_timer_held() == old(self).spec_timer_held(),
            changed == (old(self).spec_state() != PlayerState::Play),
    {
        proof { use_type_invariant(&*self); }
        let changed = self.state != PlayerState::Play;
        *self = PlayerBackend { state: PlayerState::Play, timer_held: self.timer_held };
        changed
    }

    /// Takes in whether the pipeline started playing after `play`. On success
    /// the backend stores the id of a new position timer; on failure it
    /// returns the state the pipeline must be reset to.
    pub fn playback_started(&mut self, started: bool) -> (reset: Option<PipelineState>)
        requires
            old(self).spec_state() == PlayerState::Play,
        ensures
            final(self).wf(),
            final(self).spec_state() == PlayerState::Play,
            final(self).spec_timer_held() == (started || old(self).spec_timer_held()),
            reset == (if started {
                None
            } else {
                Some(PipelineState::Ready)
            }),
    {
        if started {
            *self = PlayerBackend { state: PlayerState::Play, timer_held: true };
            None
        } else {
            Some(PipelineState::Ready)
        }
    }

    /// Switches to paused. Returns whether the state changed: only then is the
    /// position reported, the stored timer id dropped and the pipeline paused.
    pub fn pause(&mut self) -> (changed: bool)
        ensures
            final(self).wf(),
            final(self).spec_state() == PlayerState::Pause,
            !final(self).spec_timer_held(),
            changed == (old(self).spec_state() != PlayerState::Pause),
    {
        proof { use_type_invariant(&*self); }
        let changed = self.state != PlayerState::Pause;
        *self = PlayerBackend { state: PlayerState::Pause, timer_held: false };
        changed
    }

    /// Takes in whether the pipeline paused after `pause`; on failure returns
    /// the state the pipeline must be reset to.
    pub fn pause_finished(&self, paused: bool) -> (reset: Option<PipelineState>)
        ensures
            reset == (if paused {
                None
            } else {
                Some(PipelineState::Null)
            }),
    {
        if paused {
            None
        } else {
            Some(PipelineState::Null)
        }
    }

    /// Switches to stopped. Returns whether the state changed: only then is
    /// the position reported, the stored timer id dropped and the pipeline
    /// made ready.
    pub fn stop(&mut self) -> (changed: bool)
        ensures
            final(self).wf(),
            final(self).spec_state() == PlayerState::Stop,
            !final(self).spec_timer_held(),
            changed == (old(self).spec_state() != PlayerState::Stop),
    {
        proof { use_type_invariant(&*self); }
        let changed = self.state != PlayerState::Stop;
        *self = PlayerBackend { state: PlayerState::Stop, timer_held: false };
        changed
    }

    /// The plan for a relative seek: pause, seek to the destination, and
    /// play once the seek succeeds, whatever the state was; `None` where the
    /// player does not seek (forward in a song of unknown duration).
    pub fn seek(&self, position: u64, duration: u64, offset: u64, direction: SeekDirection) -> (plan: Option<SeekPlan>)
        requires
            seek_in_range(position as nat, duration as nat, offset as nat, direction),
        ensures
            plan == (match seek_destination(position as nat, duration as nat, offset as nat, direction) {
                Some(d) => Some(SeekPlan { target_ns: (d * NSEC_PER_SEC) as u64, resume: true }),
                None => None,
            }),
    {
        match relative_destination(position, duration, offset, direction) {
            Some(d) => {
                assert(d * NSEC_PER_SEC <= u64::MAX) by (nonlinear_arith)
                    requires
                        d <= MAX_CLOCK_SECONDS,
                ;
                Some(SeekPlan { target_ns: d * NSEC_PER_SEC, resume: true })
            },
            None => None,
        }
    }

    /// The plan for a seek to `position` seconds: the clock time to seek to,
    /// and whether to resume playing afterwards (only while playing).
    pub fn seek_position(&self, position: u64) -> (plan: SeekPlan)
        requires
            position <= MAX_CLOCK_SECONDS,
        ensures
            plan.target_ns == position * NSEC_PER_SEC,
            plan.resume == (self.spec_state() == PlayerState::Play),
    {
        SeekPlan { target_ns: position * NSEC_PER_SEC, resume: self.state == PlayerState::Play }
    }

    /// The plan for a seek back to the start of the song.
    pub fn seek_start(&self) -> (plan: SeekPlan)
        ensures
            plan.target_ns == 0,
            plan.resume == (self.spec_state() == PlayerState::Play),
    {
        self.seek_position(0)
    }
}

/// The destination, in seconds, of a relative seek.
fn relative_destination(position: u64, duration: u64, offset: u64, direction: SeekDirection) -> (destination: Option<u64>)
    requires
        seek_in_range(position as nat, duration as nat, offset as nat, direction),
    ensures
        destination matches Some(d) ==> d <= MAX_CLOCK_SECONDS && seek_destination(
            position as nat,
            duration as nat,
            offset as nat,
            direction,
        ) == Some(d as nat),
        destination is None <==> seek_destination(position as nat, duration as nat, offset as nat, direction) is None,
{
    match direction {
        SeekDirection::Backwards => {
            if position >= offset {
                Some(position - offset)
            } else {
                Some(0)
            }
        },
        SeekDirection::Forward => {
            if duration == 0 {
                None
            } else if position + offset <= duration {
                Some(position + offset)
            } else {
                Some(duration)
            }
        },
    }
}

/// Whole seconds in a clock time.
pub fn clock_seconds(ns: u64) -> (seconds: u64)
    ensures
        seconds == whole_seconds(ns as nat),
{
    ns / NSEC_PER_SEC
}

/// The position report made when the player pauses or stops: the position
/// in whole seconds, if the pipeline knew it.
pub fn position_report(position_ns: Option<u64>) -> (action: Option<PlayerAction>)
    ensures
        action == (match position_ns {
            Some(ns) => Some(PlayerAction::UpdatePosition(whole_seconds(ns as nat) as u64)),
            None => None,
        }),
{
    match position_ns {
        Some(ns) => Some(PlayerAction::UpdatePosition(clock_seconds(ns))),
        None => None,
    }
}

/// One tick of the position timer: while the pipeline exists, report its
/// position (if it knows one) and keep the timer; once it is gone, stop the timer.
pub fn position_tick(pipeline_alive: bool, position_ns: Option<u64>) -> (reply: BusReply)
    ensures
        reply.keep_watching == pipeline_alive,
        reply.action == (if pipeline_alive {
            match position_ns {
                Some(ns) => Some(PlayerAction::UpdatePosition(whole_seconds(ns as nat) as u64)),
                None => None,
            }
        } else {
            None
        }),
{
    if !pipeline_alive {
        return BusReply { action: None, keep_watching: false };
    }
    BusReply { action: position_report(position_ns), keep_watching: true }
}

/// How the player answers a bus message: at the end of the stream it asks
/// for the next song; on an error it asks to stop and stops watching.
pub fn bus_reply(message: BusMessage) -> (reply: BusReply)
    ensures
        reply == (match message {
            BusMessage::EndOfStream => BusReply { action: Some(PlayerAction::PlayNext), keep_watching: true },
            BusMessage::Error => BusReply { action: Some(PlayerAction::Stop), keep_watching: false },
            BusMessage::Other => BusReply { action: None, keep_watching: true },
        }),
{
    match message {
        BusMessage::EndOfStream => BusReply { action: Some(PlayerAction::PlayNext), keep_watching: true },
        BusMessage::Error => BusReply { action: Some(PlayerAction::Stop), keep_watching: false },
        BusMessage::Other => BusReply { action: None, keep_watching: true },
    }
}

/// The audio sink the player builds: PulseAudio's where it is available,
/// else the automatic one.
pub fn audio_sink_factory(pulse_available: bool) -> (name: &'static str)
    ensures
        name@ == (if pulse_available {
            "pulsesink"@
        } else {
            "autoaudiosink"@
        }),
{
    if pulse_available {
        "pulsesink"
    } else {
        "autoaudiosink"
    }
}

/// The playback element the player builds: `playbin3`, or `playbin` once
/// building `playbin3` has failed.
pub fn playbin_factory(preferred_failed: bool) -> (name: &'static str)
    ensures
        name@ == (if preferred_failed {
            "playbin"@
        } else {
            "playbin3"@
        }),
{
    if preferred_failed {
        "playbin"
    } else {
        "playbin3"
    }
}

/// A backward seek followed by a forward seek by the same offset returns to
/// the starting position, when both stay inside the song.
pub proof fn lemma_seek_back_then_forward(position: nat, duration: nat, offset: nat)
    requires
        offset <= position <= duration,
        duration != 0,
    ensures
        seek_destination(position, duration, offset, SeekDirection::Backwards) == Some((position - offset) as nat),
        seek_destination((position - offset) as nat, duration, offset, SeekDirection::Forward) == Some(position),
{
}

/// A forward seek followed by a backward seek by the same offset returns to
/// the starting position, when the forward seek stays inside the song.
pub proof fn lemma_seek_forward_then_back(position: nat, duration: nat, offset: nat)
    requires
        position + offset <= duration,
        duration != 0,
    ensures
        seek_destination(position, duration, offset, SeekDirection::Forward) == Some(position + offset),
        seek_destination(position + offset, duration, offset, SeekDirection::Backwards) == Some(position),
{
}

/// A backward seek does not depend on the duration, known or not: it lands
/// exactly `offset` seconds earlier, or at the start when that is before it.
pub proof fn lemma_seek_backwards_ignores_duration(position: nat, duration: nat, other_duration: nat, offset: nat)
    ensures
        seek_destination(position, duration, offset, SeekDirection::Backwards)
            == seek_destination(position, other_duration, offset, SeekDirection::Backwards),
        seek_destination(position, duration, offset, SeekDirection::Backwards) matches Some(d)
            && (position >= offset ==> d + offset == position)
            && (position < offset ==> d == 0),
{
}

/// A seek never leaves the song: a backward seek lands at or before the
/// position, a forward seek lands between the position and the end.
pub proof fn lemma_seek_stays_in_song(position: nat, duration: nat, offset: nat, direction: SeekDirection)
    requires
        position <= duration,
    ensures
        seek_destination(position, duration, offset, direction) matches Some(d) ==> d <= duration,
        direction == SeekDirection::Backwards ==> (seek_destination(position, duration, offset, direction) matches Some(d) && d <= position),
        direction == SeekDirection::Forward ==> (seek_destination(position, duration, offset, direction) matches Some(d) ==> position <= d),
{
}

} // verus!
