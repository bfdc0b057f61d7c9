//! The engine's behavioural laws, stated and proved over the transition
//! table that the command contracts are phrased in: what whole command
//! sequences observe, what `stop` guarantees from every state, and the
//! bound every progress event satisfies.

use vstd::prelude::*;
use crate::engine::AudioEngine;
use crate::engine::Command;
use crate::engine::EngineError;
use crate::engine::obs_wf;
use crate::engine::state_change_event;
use crate::engine::step_events;
use crate::engine::step_obs;
use crate::engine::step_result;
use crate::event::AudioEvent;
use crate::song::Song;
use crate::state::PlaybackState;

verus! {

/// The observable (state, current song) after a whole sequence of
/// commands, folding the transition table from the left.
pub open spec fn run_obs(s: PlaybackState, song: Option<Song>, cmds: Seq<Command>) -> (
    PlaybackState,
    Option<Song>,
)
    decreases cmds.len(),
{
    if cmds.len() == 0 {
        (s, song)
    } else {
        let n = step_obs(s, song, cmds[0]);
        run_obs(n.0, n.1, cmds.drop_first())
    }
}

/// Every event a whole sequence of commands emits, in production order.
pub open spec fn run_events(s: PlaybackState, song: Option<Song>, cmds: Seq<Command>) -> Seq<
    AudioEvent,
>
    decreases cmds.len(),
{
    if cmds.len() == 0 {
        Seq::empty()
    } else {
        let n = step_obs(s, song, cmds[0]);
        step_events(s, song, cmds[0]) + run_events(n.0, n.1, cmds.drop_first())
    }
}

/// For every sequence of commands, the observable state after one more
/// command is exactly one further step of the transition table, and the
/// emitted events are exactly the table's events appended to the earlier
/// trace: observers see the table's states and events, step by step, with
/// nothing skipped and nothing invented.
pub proof fn lemma_run_snoc(s: PlaybackState, song: Option<Song>, cmds: Seq<Command>, c: Command)
    ensures
        run_obs(s, song, cmds.push(c)) == step_obs(
            run_obs(s, song, cmds).0,
            run_obs(s, song, cmds).1,
            c,
        ),
        run_events(s, song, cmds.push(c)) == run_events(s, song, cmds) + step_events(
            run_obs(s, song, cmds).0,
            run_obs(s, song, cmds).1,
            c,
        ),
    decreases cmds.len(),
{
    if cmds.len() == 0 {
        let n = step_obs(s, song, c);
        assert(cmds.push(c)[0] == c);
        assert(cmds.push(c).drop_first() =~= Seq::<Command>::empty());
        assert(run_obs(n.0, n.1, Seq::<Command>::empty()) == (n.0, n.1));
        assert(run_events(n.0, n.1, Seq::<Command>::empty()) == Seq::<AudioEvent>::empty());
        assert(run_obs(s, song, cmds) == (s, song));
        assert(run_events(s, song, cmds) == Seq::<AudioEvent>::empty());
        assert(step_events(s, song, c) + Seq::<AudioEvent>::empty() =~= step_events(s, song, c));
        assert(Seq::<AudioEvent>::empty() + step_events(s, song, c) =~= step_events(s, song, c));
    } else {
        let n = step_obs(s, song, cmds[0]);
        assert(cmds.push(c)[0] == cmds[0]);
        assert(cmds.push(c).drop_first() =~= cmds.drop_first().push(c));
        lemma_run_snoc(n.0, n.1, cmds.drop_first(), c);
        let tail_events = run_events(n.0, n.1, cmds.drop_first());
        let last_obs = run_obs(n.0, n.1, cmds.drop_first());
        assert(step_events(s, song, cmds[0]) + (tail_events + step_events(
            last_obs.0,
            last_obs.1,
            c,
        )) =~= (step_events(s, song, cmds[0]) + tail_events) + step_events(
            last_obs.0,
            last_obs.1,
            c,
        ));
    }
}

/// One step of the transition table keeps the observable pair consistent
/// (a song associated exactly while active), and every event it emits is
/// well-formed — in particular, a state-change event names a song exactly
/// when its state is an active one.
pub proof fn lemma_step_preserves_obs_wf(s: PlaybackState, song: Option<Song>, c: Command)
    requires
        obs_wf(s, song),
    ensures
        obs_wf(step_obs(s, song, c).0, step_obs(s, song, c).1),
        forall|i: int| 0 <= i < step_events(s, song, c).len() ==> #[trigger] step_events(
            s,
            song,
            c,
        )[i].wf(),
{
}

/// Consistency holds after any whole command sequence, and every event in
/// its trace is well-formed.
pub proof fn lemma_run_preserves_obs_wf(s: PlaybackState, song: Option<Song>, cmds: Seq<Command>)
    requires
        obs_wf(s, song),
    ensures
        obs_wf(run_obs(s, song, cmds).0, run_obs(s, song, cmds).1),
        forall|i: int| 0 <= i < run_events(s, song, cmds).len() ==> #[trigger] run_events(
            s,
            song,
            cmds,
        )[i].wf(),
    decreases cmds.len(),
{
    if cmds.len() > 0 {
        let n = step_obs(s, song, cmds[0]);
        lemma_step_preserves_obs_wf(s, song, cmds[0]);
        lemma_run_preserves_obs_wf(n.0, n.1, cmds.drop_first());
        assert forall|i: int| 0 <= i < run_events(s, song, cmds).len() implies #[trigger] run_events(
            s,
            song,
            cmds,
        )[i].wf() by {
            let head = step_events(s, song, cmds[0]);
            let tail = run_events(n.0, n.1, cmds.drop_first());
            if i < head.len() {
                assert(run_events(s, song, cmds)[i] == head[i]);
            } else {
                assert(run_events(s, song, cmds)[i] == tail[i - head.len()]);
            }
        }
    }
}

/// `stop` from any state: the table lands in `Stopped` with no current
/// song, succeeds, and emits exactly one state-change event, announcing
/// `Stopped` with no song.
pub proof fn lemma_stop_universal(s: PlaybackState, song: Option<Song>)
    ensures
        step_obs(s, song, Command::Stop) == (PlaybackState::Stopped, None::<Song>),
        step_result(s, song, Command::Stop) == Ok::<(), EngineError>(()),
        step_events(s, song, Command::Stop).len() == 1,
        step_events(s, song, Command::Stop)[0] == state_change_event(
            PlaybackState::Stopped,
            None,
        ),
{
}

/// Every progress event a valid engine has ever buffered satisfies
/// `0 <= current_time <= total_time` (the lower bound by the type, the
/// upper bound by event well-formedness).
pub proof fn lemma_progress_events_bounded(e: AudioEngine)
    requires
        e.wf(),
    ensures
        forall|i: int|
            0 <= i < e.channel.queue@.len() && (#[trigger] e.channel.queue@[i]) is ProgressUpdated
                ==> e.channel.queue@[i]->current_time <= e.channel.queue@[i]->total_time,
{
}

} // verus!
