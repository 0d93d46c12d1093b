use vstd::prelude::*;
use crate::cue::{AudioCommand, KeyEdges};
use crate::session::Session;
use crate::timer::CUE_INTERVAL_NANOS;

verus! {

/// The inputs of one tick: whether the loop is active, the time since the
/// previous tick in nanoseconds, the key edges, and the draw that picks a cue
/// should one be emitted.
#[derive(PartialEq, Eq, Structural, Clone, Copy, Debug)]
pub struct Tick {
    pub active: bool,
    pub delta: u64,
    pub keys: KeyEdges,
    pub choice: u32,
}

/// The session after the ticks, in order.
pub open spec fn run(s: Session, ticks: Seq<Tick>) -> Session
    decreases ticks.len(),
{
    if ticks.len() == 0 {
        s
    } else {
        let t = ticks.last();
        run(s, ticks.drop_last()).next(t.active, t.delta, t.keys, t.choice)
    }
}

/// The time during which the loop was active over the ticks.
pub open spec fn active_time(ticks: Seq<Tick>) -> int
    decreases ticks.len(),
{
    if ticks.len() == 0 {
        0
    } else {
        active_time(ticks.drop_last()) + if ticks.last().active {
            ticks.last().delta as int
        } else {
            0
        }
    }
}

/// Whether tick `i` emits a cue when the ticks run from `s`.
pub open spec fn emits_at(s: Session, ticks: Seq<Tick>, i: int) -> bool {
    ticks[i].active && run(s, ticks.take(i)).emits(ticks[i].delta)
}

/// While the loop is inactive nothing changes: not the score, not the
/// pending cue, not the timer, however many ticks go by.
pub proof fn lemma_inactive_ticks_change_nothing(s: Session, ticks: Seq<Tick>)
    requires
        forall|i: int| 0 <= i < ticks.len() ==> !(#[trigger] ticks[i]).active,
    ensures
        run(s, ticks) == s,
    decreases ticks.len(),
{
    if ticks.len() > 0 {
        let rest = ticks.drop_last();
        assert forall|i: int| 0 <= i < rest.len() implies !(#[trigger] rest[i]).active by {
            assert(rest[i] == ticks[i]);
        }
        lemma_inactive_ticks_change_nothing(s, rest);
        assert(!ticks[ticks.len() - 1].active);
    }
}

/// From a session whose slot was just emptied (or a fresh one), as long as no
/// cue is emitted the slot stays empty and the timer holds the active time
/// gone by.
proof fn lemma_quiet_prefix(s: Session, ticks: Seq<Tick>, k: int)
    requires
        s.wf(),
        s.command == AudioCommand::NoCommand,
        s.timer.elapsed == 0,
        0 <= k <= ticks.len(),
        forall|i: int| 0 <= i < k ==> !#[trigger] emits_at(s, ticks, i),
    ensures
        run(s, ticks.take(k)).command == AudioCommand::NoCommand,
        run(s, ticks.take(k)).timer.elapsed == active_time(ticks.take(k)),
        run(s, ticks.take(k)).wf(),
    decreases k,
{
    if k == 0 {
        assert(ticks.take(0) =~= Seq::<Tick>::empty());
    } else {
        lemma_quiet_prefix(s, ticks, k - 1);
        let pre = ticks.take(k);
        assert(pre.drop_last() =~= ticks.take(k - 1));
        assert(pre.last() == ticks[k - 1]);
        assert(!emits_at(s, ticks, k - 1));
        let p = run(s, ticks.take(k - 1));
        let t = ticks[k - 1];
        if t.active {
            assert(!p.timer.finishes(t.delta));
            vstd::arithmetic::div_mod::lemma_small_mod(
                (p.timer.elapsed + t.delta) as nat,
                CUE_INTERVAL_NANOS as nat,
            );
        }
    }
}

/// A cue is emitted only from an empty slot, and only once the loop has been
/// active for a full interval since the slot was last emptied (or since the
/// session began): from such a session, the first tick that emits ends a
/// stretch of at least `CUE_INTERVAL_NANOS` of active time.
pub proof fn lemma_cue_needs_full_interval(s: Session, ticks: Seq<Tick>)
    requires
        s.wf(),
        s.command == AudioCommand::NoCommand,
        s.timer.elapsed == 0,
        ticks.len() > 0,
        forall|i: int| 0 <= i < ticks.len() - 1 ==> !#[trigger] emits_at(s, ticks, i),
        emits_at(s, ticks, ticks.len() - 1),
    ensures
        active_time(ticks) >= CUE_INTERVAL_NANOS,
        run(s, ticks.take(ticks.len() - 1)).command == AudioCommand::NoCommand,
{
    let k = ticks.len() - 1;
    lemma_quiet_prefix(s, ticks, k);
    assert(ticks.drop_last() =~= ticks.take(k));
}

} // verus!
