//! Player stage: gathers audio into playable chunks and detects the end of a
//! spoken turn by silence.
use crate::buffer::{bytes_into_vec, bytes_mut_contents};
use bytes::BytesMut;
use vstd::prelude::*;

verus! {

/// What the player does on a timer tick.
#[derive(Debug)]
pub enum TickAction {
    /// Keep going.
    Wait,
    /// The turn is over: play these remaining bytes (if any), wait for the
    /// device to drain, then report the end of the turn.
    EndTurn(Vec<u8>),
}

/// Milliseconds from `since` to `now`; zero if the clock reads earlier.
pub open spec fn elapsed(now: u64, since: u64) -> nat {
    if now >= since {
        (now - since) as nat
    } else {
        0
    }
}

/// Whether a tick ends the turn: audio has played since the last turn ended,
/// a whole interval has passed since the last chunk went to the device, and
/// the device has nothing queued.
pub open spec fn turn_ended(has_played: bool, now: u64, last_play: u64, interval: u64, queue_empty: bool) -> bool {
    has_played && elapsed(now, last_play) >= interval && queue_empty
}

pub struct Player {
    pending: BytesMut,
    has_played: bool,
    last_play_ms: u64,
    threshold: usize,
    interval_ms: u64,
}

impl Player {
    /// Audio bytes received and not yet handed to the device.
    pub closed spec fn pending(&self) -> Seq<u8> {
        bytes_mut_contents(self.pending)
    }

    /// Whether audio has played since the last turn ended.
    pub closed spec fn has_played(&self) -> bool {
        self.has_played
    }

    /// When the last chunk went to the device, in milliseconds.
    pub closed spec fn last_play(&self) -> u64 {
        self.last_play_ms
    }

    /// Size of a playable chunk; more than this many pending bytes make one.
    pub closed spec fn threshold(&self) -> nat {
        self.threshold as nat
    }

    /// Length of the silence that ends a turn, in milliseconds.
    pub closed spec fn interval(&self) -> u64 {
        self.interval_ms
    }

    pub fn new(threshold: usize, interval_ms: u64, now_ms: u64) -> (p: Self)
        ensures
            p.pending() == Seq::<u8>::empty(),
            !p.has_played(),
            p.last_play() == now_ms,
            p.threshold() == threshold,
            p.interval() == interval_ms,
    {
        Player {
            pending: BytesMut::new(),
            has_played: false,
            last_play_ms: now_ms,
            threshold,
            interval_ms,
        }
    }

    /// Takes audio bytes. Once more than a chunk's worth is pending, the
    /// first chunk is split off and returned for decoding and playing.
    pub fn on_audio(&mut self, data: &[u8]) -> (r: Option<Vec<u8>>)
        requires
            old(self).pending().len() + data@.len() <= isize::MAX,
        ensures
            final(self).has_played() == old(self).has_played(),
            final(self).last_play() == old(self).last_play(),
            final(self).threshold() == old(self).threshold(),
            final(self).interval() == old(self).interval(),
            ({
                let all = old(self).pending() + data@;
                let t = old(self).threshold() as int;
                if all.len() > t {
                    &&& r matches Some(c) && c@ == all.subrange(0, t)
                    &&& final(self).pending() == all.subrange(t, all.len() as int)
                } else {
                    &&& r is None
                    &&& final(self).pending() == all
                }
            }),
    {
        self.pending.extend_from_slice(data);
        if self.pending.len() > self.threshold {
            let chunk = self.pending.split_to(self.threshold);
            Some(bytes_into_vec(chunk.freeze()))
        } else {
            None
        }
    }

    /// The number of audio bytes pending.
    pub fn pending_len(&self) -> (r: usize)
        ensures
            r == self.pending().len(),
    {
        self.pending.len()
    }

    /// Hands out every pending byte.
    fn take_pending(&mut self) -> (r: Vec<u8>)
        ensures
            r@ == old(self).pending(),
            final(self).pending() == Seq::<u8>::empty(),
            final(self).has_played() == old(self).has_played(),
            final(self).last_play() == old(self).last_play(),
            final(self).threshold() == old(self).threshold(),
            final(self).interval() == old(self).interval(),
    {
        let n = self.pending.len();
        let all = self.pending.split_to(n);
        assert(bytes_mut_contents(self.pending) =~= Seq::<u8>::empty());
        assert(bytes_mut_contents(all) =~= old(self).pending());
        bytes_into_vec(all.freeze())
    }

    /// Records that a chunk went to the device at `now_ms`.
    pub fn on_played(&mut self, now_ms: u64)
        ensures
            final(self).pending() == old(self).pending(),
            final(self).has_played(),
            final(self).last_play() == now_ms,
            final(self).threshold() == old(self).threshold(),
            final(self).interval() == old(self).interval(),
    {
        self.has_played = true;
        self.last_play_ms = now_ms;
    }

    /// Takes a timer tick at `now_ms`, with whether the device's queue is
    /// empty. When the turn has ended, the remaining bytes are handed out and
    /// the player waits for new audio before it can end another turn.
    pub fn on_tick(&mut self, now_ms: u64, queue_empty: bool) -> (r: TickAction)
        ensures
            final(self).last_play() == old(self).last_play(),
            final(self).threshold() == old(self).threshold(),
            final(self).interval() == old(self).interval(),
            if turn_ended(old(self).has_played(), now_ms, old(self).last_play(), old(self).interval(), queue_empty) {
                &&& r matches TickAction::EndTurn(rest) && rest@ == old(self).pending()
                &&& final(self).pending() == Seq::<u8>::empty()
                &&& !final(self).has_played()
            } else {
                &&& r is Wait
                &&& final(self).pending() == old(self).pending()
                &&& final(self).has_played() == old(self).has_played()
            },
    {
        let elapsed: u64 = if now_ms >= self.last_play_ms {
            now_ms - self.last_play_ms
        } else {
            0
        };
        if self.has_played && elapsed >= self.interval_ms && queue_empty {
            let rest = self.take_pending();
            self.has_played = false;
            TickAction::EndTurn(rest)
        } else {
            TickAction::Wait
        }
    }

    /// At the end of the audio stream: the bytes still pending, to be played
    /// before the player stops.
    pub fn finish(&mut self) -> (r: Vec<u8>)
        ensures
            r@ == old(self).pending(),
            final(self).pending() == Seq::<u8>::empty(),
            final(self).has_played() == old(self).has_played(),
            final(self).last_play() == old(self).last_play(),
            final(self).threshold() == old(self).threshold(),
            final(self).interval() == old(self).interval(),
    {
        self.take_pending()
    }
}

/// Which of `ticks` (a time, and whether the device's queue is empty) end
/// the turn, for a player that starts with the given `has_played` flag and
/// sends no chunk to the device in between.
pub open spec fn tick_ends(has_played: bool, last_play: u64, interval: u64, ticks: Seq<(u64, bool)>) -> Seq<bool>
    decreases ticks.len(),
{
    if ticks.len() == 0 {
        Seq::empty()
    } else {
        let e = turn_ended(has_played, ticks[0].0, last_play, interval, ticks[0].1);
        seq![e] + tick_ends(has_played && !e, last_play, interval, ticks.drop_first())
    }
}

/// A player that has not played since its last turn ended reports no end
/// of turn, whatever ticks come.
pub proof fn lemma_no_turn_without_audio(last_play: u64, interval: u64, ticks: Seq<(u64, bool)>)
    ensures
        tick_ends(false, last_play, interval, ticks).len() == ticks.len(),
        forall|i: int| 0 <= i < ticks.len() ==> !#[trigger] tick_ends(false, last_play, interval, ticks)[i],
    decreases ticks.len(),
{
    if ticks.len() > 0 {
        lemma_no_turn_without_audio(last_play, interval, ticks.drop_first());
        let rest = tick_ends(false, last_play, interval, ticks.drop_first());
        assert forall|i: int| 0 <= i < ticks.len() implies !#[trigger] tick_ends(false, last_play, interval, ticks)[i] by {
            if i > 0 {
                assert(tick_ends(false, last_play, interval, ticks)[i] == rest[i - 1]);
            }
        }
    }
}

/// After audio has played, and while no more goes to the device, the end of
/// the turn is reported exactly once: at the first tick at which a whole
/// interval has passed since the last chunk went to the device and the
/// device's queue is empty, and at no other tick.
pub proof fn lemma_turn_reported_once(last_play: u64, interval: u64, ticks: Seq<(u64, bool)>)
    ensures
        tick_ends(true, last_play, interval, ticks).len() == ticks.len(),
        forall|i: int| 0 <= i < ticks.len() ==> (#[trigger] tick_ends(true, last_play, interval, ticks)[i] <==> (
            turn_ended(true, ticks[i].0, last_play, interval, ticks[i].1) && forall|j: int| 0 <= j < i
                ==> !turn_ended(true, #[trigger] ticks[j].0, last_play, interval, ticks[j].1))),
    decreases ticks.len(),
{
    if ticks.len() > 0 {
        let tail = ticks.drop_first();
        let all = tick_ends(true, last_play, interval, ticks);
        let e0 = turn_ended(true, ticks[0].0, last_play, interval, ticks[0].1);
        if e0 {
            lemma_no_turn_without_audio(last_play, interval, tail);
            let rest = tick_ends(false, last_play, interval, tail);
            assert forall|i: int| 0 <= i < ticks.len() implies (#[trigger] all[i] <==> (turn_ended(
                true,
                ticks[i].0,
                last_play,
                interval,
                ticks[i].1,
            ) && forall|j: int| 0 <= j < i ==> !turn_ended(true, #[trigger] ticks[j].0, last_play, interval, ticks[j].1))) by {
                if i > 0 {
                    assert(all[i] == rest[i - 1]);
                    assert(!rest[i - 1]);
                    assert(turn_ended(true, ticks[0].0, last_play, interval, ticks[0].1));
                }
            }
        } else {
            lemma_turn_reported_once(last_play, interval, tail);
            let rest = tick_ends(true, last_play, interval, tail);
            assert forall|i: int| 0 <= i < ticks.len() implies (#[trigger] all[i] <==> (turn_ended(
                true,
                ticks[i].0,
                last_play,
                interval,
                ticks[i].1,
            ) && forall|j: int| 0 <= j < i ==> !turn_ended(true, #[trigger] ticks[j].0, last_play, interval, ticks[j].1))) by {
                if i > 0 {
                    assert(all[i] == rest[i - 1]);
                    assert(tail[i - 1] == ticks[i]);
                    assert forall|j: int| 0 <= j < i - 1 implies #[trigger] tail[j] == ticks[j + 1] by {}
                    if rest[i - 1] {
                        assert forall|j: int| 0 <= j < i implies !turn_ended(true, #[trigger] ticks[j].0, last_play, interval, ticks[j].1) by {
                            if j > 0 {
                                assert(tail[j - 1] == ticks[j]);
                            }
                        }
                    } else if turn_ended(true, ticks[i].0, last_play, interval, ticks[i].1) {
                        let j = choose|j: int| 0 <= j < i - 1 && turn_ended(true, #[trigger] tail[j].0, last_play, interval, tail[j].1);
                        assert(tail[j] == ticks[j + 1]);
                    }
                }
            }
        }
    }
}

} // verus!
