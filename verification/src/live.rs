//! The live state: the readiness flag, the latest packet and the bounded
//! rolling history that the HTTP surface reads.

use vstd::prelude::*;
use crate::types::WeatherPacket;

verus! {

/// The largest number of packets the history holds.
pub const HISTORY_CAP: usize = 1000;

/// The number of packets a history request returns when it names no limit.
pub const DEFAULT_HISTORY_LIMIT: usize = 100;

/// The last `cap` elements of `s`, or all of `s` if it has no more.
pub open spec fn keep_last<T>(s: Seq<T>, cap: int) -> Seq<T> {
    if s.len() <= cap {
        s
    } else {
        s.subrange(s.len() - cap, s.len() as int)
    }
}

/// The number of packets a history request with the given limit may return:
/// the limit, or the default where none is given, and never more than the
/// history can hold.
pub open spec fn effective_limit(limit: Option<usize>) -> int {
    let asked = match limit {
        Some(n) => n as int,
        None => DEFAULT_HISTORY_LIMIT as int,
    };
    if asked <= HISTORY_CAP as int {
        asked
    } else {
        HISTORY_CAP as int
    }
}

/// The history after one more packet: appended, and the oldest dropped
/// beyond the cap.
pub open spec fn history_with(history: Seq<WeatherPacket>, packet: WeatherPacket) -> Seq<
    WeatherPacket,
> {
    keep_last(history.push(packet), HISTORY_CAP as int)
}

/// The history after a run of packets, each injected in turn.
pub open spec fn history_after(history: Seq<WeatherPacket>, packets: Seq<WeatherPacket>) -> Seq<
    WeatherPacket,
>
    decreases packets.len(),
{
    if packets.len() == 0 {
        history
    } else {
        history_with(history_after(history, packets.drop_last()), packets.last())
    }
}

/// After any run of packets injected into an empty live state, the history
/// holds the last thousand of them, or all if there are fewer, in arrival
/// order.
pub proof fn lemma_history_holds_latest(packets: Seq<WeatherPacket>)
    ensures
        history_after(Seq::empty(), packets) == keep_last(packets, HISTORY_CAP as int),
        history_after(Seq::empty(), packets).len() == if packets.len() <= HISTORY_CAP {
            packets.len()
        } else {
            HISTORY_CAP as nat
        },
    decreases packets.len(),
{
    if packets.len() > 0 {
        let init = packets.drop_last();
        lemma_history_holds_latest(init);
        assert(init.push(packets.last()) =~= packets);
        assert(history_with(keep_last(init, HISTORY_CAP as int), packets.last()) =~= keep_last(
            packets,
            HISTORY_CAP as int,
        ));
    }
}

/// The in-memory state behind the HTTP surface.
pub struct AppState {
    ready: bool,
    latest: Option<WeatherPacket>,
    history: Vec<WeatherPacket>,
}

impl AppState {
    /// The readiness flag.
    pub closed spec fn ready(&self) -> bool {
        self.ready
    }

    /// The most recently injected packet, if any.
    pub closed spec fn latest(&self) -> Option<WeatherPacket> {
        self.latest
    }

    /// The retained packets, oldest first.
    pub closed spec fn packets(&self) -> Seq<WeatherPacket> {
        self.history@
    }

    /// The history is within its cap, every held packet is well formed, and
    /// the latest packet, when set, equals the newest of the history.
    pub closed spec fn wf(&self) -> bool {
        &&& self.history@.len() <= HISTORY_CAP
        &&& forall|j: int| 0 <= j < self.history@.len() ==> (#[trigger] self.history@[j]).wf()
        &&& match self.latest {
            Some(p) => p.wf() && self.history@.len() > 0 && p@ == self.history@.last()@,
            None => self.history@.len() == 0,
        }
    }

    /// In every well-formed state the history is within its cap, and the
    /// latest packet is set exactly when the history is not empty and then
    /// equals its newest entry.
    pub proof fn lemma_latest_is_newest(&self)
        requires
            self.wf(),
        ensures
            self.packets().len() <= HISTORY_CAP,
            self.latest().is_some() == (self.packets().len() > 0),
            self.latest().is_some() ==> self.latest().unwrap()@ == self.packets().last()@,
    {
    }

    /// A state that is not ready and holds no packet.
    pub fn new() -> (s: Self)
        ensures
            s.wf(),
            !s.ready(),
            s.latest().is_none(),
            s.packets() == Seq::<WeatherPacket>::empty(),
    {
        AppState { ready: false, latest: None, history: Vec::new() }
    }

    /// Whether the service has been marked ready.
    pub fn is_ready(&self) -> (b: bool)
        ensures
            b == self.ready(),
    {
        self.ready
    }

    /// The status of the readiness probe: 200 once ready, 503 before.
    pub fn readyz(&self) -> (status: u16)
        ensures
            status == if self.ready() {
                200u16
            } else {
                503u16
            },
    {
        if self.ready {
            200
        } else {
            503
        }
    }

    /// The latest packet, if one was injected.
    pub fn current(&self) -> (r: Option<&WeatherPacket>)
        ensures
            match r {
                Some(p) => self.latest() == Some(*p),
                None => self.latest().is_none(),
            },
    {
        match &self.latest {
            Some(p) => Some(p),
            None => None,
        }
    }

    /// The status of a request for the latest packet: 200 where there is
    /// one, 204 where none was injected yet.
    pub fn current_status(&self) -> (status: u16)
        ensures
            status == if self.latest().is_some() {
                200u16
            } else {
                204u16
            },
    {
        if self.latest.is_some() {
            200
        } else {
            204
        }
    }

    /// The number of retained packets.
    pub fn history_len(&self) -> (n: usize)
        ensures
            n == self.packets().len(),
    {
        self.history.len()
    }

    /// Copies of the most recent packets, oldest first: as many as the limit
    /// allows, the limit defaulting to a hundred and capped at a thousand.
    pub fn history(&self, limit: Option<usize>) -> (r: Vec<WeatherPacket>)
        requires
            self.wf(),
        ensures
            r@.len() == keep_last(self.packets(), effective_limit(limit)).len(),
            forall|j: int|
                0 <= j < r@.len() ==> (#[trigger] r@[j]).wf() && r@[j]@ == keep_last(
                    self.packets(),
                    effective_limit(limit),
                )[j]@,
    {
        let asked: usize = match limit {
            Some(n) => n,
            None => DEFAULT_HISTORY_LIMIT,
        };
        let bounded: usize = if asked <= HISTORY_CAP {
            asked
        } else {
            HISTORY_CAP
        };
        let len: usize = self.history.len();
        let start: usize = if len >= bounded {
            len - bounded
        } else {
            0
        };
        let ghost window = keep_last(self.packets(), effective_limit(limit));
        assert(window =~= self.history@.subrange(start as int, len as int));
        let mut r: Vec<WeatherPacket> = Vec::new();
        let mut i: usize = start;
        while i < len
            invariant
                self.wf(),
                len == self.history@.len(),
                start <= i <= len,
                r@.len() == i - start,
                forall|j: int|
                    0 <= j < r@.len() ==> (#[trigger] r@[j]).wf() && r@[j]@ == self.history@[start
                        + j]@,
            decreases len - i,
        {
            assert(self.history@[i as int].wf());
            let copy = self.history[i].duplicate();
            r.push(copy);
            i = i + 1;
        }
        r
    }
}

/// Sets the readiness flag.
pub fn set_ready(state: &mut AppState, is_ready: bool)
    ensures
        final(state).ready() == is_ready,
        final(state).latest() == old(state).latest(),
        final(state).packets() == old(state).packets(),
        old(state).wf() ==> final(state).wf(),
{
    state.ready = is_ready;
}

/// The single write path: the packet becomes the latest one and is appended
/// to the history, whose oldest entries leave beyond the cap.
pub fn inject_packet(state: &mut AppState, packet: WeatherPacket)
    requires
        old(state).wf(),
        packet.wf(),
    ensures
        final(state).wf(),
        final(state).ready() == old(state).ready(),
        final(state).latest().is_some(),
        final(state).latest().unwrap()@ == packet@,
        final(state).packets() == history_with(old(state).packets(), packet),
{
    state.latest = Some(packet.duplicate());
    state.history.push(packet);
    while state.history.len() > HISTORY_CAP
        invariant
            state.ready == old(state).ready,
            state.latest.is_some(),
            state.latest.unwrap().wf(),
            state.latest.unwrap()@ == packet@,
            state.history@.len() > 0,
            state.history@.last() == packet,
            forall|j: int| 0 <= j < state.history@.len() ==> (#[trigger] state.history@[j]).wf(),
            keep_last(state.history@, HISTORY_CAP as int) == history_with(
                old(state).history@,
                packet,
            ),
        decreases state.history@.len(),
    {
        let ghost before = state.history@;
        state.history.remove(0);
        proof {
            assert(state.history@ =~= before.subrange(1, before.len() as int));
            assert(keep_last(state.history@, HISTORY_CAP as int) =~= keep_last(
                before,
                HISTORY_CAP as int,
            ));
        }
    }
}

} // verus!
