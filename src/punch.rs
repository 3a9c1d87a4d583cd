//! The three-stage hole-punching handshake as a state machine. The caller
//! sends the current stage message, waits briefly for a reply, and hands
//! what arrived to [`PunchState::step`], which says what to do next. After
//! the handshake, [`drain_step`] decides about each message still queued.
use vstd::prelude::*;
use crate::err::ErrorKind;

verus! {

/// Hop limit used for stage messages during the handshake.
pub const REQUEST_MSG_TTL: u32 = 32;

/// Default number of silent rounds tolerated before giving up.
pub const DEFAULT_RETRIES: u16 = 1000;

#[derive(Debug, Clone, Copy, PartialEq, Eq, Structural)]
pub enum Stage {
    A,
    B,
    C,
}

/// The tag that follows the stage letter: `p2p\0req\0`.
pub open spec fn p2p_req_tag() -> Seq<u8> {
    seq![0x70u8, 0x32, 0x70, 0x00, 0x72, 0x65, 0x71, 0x00]
}

pub open spec fn stage_letter(s: Stage) -> u8 {
    match s {
        Stage::A => 0x61u8,
        Stage::B => 0x62u8,
        Stage::C => 0x63u8,
    }
}

/// The message of a stage: its letter, a zero byte, then the tag.
pub open spec fn stage_bytes(s: Stage) -> Seq<u8> {
    seq![stage_letter(s), 0x00u8] + p2p_req_tag()
}

/// The message sent for stage `s`.
pub fn stage_message(s: Stage) -> (r: Vec<u8>)
    ensures
        r@ == stage_bytes(s),
{
    let letter: u8 = match s {
        Stage::A => 0x61,
        Stage::B => 0x62,
        Stage::C => 0x63,
    };
    let r: Vec<u8> = vec![letter, 0x00, 0x70, 0x32, 0x70, 0x00, 0x72, 0x65, 0x71, 0x00];
    assert(r@ =~= stage_bytes(s));
    r
}

/// The stage whose message `msg` is, if any.
pub open spec fn stage_of(msg: Seq<u8>) -> Option<Stage> {
    if msg == stage_bytes(Stage::A) {
        Some(Stage::A)
    } else if msg == stage_bytes(Stage::B) {
        Some(Stage::B)
    } else if msg == stage_bytes(Stage::C) {
        Some(Stage::C)
    } else {
        None
    }
}

/// Tells which stage message, if any, `msg` is.
pub fn classify(msg: &[u8]) -> (r: Option<Stage>)
    ensures
        r == stage_of(msg@),
{
    if msg.len() != 10 {
        assert(stage_bytes(Stage::A).len() == 10);
        return None;
    }
    let mut k: usize = 2;
    while k < 10
        invariant
            msg@.len() == 10,
            2 <= k <= 10,
            forall|t: int| 2 <= t < k ==> msg@[t] == p2p_req_tag()[t - 2],
        decreases 10 - k,
    {
        let expected: u8 = match k {
            2 => 0x70,
            3 => 0x32,
            4 => 0x70,
            5 => 0x00,
            6 => 0x72,
            7 => 0x65,
            8 => 0x71,
            _ => 0x00,
        };
        if msg[k] != expected {
            proof {
                assert forall|s: Stage| msg@ != #[trigger] stage_bytes(s) by {
                    assert(stage_bytes(s)[k as int] == p2p_req_tag()[k - 2]);
                }
            }
            return None;
        }
        k = k + 1;
    }
    if msg[1] != 0 {
        proof {
            assert forall|s: Stage| msg@ != #[trigger] stage_bytes(s) by {
                assert(stage_bytes(s)[1] == 0);
            }
        }
        return None;
    }
    let letter = msg[0];
    if letter == 0x61 {
        assert(msg@ =~= stage_bytes(Stage::A));
        Some(Stage::A)
    } else if letter == 0x62 {
        assert(msg@ =~= stage_bytes(Stage::B));
        assert(msg@ != stage_bytes(Stage::A));
        Some(Stage::B)
    } else if letter == 0x63 {
        assert(msg@ =~= stage_bytes(Stage::C));
        assert(msg@ != stage_bytes(Stage::A));
        assert(msg@ != stage_bytes(Stage::B));
        Some(Stage::C)
    } else {
        proof {
            assert forall|s: Stage| msg@ != #[trigger] stage_bytes(s) by {
                assert(stage_bytes(s)[0] == stage_letter(s));
            }
        }
        None
    }
}

/// What the caller does after a round of the handshake.
#[derive(Debug, Clone, Copy, PartialEq, Eq, Structural)]
pub enum PunchAction {
    /// Send the current stage message again and wait for a reply.
    Continue,
    /// Send the stage C message once more, then drain.
    Finish,
    /// Give up: restore the hop limit and report this error.
    Fail(ErrorKind),
}

/// The handshake state: the stage being sent and the rounds left.
#[derive(Debug, Clone, Copy, PartialEq, Eq, Structural)]
pub struct PunchState {
    pub msg: Stage,
    pub left: u16,
    pub retries: u16,
}

/// One round of the handshake. `received` is `None` when nothing came from
/// the peer in this round, `Some(stage_of(payload))` when a message did.
pub open spec fn punch_next(st: PunchState, received: Option<Option<Stage>>) -> (PunchState, PunchAction) {
    let (st1, early) = match received {
        None => (st, None),
        Some(None) => (st, Some(PunchAction::Fail(ErrorKind::InvalidInput))),
        Some(Some(Stage::A)) => (PunchState { msg: Stage::B, left: st.retries, ..st }, None),
        Some(Some(Stage::B)) => (PunchState { msg: Stage::C, left: st.retries, ..st }, None),
        Some(Some(Stage::C)) => if st.msg == Stage::C {
            (st, Some(PunchAction::Finish))
        } else {
            (PunchState { msg: Stage::C, left: st.retries, ..st }, None)
        },
    };
    match early {
        Some(a) => (st1, a),
        None => if st1.left == 0 {
            (st1, PunchAction::Fail(ErrorKind::TimedOut))
        } else {
            (PunchState { left: (st1.left - 1) as u16, ..st1 }, PunchAction::Continue)
        },
    }
}

impl PunchState {
    /// The state before the first round: stage A, the whole budget left.
    pub fn new(retries: u16) -> (r: PunchState)
        ensures
            r == (PunchState { msg: Stage::A, left: retries, retries }),
    {
        PunchState { msg: Stage::A, left: retries, retries }
    }

    /// Takes what arrived in one round and says what to do next: a stage
    /// message moves the handshake forward and restores the budget, any
    /// other message from the peer fails it, and a silent round uses up one
    /// unit of the budget.
    pub fn step(&mut self, from_peer: bool, payload: &[u8]) -> (r: PunchAction)
        ensures
            (*final(self), r) == punch_next(*old(self), if from_peer { Some(stage_of(payload@)) } else { None }),
    {
        if from_peer {
            match classify(payload) {
                None => return PunchAction::Fail(ErrorKind::InvalidInput),
                Some(Stage::A) => {
                    self.msg = Stage::B;
                    self.left = self.retries;
                },
                Some(Stage::B) => {
                    self.msg = Stage::C;
                    self.left = self.retries;
                },
                Some(Stage::C) => {
                    if self.msg == Stage::C {
                        return PunchAction::Finish;
                    }
                    self.msg = Stage::C;
                    self.left = self.retries;
                },
            }
        }
        if self.left == 0 {
            PunchAction::Fail(ErrorKind::TimedOut)
        } else {
            self.left = self.left - 1;
            PunchAction::Continue
        }
    }
}

/// What the caller does with the message at the head of the queue after
/// the handshake.
#[derive(Debug, Clone, Copy, PartialEq, Eq, Structural)]
pub enum DrainAction {
    /// A late stage C message: take it off the queue and look again.
    Consume,
    /// A message from elsewhere: take it off the queue and look again.
    Skip,
    /// The handshake is complete; leave the queue as it is.
    Done,
    /// Stage order was broken.
    Fail(ErrorKind),
}

pub open spec fn drain_next(peeked: Option<(bool, Option<Stage>)>) -> DrainAction {
    match peeked {
        None => DrainAction::Done,
        Some((false, _)) => DrainAction::Skip,
        Some((true, Some(Stage::A))) => DrainAction::Fail(ErrorKind::BrokenPipe),
        Some((true, Some(Stage::B))) => DrainAction::Fail(ErrorKind::BrokenPipe),
        Some((true, Some(Stage::C))) => DrainAction::Consume,
        Some((true, None)) => DrainAction::Done,
    }
}

/// Decides about the message at the head of the queue after the handshake.
/// `timed_out` means that nothing arrived within the short wait.
pub fn drain_step(timed_out: bool, from_peer: bool, payload: &[u8]) -> (r: DrainAction)
    ensures
        r == drain_next(if timed_out { None } else { Some((from_peer, stage_of(payload@))) }),
{
    if timed_out {
        return DrainAction::Done;
    }
    if !from_peer {
        return DrainAction::Skip;
    }
    match classify(payload) {
        Some(Stage::A) => DrainAction::Fail(ErrorKind::BrokenPipe),
        Some(Stage::B) => DrainAction::Fail(ErrorKind::BrokenPipe),
        Some(Stage::C) => DrainAction::Consume,
        None => DrainAction::Done,
    }
}

/// Two peers that start together and each receive, every round, the
/// message the other sent in that round, both finish in the third round.
pub proof fn lemma_lockstep_handshake(retries: u16)
    requires
        retries >= 2,
    ensures
        ({
            let s0 = (PunchState { msg: Stage::A, left: retries, retries });
            let (s1, a1) = punch_next(s0, Some(Some(s0.msg)));
            let (s2, a2) = punch_next(s1, Some(Some(s1.msg)));
            let (s3, a3) = punch_next(s2, Some(Some(s2.msg)));
            a1 == PunchAction::Continue && a2 == PunchAction::Continue && a3 == PunchAction::Finish
        }),
{
}

} // verus!
