//! The replay/control engine's decision core: planning live transfers from
//! captured request records, classifying live responses against captured
//! expectations, the stop/halt loop of a replay phase, the handshake gating,
//! and the color-setting operation plans.
//!
//! Everything here is pure decision logic: the surrounding process owns the
//! device handle and one shared asynchronous transfer group, submits the
//! planned transfers, waits for completions, and feeds the outcomes back in.
//! (Per-endpoint listener threads with their own device sessions were the
//! rejected alternative for observing interrupt traffic: they duplicate the
//! session per thread for no gain over a single shared group.)

use vstd::prelude::*;
use crate::usb::{Packet, UrbType, TransferType, Direction};
use crate::bytes::{bytes_eq, clone_bytes};
use crate::claims::{ClaimSet, TeardownStep, teardown_spec, resolve_interface_spec,
    resolve_interface};
use crate::color::{Color, ColorPacket, FlushPacket, KeyColor, colors_bytes};
use crate::keys::{KeyType, StandardKey, GamingKey};

verus! {

/// The transport-level failure kinds the USB-access layer can report, with
/// the kernel error number each one carries in a capture record's status
/// field.
#[derive(Clone, Copy, Debug, PartialEq, Eq, Structural)]
pub enum TransportError {
    Io,
    InvalidParam,
    Access,
    NoDevice,
    NotFound,
    Busy,
    Timeout,
    Overflow,
    Pipe,
    Interrupted,
    NoMem,
    NotSupported,
    Other,
}

impl TransportError {
    /// The kernel error number conventionally reported for this failure in a
    /// capture record's status field.
    pub open spec fn errno_spec(self) -> i32 {
        match self {
            TransportError::Io => -5i32,
            TransportError::InvalidParam => -22i32,
            TransportError::Access => -13i32,
            TransportError::NoDevice => -19i32,
            TransportError::NotFound => -2i32,
            TransportError::Busy => -16i32,
            TransportError::Timeout => -110i32,
            TransportError::Overflow => -75i32,
            TransportError::Pipe => -32i32,
            TransportError::Interrupted => -4i32,
            TransportError::NoMem => -12i32,
            TransportError::NotSupported => -95i32,
            TransportError::Other => -71i32,
        }
    }

    pub fn errno(self) -> (r: i32)
        ensures
            r == self.errno_spec(),
    {
        match self {
            TransportError::Io => -5,
            TransportError::InvalidParam => -22,
            TransportError::Access => -13,
            TransportError::NoDevice => -19,
            TransportError::NotFound => -2,
            TransportError::Busy => -16,
            TransportError::Timeout => -110,
            TransportError::Overflow => -75,
            TransportError::Pipe => -32,
            TransportError::Interrupted => -4,
            TransportError::NoMem => -12,
            TransportError::NotSupported => -95,
            TransportError::Other => -71,
        }
    }

    /// Whether a capture record's completion status reports this failure.
    pub open spec fn matches_status_spec(self, status: u32) -> bool {
        status == self.errno_spec() as u32
    }

    pub fn matches_status(self, status: u32) -> (r: bool)
        ensures
            r == self.matches_status_spec(status),
    {
        status == self.errno() as u32
    }
}

/// The error kinds of the engine itself.
#[derive(Clone, Copy, Debug, PartialEq, Eq, Structural)]
pub enum ReplayError {
    /// No device matches the configured vendor and product identifiers.
    NotFound,
    /// A malformed capture record, a repeated handshake, or replaying a
    /// record that is not a submission.
    InvalidInput,
    /// A capture record or wire action out of this tool's scope.
    Unsupported,
    /// A failure reported by the USB-access layer.
    Transport(TransportError),
}

/// What one captured request asked for: how many bytes were requested and
/// which control request code it carried.
#[derive(Clone, Copy, Debug, PartialEq, Eq, Structural)]
pub struct PacketInfo {
    pub req_len: usize,
    pub b_request: u8,
}

impl PacketInfo {
    pub fn new(req_len: usize, b_request: u8) -> (r: PacketInfo)
        ensures
            r == (PacketInfo { req_len, b_request }),
    {
        PacketInfo { req_len, b_request }
    }
}

/// One transfer to submit to the live device.
#[derive(Clone, Debug)]
pub enum TransferRequest {
    Control {
        endpoint_direction: u8,
        buf: Vec<u8>,
        request_type: u8,
        request: u8,
        value: u16,
        index: u16,
    },
    Interrupt { endpoint_direction: u8, buf: Vec<u8> },
}

/// What to do with one captured record.
#[derive(Clone, Debug)]
pub enum SubmissionPlan {
    /// Not a submission record: skip it without transmitting anything.
    Dropped,
    /// Submit this transfer and expect a paired completion record.
    Transfer { request: TransferRequest, info: PacketInfo },
}

/// A zeroed response buffer of the given size.
pub fn zero_buf(n: usize) -> (r: Vec<u8>)
    ensures
        r@ == Seq::new(n as nat, |i: int| 0u8),
{
    let mut r: Vec<u8> = Vec::new();
    let mut i: usize = 0;
    while i < n
        invariant
            i <= n,
            r@.len() == i,
            forall|j: int| 0 <= j < i ==> r@[j] == 0u8,
        decreases n - i,
    {
        r.push(0u8);
        i = i + 1;
    }
    assert(r@ =~= Seq::new(n as nat, |i: int| 0u8));
    r
}

/// Whether a record's header bytes are within this tool's scope: a known
/// URB type, and for submissions a control or interrupt transfer.  Anything
/// else is a deliberate scope boundary, not an error path.
pub open spec fn record_in_scope(req: crate::usb::PacketView) -> bool {
    &&& (req.urb_type == 0x53 || req.urb_type == 0x43)
    &&& req.urb_type == 0x53 ==> (req.transfer_type == 0x01 || req.transfer_type == 0x02)
}

/// The transfer a captured submission record calls for.  An inbound control
/// transfer gets a zeroed response buffer of the captured `w_length`; an
/// outbound one carries the capture's own payload; an interrupt transfer
/// gets a zeroed buffer of the captured requested length.  The setup packet
/// reuses the capture's request type, request code, reconstructed value, and
/// its language id as the index field.
pub open spec fn is_planned_transfer(
    req: crate::usb::PacketView,
    t: TransferRequest,
    info: PacketInfo,
) -> bool {
    if req.transfer_type == 0x02 {
        &&& t matches TransferRequest::Control {
            endpoint_direction,
            buf,
            request_type,
            request,
            value,
            index,
        } && {
            &&& endpoint_direction == req.endpoint_direction
            &&& (if req.endpoint_direction & 0x80 == 0x80 {
                buf@ == Seq::new(req.w_length as nat, |i: int| 0u8)
            } else {
                buf@ == req.data
            })
            &&& request_type == req.bm_request_type
            &&& request == req.b_request
            &&& value == (req.descriptor_type as u16) << 8 | (req.descriptor_index as u16)
            &&& index == req.language_id
        }
        &&& info.req_len == (if req.endpoint_direction & 0x80 == 0x80 {
            req.w_length as int
        } else {
            req.data.len() as int
        })
        &&& info.b_request == req.b_request
    } else {
        &&& t matches TransferRequest::Interrupt { endpoint_direction, buf } && {
            &&& endpoint_direction == req.endpoint_direction
            &&& buf@ == Seq::new(req.length as nat, |i: int| 0u8)
        }
        &&& info.req_len == req.length as int
        &&& info.b_request == req.b_request
    }
}

/// Build the live transfer for one captured submission record.
///
/// A record that is not a submission cannot be replayed as live traffic and
/// is refused as invalid input.
pub fn plan_transfer(req: &Packet) -> (r: Result<(TransferRequest, PacketInfo), ReplayError>)
    requires
        record_in_scope(req@),
    ensures
        req@.urb_type == 0x43 ==> r == Err::<(TransferRequest, PacketInfo), ReplayError>(
            ReplayError::InvalidInput,
        ),
        req@.urb_type == 0x53 ==> (r matches Ok((t, info)) && is_planned_transfer(req@, t, info)),
{
    if req.get_urb_type() != UrbType::Submit {
        return Err(ReplayError::InvalidInput);
    }
    match req.get_transfer_type() {
        TransferType::Control => {
            let buf: Vec<u8>;
            if req.get_direction() == Direction::In {
                buf = zero_buf(req.get_w_length() as usize);
            } else {
                buf = clone_bytes(req.get_data());
            }
            let len = buf.len();
            Ok(
                (
                    TransferRequest::Control {
                        endpoint_direction: req.get_endpoint_direction(),
                        buf,
                        request_type: req.get_bm_request_type(),
                        request: req.get_b_request(),
                        value: req.get_value(),
                        index: req.get_language_id(),
                    },
                    PacketInfo::new(len, req.get_b_request()),
                ),
            )
        },
        TransferType::Interrupt => {
            let len = req.get_length() as usize;
            let buf = zero_buf(len);
            Ok(
                (
                    TransferRequest::Interrupt {
                        endpoint_direction: req.get_endpoint_direction(),
                        buf,
                    },
                    PacketInfo::new(len, req.get_b_request()),
                ),
            )
        },
        _ => {
            proof {
                assert(false);
            }
            Err(ReplayError::Unsupported)
        },
    }
}

/// Decide whether to replay the next captured record at all: a record that
/// is not a submission is classified as dropped without transmitting.
pub fn plan_submission(req: &Packet) -> (r: SubmissionPlan)
    requires
        record_in_scope(req@),
    ensures
        req@.urb_type == 0x43 ==> r is Dropped,
        req@.urb_type == 0x53 ==> (r matches SubmissionPlan::Transfer { request, info }
            && is_planned_transfer(req@, request, info)),
{
    if req.get_urb_type() != UrbType::Submit {
        return SubmissionPlan::Dropped;
    }
    match plan_transfer(req) {
        Ok((request, info)) => SubmissionPlan::Transfer { request, info },
        Err(_) => {
            proof {
                assert(false);
            }
            SubmissionPlan::Dropped
        },
    }
}

/// The classification of one replayed exchange against its captured
/// expectation.
#[derive(Clone, Copy, Debug, PartialEq, Eq, Structural)]
pub enum ReplayCompare {
    /// The live response matched the captured one, for this request code.
    Correct(u8),
    /// The live attempt failed exactly as the capture says it did.
    ErrorExpected(u8),
    /// The record was not a submission and nothing was transmitted.
    Dropped,
    /// The live response's bytes differ from the captured ones.
    Incorrect,
}

/// The submission-side outcome of one captured record.
#[derive(Clone, Copy, Debug, PartialEq, Eq, Structural)]
pub enum SendOutcome {
    Success { info: PacketInfo },
    Dropped,
}

/// A failed submission: what was asked and how the transport failed.
#[derive(Clone, Copy, Debug, PartialEq, Eq, Structural)]
pub struct SendFailure {
    pub info: PacketInfo,
    pub err: TransportError,
}

/// Classify one exchange: the submission outcome, the received completion,
/// and (for every exchange that transmitted) the capture's paired
/// expectation record.
///
/// A failed completion wait is a hard transport failure.  A successful
/// exchange is `Correct` exactly when the received bytes equal the captured
/// payload; a received length differing from the requested one is reported
/// by the caller but does not by itself make the exchange `Incorrect`.  A
/// failed submission is `ErrorExpected` exactly when the capture's own
/// status field reports the same failure; any other live failure is
/// propagated.
pub fn classify_exchange(
    send: &Result<SendOutcome, SendFailure>,
    recv: Result<Vec<u8>, TransportError>,
    expected: Option<&Packet>,
) -> (r: Result<ReplayCompare, ReplayError>)
    requires
        !(send matches Ok(SendOutcome::Dropped)) ==> expected is Some,
    ensures
        recv matches Err(e) ==> r == Err::<ReplayCompare, ReplayError>(ReplayError::Transport(e)),
        recv matches Ok(buf) ==> (send matches Ok(SendOutcome::Success { info }) ==> (expected
            matches Some(e) ==> r == Ok::<ReplayCompare, ReplayError>(
            if e@.data == buf@ {
                ReplayCompare::Correct(info.b_request)
            } else {
                ReplayCompare::Incorrect
            },
        ))),
        recv is Ok ==> (send matches Ok(SendOutcome::Dropped) ==> r == Ok::<
            ReplayCompare,
            ReplayError,
        >(ReplayCompare::Dropped)),
        recv is Ok ==> (send matches Err(f) ==> (expected matches Some(e) ==> r == (
        if f.err.matches_status_spec(e@.status) {
            Ok::<ReplayCompare, ReplayError>(ReplayCompare::ErrorExpected(f.info.b_request))
        } else {
            Err::<ReplayCompare, ReplayError>(ReplayError::Transport(f.err))
        }))),
{
    let buf = match recv {
        Ok(buf) => buf,
        Err(e) => {
            return Err(ReplayError::Transport(e));
        },
    };
    match send {
        Ok(SendOutcome::Success { info }) => {
            match expected {
                Some(e) => {
                    if bytes_eq(e.get_data(), &buf) {
                        Ok(ReplayCompare::Correct(info.b_request))
                    } else {
                        Ok(ReplayCompare::Incorrect)
                    }
                },
                Option::None => {
                    proof {
                        assert(false);
                    }
                    Ok(ReplayCompare::Incorrect)
                },
            }
        },
        Ok(SendOutcome::Dropped) => Ok(ReplayCompare::Dropped),
        Err(f) => {
            match expected {
                Some(e) => {
                    if f.err.matches_status(e.get_status()) {
                        Ok(ReplayCompare::ErrorExpected(f.info.b_request))
                    } else {
                        Err(ReplayError::Transport(f.err))
                    }
                },
                Option::None => {
                    proof {
                        assert(false);
                    }
                    Err(ReplayError::Transport(f.err))
                },
            }
        },
    }
}

/// When a replay phase ends on its own.
#[derive(Clone, Copy, Debug, PartialEq, Eq, Structural)]
pub enum StopRule {
    /// Replay to the end of the capture.
    Never,
    /// Stop once `Correct(request)` has been observed `count` times.
    UntilCorrectCount { request: u8, count: u8 },
}

/// What the replay loop does after one classification.
#[derive(Clone, Copy, Debug, PartialEq, Eq, Structural)]
pub enum LoopAction {
    /// Replay the next record.
    Continue,
    /// Block for one line of operator input, then replay the next record.
    AwaitOperator,
    /// The phase's stop rule is satisfied: end the phase successfully.
    Stop,
    /// An unrecoverable invalid-parameter failure: end the session.
    Abort,
}

/// Whether a failure ends the whole session rather than pausing it.
pub open spec fn is_fatal_spec(e: ReplayError) -> bool {
    e == ReplayError::InvalidInput || e == ReplayError::Transport(TransportError::InvalidParam)
}

/// Whether a classification is the one a stop rule counts.
pub open spec fn rule_hit(rule: StopRule, c: ReplayCompare) -> bool {
    rule matches StopRule::UntilCorrectCount { request, .. } && c == ReplayCompare::Correct(request)
}

/// The halt/stop policy of one replay phase: counts the rule's signature
/// classifications and decides after each step whether to go on, wait for
/// the operator, stop, or abort.
#[derive(Clone, Copy, Debug, PartialEq, Eq, Structural)]
pub struct StopLoop {
    pub rule: StopRule,
    pub seen: u8,
}

impl StopLoop {
    /// The phase has not yet reached its stop condition.
    pub open spec fn wf(self) -> bool {
        self.rule matches StopRule::UntilCorrectCount { count, .. } ==> self.seen < count
    }

    pub fn new(rule: StopRule) -> (r: StopLoop)
        requires
            rule matches StopRule::UntilCorrectCount { count, .. } ==> count >= 1,
        ensures
            r.rule == rule,
            r.seen == 0,
            r.wf(),
    {
        StopLoop { rule, seen: 0 }
    }

    /// Digest one step's outcome.
    ///
    /// A counted classification advances the phase and stops it on the
    /// rule's final occurrence.  A mismatch, or any recoverable failure,
    /// halts for one line of operator input before replay resumes.  An
    /// invalid-parameter failure ends the session.
    pub fn observe(&mut self, outcome: &Result<ReplayCompare, ReplayError>) -> (r: LoopAction)
        requires
            old(self).wf(),
        ensures
            final(self).rule == old(self).rule,
            outcome matches Ok(c) ==> (rule_hit(old(self).rule, *c) ==> (old(self).rule matches
                StopRule::UntilCorrectCount { count, .. } ==> (final(self).seen == old(self).seen
                + 1 && r == (if old(self).seen + 1 == count {
                LoopAction::Stop
            } else {
                LoopAction::Continue
            })))),
            outcome matches Ok(c) ==> (!rule_hit(old(self).rule, *c) ==> (final(self).seen == old(
                self,
            ).seen && r == (if c == ReplayCompare::Incorrect {
                LoopAction::AwaitOperator
            } else {
                LoopAction::Continue
            }))),
            outcome matches Err(e) ==> (final(self).seen == old(self).seen && r == (
            if is_fatal_spec(*e) {
                LoopAction::Abort
            } else {
                LoopAction::AwaitOperator
            })),
            r != LoopAction::Stop ==> final(self).wf(),
    {
        match outcome {
            Ok(c) => {
                match self.rule {
                    StopRule::UntilCorrectCount { request, count } => {
                        if *c == ReplayCompare::Correct(request) {
                            self.seen = self.seen + 1;
                            if self.seen == count {
                                return LoopAction::Stop;
                            }
                            return LoopAction::Continue;
                        }
                    },
                    StopRule::Never => {},
                }
                if *c == ReplayCompare::Incorrect {
                    LoopAction::AwaitOperator
                } else {
                    LoopAction::Continue
                }
            },
            Err(e) => {
                if *e == ReplayError::InvalidInput || *e == ReplayError::Transport(
                    TransportError::InvalidParam,
                ) {
                    LoopAction::Abort
                } else {
                    LoopAction::AwaitOperator
                }
            },
        }
    }
}

/// How many classifications of a sequence are `Correct(request)`.
pub open spec fn count_correct(s: Seq<ReplayCompare>, request: u8) -> int
    decreases s.len(),
{
    if s.len() == 0 {
        0
    } else {
        (if s[0] == ReplayCompare::Correct(request) {
            1int
        } else {
            0int
        }) + count_correct(s.skip(1), request)
    }
}

/// Adds a constant to the value inside an optional index.
pub open spec fn opt_add(o: Option<int>, k: int) -> Option<int> {
    match o {
        Some(v) => Some(v + k),
        None => None,
    }
}

/// How many classifications a phase with rule `UntilCorrectCount(request,
/// target)` consumes before stopping: one past the position of the
/// `target`-th `Correct(request)`, or nothing if the sequence ends first.
pub open spec fn stop_point(request: u8, target: int, s: Seq<ReplayCompare>) -> Option<int>
    decreases s.len(),
{
    if s.len() == 0 {
        None
    } else if s[0] == ReplayCompare::Correct(request) {
        if target <= 1 {
            Some(1)
        } else {
            opt_add(stop_point(request, target - 1, s.skip(1)), 1)
        }
    } else {
        opt_add(stop_point(request, target, s.skip(1)), 1)
    }
}

/// Run a phase's stop policy over an already-classified sequence: the model
/// of the replay loop's control flow, returning how many classifications the
/// phase consumes before stopping, or nothing if it replays them all.
pub fn run_stop_policy(lp: &mut StopLoop, outcomes: &Vec<ReplayCompare>) -> (r: Option<usize>)
    requires
        old(lp).wf(),
        old(lp).seen == 0,
        old(lp).rule matches StopRule::UntilCorrectCount { .. },
    ensures
        old(lp).rule matches StopRule::UntilCorrectCount { request, count } ==> {
            &&& (r matches Some(n) ==> stop_point(request, count as int, outcomes@) == Some(
                n as int,
            ))
            &&& (r is None ==> stop_point(request, count as int, outcomes@) is None)
        },
{
    let ghost full = outcomes@;
    let (request, count) = match lp.rule {
        StopRule::UntilCorrectCount { request, count } => (request, count),
        StopRule::Never => {
            proof {
                assert(false);
            }
            (0u8, 1u8)
        },
    };
    let mut i: usize = 0;
    assert(full.skip(0) =~= full);
    while i < outcomes.len()
        invariant
            i <= full.len(),
            outcomes@ == full,
            lp.wf(),
            lp.rule == (StopRule::UntilCorrectCount { request, count }),
            old(lp).rule == (StopRule::UntilCorrectCount { request, count }),
            stop_point(request, count as int, full) == opt_add(
                stop_point(request, count - lp.seen, full.skip(i as int)),
                i as int,
            ),
        decreases full.len() - i,
    {
        let c = outcomes[i];
        let ghost pre_seen = lp.seen;
        let oc: Result<ReplayCompare, ReplayError> = Ok(c);
        let act = lp.observe(&oc);
        proof {
            assert(full.skip(i as int)[0] == c);
            assert(full.skip(i as int).skip(1) =~= full.skip(i + 1));
        }
        if act == LoopAction::Stop {
            proof {
                assert(c == ReplayCompare::Correct(request));
                assert(pre_seen + 1 == count);
                assert(stop_point(request, count - pre_seen, full.skip(i as int)) == Some(1int));
                assert(stop_point(request, count as int, full) == Some(i + 1));
            }
            return Some(i + 1);
        }
        proof {
            if c == ReplayCompare::Correct(request) {
                assert(lp.seen == pre_seen + 1);
                assert(count - pre_seen > 1);
                assert(stop_point(request, count - pre_seen, full.skip(i as int)) == opt_add(
                    stop_point(request, count - pre_seen - 1, full.skip(i + 1)),
                    1,
                ));
            } else {
                assert(stop_point(request, count - pre_seen, full.skip(i as int)) == opt_add(
                    stop_point(request, count - pre_seen, full.skip(i + 1)),
                    1,
                ));
            }
        }
        i = i + 1;
    }
    assert(full.skip(full.len() as int) =~= Seq::<ReplayCompare>::empty());
    None
}

/// Where a phase stops when one index holds the `target`-th occurrence of
/// the counted classification: one past that index.
pub proof fn lemma_stop_point_at_nth(request: u8, target: int, s: Seq<ReplayCompare>, j: int)
    requires
        0 <= j < s.len(),
        target >= 1,
        s[j] == ReplayCompare::Correct(request),
        count_correct(s.take(j), request) == target - 1,
    ensures
        stop_point(request, target, s) == Some(j + 1),
    decreases s.len(),
{
    if j > 0 {
        assert(s.take(j)[0] == s[0]);
        assert(s.take(j).skip(1) =~= s.skip(1).take(j - 1));
        assert(s.skip(1)[j - 1] == s[j]);
        lemma_count_correct_nonneg(s.skip(1).take(j - 1), request);
        if s[0] == ReplayCompare::Correct(request) {
            assert(count_correct(s.take(j), request) == 1 + count_correct(
                s.skip(1).take(j - 1),
                request,
            ));
            lemma_stop_point_at_nth(request, target - 1, s.skip(1), j - 1);
        } else {
            assert(count_correct(s.take(j), request) == count_correct(
                s.skip(1).take(j - 1),
                request,
            ));
            lemma_stop_point_at_nth(request, target, s.skip(1), j - 1);
        }
    } else {
        assert(s.take(0) =~= Seq::<ReplayCompare>::empty());
    }
}

/// A count of classifications is never negative.
proof fn lemma_count_correct_nonneg(s: Seq<ReplayCompare>, request: u8)
    ensures
        count_correct(s, request) >= 0,
    decreases s.len(),
{
    if s.len() > 0 {
        lemma_count_correct_nonneg(s.skip(1), request);
    }
}

/// A sequence without the counted classification counts zero of them.
proof fn lemma_count_correct_none(s: Seq<ReplayCompare>, request: u8)
    requires
        forall|k: int| 0 <= k < s.len() ==> s[k] != ReplayCompare::Correct(request),
    ensures
        count_correct(s, request) == 0,
    decreases s.len(),
{
    if s.len() > 0 {
        assert(forall|k: int| 0 <= k < s.skip(1).len() ==> s.skip(1)[k] == s[k + 1]);
        lemma_count_correct_none(s.skip(1), request);
    }
}

/// Handshake termination: in a classification sequence holding exactly two
/// `Correct(request)` entries, at positions `i` and `j`, the basic-handshake
/// phase (which stops at the second occurrence of its signature request)
/// consumes exactly the records up to and including position `j`.
pub proof fn lemma_handshake_stops_at_second(
    request: u8,
    s: Seq<ReplayCompare>,
    i: int,
    j: int,
)
    requires
        0 <= i < j < s.len(),
        s[i] == ReplayCompare::Correct(request),
        s[j] == ReplayCompare::Correct(request),
        forall|k: int|
            0 <= k < s.len() && s[k] == ReplayCompare::Correct(request) ==> k == i || k == j,
    ensures
        stop_point(request, 2, s) == Some(j + 1),
{
    let p = s.take(j);
    assert(p.take(i) =~= s.take(i));
    assert(count_correct(p, request) == 1) by {
        lemma_count_correct_single(p, request, i);
    }
    lemma_stop_point_at_nth(request, 2, s, j);
}

/// A sequence whose only counted classification sits at one index counts
/// exactly one.
proof fn lemma_count_correct_single(s: Seq<ReplayCompare>, request: u8, i: int)
    requires
        0 <= i < s.len(),
        s[i] == ReplayCompare::Correct(request),
        forall|k: int| 0 <= k < s.len() && s[k] == ReplayCompare::Correct(request) ==> k == i,
    ensures
        count_correct(s, request) == 1,
    decreases s.len(),
{
    assert(forall|k: int| 0 <= k < s.skip(1).len() ==> s.skip(1)[k] == s[k + 1]);
    if i == 0 {
        lemma_count_correct_none(s.skip(1), request);
    } else {
        lemma_count_correct_single(s.skip(1), request, i - 1);
    }
}

/// The HID "Set Idle" request code: the handshake's signature request, seen
/// correct twice before the basic handshake is complete.
pub const SET_IDLE_REQUEST: u8 = 0x0a;

/// The HID "Set Report" request code: the request after which the device
/// accepts LED commands.
pub const SET_REPORT_REQUEST: u8 = 0x09;

/// The engine's own verified state: whether its one handshake has run, and
/// which interfaces it has claimed.
#[derive(Clone, Debug)]
pub struct Control {
    pub handshake_done: bool,
    pub claims: ClaimSet,
}

impl Control {
    pub open spec fn wf(self) -> bool {
        self.claims.wf()
    }

    pub fn new() -> (r: Control)
        ensures
            r.wf(),
            !r.handshake_done,
            r.claims.claims@.len() == 0,
    {
        Control { handshake_done: false, claims: ClaimSet::new() }
    }

    /// Start the basic handshake phase: it stops once the "Set Idle"
    /// signature request has been classified correct for the second time,
    /// and may run at most once per engine instance.
    pub fn begin_basic_handshake(&mut self) -> (r: Result<StopLoop, ReplayError>)
        requires
            old(self).wf(),
        ensures
            final(self).wf(),
            final(self).claims == old(self).claims,
            old(self).handshake_done ==> r == Err::<StopLoop, ReplayError>(
                ReplayError::InvalidInput,
            ) && final(self).handshake_done == old(self).handshake_done,
            !old(self).handshake_done ==> final(self).handshake_done,
            !old(self).handshake_done ==> r == Ok::<StopLoop, ReplayError>(
                StopLoop {
                    rule: StopRule::UntilCorrectCount { request: SET_IDLE_REQUEST, count: 2 },
                    seen: 0,
                },
            ),
    {
        if self.handshake_done {
            return Err(ReplayError::InvalidInput);
        }
        self.handshake_done = true;
        Ok(StopLoop::new(StopRule::UntilCorrectCount { request: SET_IDLE_REQUEST, count: 2 }))
    }

    /// The stop policy of the full handshake's closing phase: replay until
    /// the first correct "Set Report" exchange.
    pub fn handshake_completion_stop() -> (r: StopLoop)
        ensures
            r == (StopLoop {
                rule: StopRule::UntilCorrectCount { request: SET_REPORT_REQUEST, count: 1 },
                seen: 0,
            }),
    {
        StopLoop::new(StopRule::UntilCorrectCount { request: SET_REPORT_REQUEST, count: 1 })
    }

    /// The stop policy that replays a capture to its end.
    pub fn replay_all_stop() -> (r: StopLoop)
        ensures
            r == (StopLoop { rule: StopRule::Never, seen: 0 }),
    {
        StopLoop::new(StopRule::Never)
    }

    /// Which interface a claim request should actually claim, or nothing if
    /// it is already held: each interface is claimed at most once per engine
    /// lifetime, and a request for the phantom interface 2 claims 1.
    pub fn plan_claim(&self, requested: u8) -> (r: Option<u8>)
        ensures
            r == (if self.claims.holds_iface(resolve_interface_spec(requested)) {
                Option::<u8>::None
            } else {
                Some(resolve_interface_spec(requested))
            }),
    {
        let iface = resolve_interface(requested);
        if self.claims.is_claimed(iface) {
            None
        } else {
            Some(iface)
        }
    }

    /// Record that an interface was claimed, and whether a kernel driver had
    /// to be detached first.
    pub fn record_claim(&mut self, iface: u8, detached: bool)
        requires
            old(self).wf(),
            !old(self).claims.holds_iface(iface),
        ensures
            final(self).wf(),
            final(self).handshake_done == old(self).handshake_done,
            final(self).claims.claims@ == old(self).claims.claims@ + seq![
                crate::claims::Claim { iface, detached },
            ],
    {
        self.claims.record(iface, detached);
    }

    /// The symmetric teardown plan for every recorded claim.
    pub fn teardown_plan(&self) -> (r: Vec<TeardownStep>)
        ensures
            r@ == teardown_spec(self.claims.claims@),
    {
        self.claims.teardown_plan()
    }
}

/// The stages of the full handshake, in the order they must run.  The
/// response to the secondary-endpoint listen arrives out of band relative to
/// the primary control-transfer sequence: it is armed before the closing
/// replay phase and drained exactly once, only after the first correct "Set
/// Report" exchange, to keep the capture cursor aligned.
#[derive(Clone, Copy, Debug, PartialEq, Eq, Structural)]
pub enum HandshakePhase {
    /// Replay until the second correct "Set Idle" exchange.
    BasicHandshake,
    /// Replay and compare the report-descriptor read.
    CompareReportDescriptor,
    /// Submit, without awaiting, the capture's secondary-endpoint listen.
    ArmSecondaryListen,
    /// Replay until the first correct "Set Report" exchange.
    ReplayUntilSetReport,
    /// Await and compare the deferred secondary-endpoint response.
    DrainSecondaryResponse,
    /// The device now accepts LED commands.
    Done,
}

impl HandshakePhase {
    /// The phase that follows this one.
    pub open spec fn next_spec(self) -> HandshakePhase {
        match self {
            HandshakePhase::BasicHandshake => HandshakePhase::CompareReportDescriptor,
            HandshakePhase::CompareReportDescriptor => HandshakePhase::ArmSecondaryListen,
            HandshakePhase::ArmSecondaryListen => HandshakePhase::ReplayUntilSetReport,
            HandshakePhase::ReplayUntilSetReport => HandshakePhase::DrainSecondaryResponse,
            HandshakePhase::DrainSecondaryResponse => HandshakePhase::Done,
            HandshakePhase::Done => HandshakePhase::Done,
        }
    }

    pub fn next(self) -> (r: HandshakePhase)
        ensures
            r == self.next_spec(),
    {
        match self {
            HandshakePhase::BasicHandshake => HandshakePhase::CompareReportDescriptor,
            HandshakePhase::CompareReportDescriptor => HandshakePhase::ArmSecondaryListen,
            HandshakePhase::ArmSecondaryListen => HandshakePhase::ReplayUntilSetReport,
            HandshakePhase::ReplayUntilSetReport => HandshakePhase::DrainSecondaryResponse,
            HandshakePhase::DrainSecondaryResponse => HandshakePhase::Done,
            HandshakePhase::Done => HandshakePhase::Done,
        }
    }

    /// The stop policy a replay phase runs with, where one applies.
    pub fn stop_policy(self) -> (r: Option<StopLoop>)
        ensures
            self == HandshakePhase::BasicHandshake ==> r == Some(
                StopLoop {
                    rule: StopRule::UntilCorrectCount { request: SET_IDLE_REQUEST, count: 2 },
                    seen: 0,
                },
            ),
            self == HandshakePhase::ReplayUntilSetReport ==> r == Some(
                StopLoop {
                    rule: StopRule::UntilCorrectCount { request: SET_REPORT_REQUEST, count: 1 },
                    seen: 0,
                },
            ),
            self != HandshakePhase::BasicHandshake && self != HandshakePhase::ReplayUntilSetReport
                ==> r is None,
    {
        match self {
            HandshakePhase::BasicHandshake => Some(
                StopLoop::new(
                    StopRule::UntilCorrectCount { request: SET_IDLE_REQUEST, count: 2 },
                ),
            ),
            HandshakePhase::ReplayUntilSetReport => Some(
                StopLoop::new(
                    StopRule::UntilCorrectCount { request: SET_REPORT_REQUEST, count: 1 },
                ),
            ),
            _ => None,
        }
    }
}

/// The standing 64-byte interrupt listen on the secondary IN endpoint,
/// used both to observe the handshake's out-of-band response and to pre-arm
/// before each color-set control transfer.
pub fn listen_request() -> (r: TransferRequest)
    ensures
        r matches TransferRequest::Interrupt { endpoint_direction, buf } && endpoint_direction
            == 0x82 && buf@ == Seq::new(64, |i: int| 0u8),
{
    TransferRequest::Interrupt { endpoint_direction: 0x82, buf: zero_buf(64) }
}

/// The control OUT transfer that carries a color-set or flush report:
/// request type `0x21`, request `0x09`, value `0x0212`, index `0x0001`, with
/// the serialized report as its body.
pub open spec fn is_color_control(t: TransferRequest, payload: Seq<u8>) -> bool {
    t matches TransferRequest::Control {
        endpoint_direction,
        buf,
        request_type,
        request,
        value,
        index,
    } && {
        &&& endpoint_direction == 0x00
        &&& buf@ == payload
        &&& request_type == 0x21
        &&& request == 0x09
        &&& value == 0x0212
        &&& index == 0x0001
    }
}

fn color_control_request(payload: Vec<u8>) -> (r: TransferRequest)
    ensures
        is_color_control(r, payload@),
{
    TransferRequest::Control {
        endpoint_direction: 0x00,
        buf: payload,
        request_type: 0x21,
        request: 0x09,
        value: 0x0212,
        index: 0x0001,
    }
}

/// The transfers that stage one color packet: pre-arm the secondary IN
/// endpoint, then send the serialized packet as a control OUT transfer.
pub fn send_color_requests(packet: &ColorPacket) -> (r: (TransferRequest, TransferRequest))
    requires
        packet.wf(),
    ensures
        r.0 matches TransferRequest::Interrupt { endpoint_direction, buf } && endpoint_direction
            == 0x82 && buf@ == Seq::new(64, |i: int| 0u8),
        is_color_control(r.1, packet.bytes_spec()),
{
    (listen_request(), color_control_request(packet.to_bytes()))
}

/// The transfers that commit the staged colors: pre-arm, then send the
/// serialized flush packet.
pub fn flush_color_requests() -> (r: (TransferRequest, TransferRequest))
    ensures
        r.0 matches TransferRequest::Interrupt { endpoint_direction, buf } && endpoint_direction
            == 0x82 && buf@ == Seq::new(64, |i: int| 0u8),
        is_color_control(r.1, FlushPacket::bytes_spec()),
{
    let flush = FlushPacket::new();
    (listen_request(), color_control_request(flush.to_bytes()))
}

/// The wire bytes of a packet holding exactly one key color.
pub open spec fn single_entry_bytes(kc: KeyColor, kt: KeyType) -> Seq<u8> {
    seq![0x12u8, 0xffu8, 0x0fu8, 0x3bu8, 0x00u8, kt.tag_spec(), 0x00u8, 1u8] + colors_bytes(
        seq![kc] + Seq::new(13, |i: int| KeyColor::placeholder_spec()),
    )
}

/// The four transfers of one `set_color` operation: stage a single-entry
/// packet for the key's bank, then flush.
pub fn set_color_plan(key_color: KeyColor, key_type: KeyType) -> (r: Vec<TransferRequest>)
    requires
        key_type != KeyType::Memory,
    ensures
        r@.len() == 4,
        r@[0] matches TransferRequest::Interrupt { endpoint_direction, buf } && endpoint_direction
            == 0x82 && buf@ == Seq::new(64, |i: int| 0u8),
        is_color_control(r@[1], single_entry_bytes(key_color, key_type)),
        r@[2] matches TransferRequest::Interrupt { endpoint_direction, buf } && endpoint_direction
            == 0x82 && buf@ == Seq::new(64, |i: int| 0u8),
        is_color_control(r@[3], FlushPacket::bytes_spec()),
{
    let mut packet = ColorPacket::new(key_type);
    let res = packet.add_key_color(key_color);
    proof {
        assert(res is Ok);
        assert(packet.colors@ =~= seq![key_color] + Seq::new(
            13,
            |i: int| KeyColor::placeholder_spec(),
        ));
        assert(packet.bytes_spec() == single_entry_bytes(key_color, key_type));
    }
    let (arm1, send) = send_color_requests(&packet);
    let (arm2, flush) = flush_color_requests();
    let mut r: Vec<TransferRequest> = Vec::new();
    r.push(arm1);
    r.push(send);
    r.push(arm2);
    r.push(flush);
    r
}

/// A bank's codes with the sentinel "no key" code removed, in order.
pub open spec fn active_codes(s: Seq<u8>) -> Seq<u8>
    decreases s.len(),
{
    if s.len() == 0 {
        Seq::empty()
    } else {
        active_codes(s.drop_last()) + (if s.last() != 0 {
            seq![s.last()]
        } else {
            Seq::empty()
        })
    }
}

proof fn lemma_active_codes_take(s: Seq<u8>, i: int)
    requires
        0 <= i < s.len(),
    ensures
        active_codes(s.take(i + 1)) == active_codes(s.take(i)) + (if s[i] != 0 {
            seq![s[i]]
        } else {
            Seq::empty()
        }),
{
    assert(s.take(i + 1).drop_last() =~= s.take(i));
    assert(s.take(i + 1).last() == s[i]);
}

fn filter_active(codes: &Vec<u8>) -> (r: Vec<u8>)
    ensures
        r@ == active_codes(codes@),
{
    let mut r: Vec<u8> = Vec::new();
    let mut i: usize = 0;
    assert(active_codes(codes@.take(0)) =~= Seq::<u8>::empty());
    while i < codes.len()
        invariant
            i <= codes@.len(),
            r@ == active_codes(codes@.take(i as int)),
        decreases codes@.len() - i,
    {
        let c = codes[i];
        proof {
            lemma_active_codes_take(codes@, i as int);
        }
        if c != 0 {
            r.push(c);
        }
        proof {
            if c != 0 {
                assert(r@ =~= active_codes(codes@.take(i as int)) + seq![c]);
            } else {
                assert(r@ =~= active_codes(codes@.take(i as int)) + Seq::<u8>::empty());
            }
        }
        i = i + 1;
    }
    assert(codes@.take(codes@.len() as int) =~= codes@);
    r
}

/// How many packets a bank of `n` active keys needs: one per group of at
/// most fourteen.
pub open spec fn chunk_count(n: int) -> int
    decreases n,
{
    if n <= 0 {
        0
    } else {
        1 + chunk_count(if n - 14 > 0 {
            n - 14
        } else {
            0
        })
    }
}

/// The packet count is the ceiling of the active-key count over fourteen.
pub proof fn lemma_chunk_count_formula(n: int)
    requires
        n >= 0,
    ensures
        chunk_count(n) == (n + 13) / 14,
    decreases n,
{
    if n > 0 {
        if n - 14 > 0 {
            lemma_chunk_count_formula(n - 14);
            assert((n + 13) / 14 == (n - 14 + 13) / 14 + 1) by (nonlinear_arith)
                requires
                    n - 14 > 0,
            ;
        } else {
            assert(chunk_count(0) == 0);
            assert((n + 13) / 14 == 1) by (nonlinear_arith)
                requires
                    0 < n <= 14,
            ;
        }
    }
}

proof fn lemma_chunk_count_full(m: int)
    requires
        0 <= m,
    ensures
        chunk_count(14 * m) == m,
    decreases m,
{
    if m > 0 {
        lemma_chunk_count_full(m - 1);
    }
}

proof fn lemma_chunk_count_partial(m: int, t: int)
    requires
        0 <= m,
        0 < t <= 14,
    ensures
        chunk_count(14 * m + t) == m + 1,
    decreases m,
{
    assert(14 * m + t > 0);
    if m > 0 {
        lemma_chunk_count_partial(m - 1, t);
        assert(14 * m + t - 14 == 14 * (m - 1) + t);
        assert(14 * (m - 1) + t > 0);
    } else {
        assert(14 * m + t == t);
        assert(t - 14 <= 0);
        assert(chunk_count(0) == 0);
    }
}

/// One packet of a bank's staging sequence: at most fourteen of the bank's
/// active keys, in order, each paired with the one color.
pub open spec fn chunk_ok(
    p: ColorPacket,
    active: Seq<u8>,
    idx: int,
    kt: KeyType,
    color: Color,
) -> bool {
    &&& p.wf()
    &&& p.key_type == kt
    &&& p.len == (if active.len() - 14 * idx < 14 {
        active.len() - 14 * idx
    } else {
        14int
    })
    &&& forall|q: int|
        0 <= q < p.len ==> p.colors@[q] == (KeyColor {
            key_code: active[14 * idx + q],
            color,
        })
}

/// A bank's whole staging sequence: exactly one packet per group of at most
/// fourteen active keys, in order.
pub open spec fn chunked_packets_ok(
    ps: Seq<ColorPacket>,
    active: Seq<u8>,
    kt: KeyType,
    color: Color,
) -> bool {
    &&& ps.len() == chunk_count(active.len() as int)
    &&& forall|idx: int| 0 <= idx < ps.len() ==> chunk_ok(ps[idx], active, idx, kt, color)
}

/// Partition a bank's keys (skipping the sentinel) into groups of at most
/// fourteen and build one staging packet per group, all with the one color.
pub fn chunk_key_colors(codes: &Vec<u8>, key_type: KeyType, color: Color) -> (r: Vec<ColorPacket>)
    requires
        key_type != KeyType::Memory,
    ensures
        chunked_packets_ok(r@, active_codes(codes@), key_type, color),
{
    let act = filter_active(codes);
    let ghost active = act@;
    let mut packets: Vec<ColorPacket> = Vec::new();
    let mut i: usize = 0;
    while i < act.len()
        invariant
            key_type != KeyType::Memory,
            act@ == active,
            i <= active.len(),
            i == 14 * packets@.len() || (i == active.len() && packets@.len() == chunk_count(
                active.len() as int,
            )),
            forall|idx: int| 0 <= idx < packets@.len() ==> chunk_ok(packets@[idx], active, idx, key_type, color),
        decreases active.len() - i,
    {
        let rem = act.len() - i;
        let size = if rem < 14 {
            rem
        } else {
            14
        };
        let mut packet = ColorPacket::new(key_type);
        let mut j: usize = 0;
        while j < size
            invariant
                j <= size,
                size <= 14,
                i + size <= act.len(),
                size == (if active.len() - i < 14 {
                    active.len() - i
                } else {
                    14int
                }),
                act@ == active,
                packet.wf(),
                packet.key_type == key_type,
                packet.len == j,
                forall|q: int|
                    0 <= q < j ==> packet.colors@[q] == (KeyColor {
                        key_code: active[i + q],
                        color,
                    }),
            decreases size - j,
        {
            let kc = KeyColor::new(act[i + j], color);
            let res = packet.add_key_color(kc);
            proof {
                assert(res is Ok);
            }
            j = j + 1;
        }
        let ghost m = packets@.len();
        packets.push(packet);
        proof {
            assert(14 * (m + 1) == 14 * m + 14);
            assert(chunk_ok(packet, active, m as int, key_type, color));
        }
        i = i + size;
        proof {
            if size < 14 {
                lemma_chunk_count_partial(m as int, size as int);
                assert(i == active.len());
                assert(packets@.len() == chunk_count(active.len() as int));
            } else {
                assert(i == 14 * packets@.len());
            }
        }
    }
    proof {
        if i == 14 * packets@.len() {
            lemma_chunk_count_full(packets@.len() as int);
            assert(chunk_count(active.len() as int) == packets@.len());
        }
    }
    packets
}

/// The staging plan of one `set_all_colors` operation: every packet for both
/// banks, and the single flush that commits them all.
pub struct AllColorsPlan {
    pub packets: Vec<ColorPacket>,
    pub flush: FlushPacket,
}

/// The standard bank's active key codes.
pub open spec fn standard_active() -> Seq<u8> {
    active_codes(StandardKey::codes_spec())
}

/// The gaming bank's active key codes.
pub open spec fn gaming_active() -> Seq<u8> {
    active_codes(GamingKey::codes_spec())
}

/// Stage one color on every key of both banks, fourteen keys per packet, and
/// commit with exactly one flush after both banks are fully staged — never
/// one flush per packet.
pub fn set_all_colors_plan(color: Color) -> (r: AllColorsPlan)
    ensures
        r.packets@.len() == chunk_count(standard_active().len() as int) + chunk_count(
            gaming_active().len() as int,
        ),
        chunked_packets_ok(
            r.packets@.take(chunk_count(standard_active().len() as int)),
            standard_active(),
            KeyType::Standard,
            color,
        ),
        chunked_packets_ok(
            r.packets@.skip(chunk_count(standard_active().len() as int)),
            gaming_active(),
            KeyType::Gaming,
            color,
        ),
{
    let standard = StandardKey::codes();
    let gaming = GamingKey::codes();
    let mut packets = chunk_key_colors(&standard, KeyType::Standard, color);
    let ghost sp = packets@;
    let mut gp = chunk_key_colors(&gaming, KeyType::Gaming, color);
    let ghost gpv = gp@;
    packets.append(&mut gp);
    proof {
        assert(packets@.take(sp.len() as int) =~= sp);
        assert(packets@.skip(sp.len() as int) =~= gpv);
    }
    AllColorsPlan { packets, flush: FlushPacket::new() }
}

} // verus!
