//! A per-player ring buffer of inputs with frame delay and prediction.
use vstd::prelude::*;

pub mod prediction;

pub use prediction::{BlankPrediction, PredictionStrategy, RepeatLastConfirmed};

use crate::error::{FortressError, IndexOutOfBounds, InternalErrorKind, InvalidRequestKind};
use crate::frame::{frame_at, saturate_i32, safe_frame_add, safe_frame_sub, Frame, NULL_FRAME};
use crate::frame_info::{same_input, PlayerInput};
use crate::input_queue::prediction::repeats_last_confirmed;
use crate::types::InputStatus;
use vstd::std_specs::cmp::PartialEqSpec;

verus! {

broadcast use crate::frame::group_frame_view;

/// The default number of inputs a queue holds per player.
pub const INPUT_QUEUE_LENGTH: usize = 128;

/// The largest frame delay a queue of the default length accepts.
pub const MAX_FRAME_DELAY: usize = INPUT_QUEUE_LENGTH - 1;

/// Whether a ring of `n` slots needs more than `isize::MAX` bytes, the most
/// a `Vec` may hold: each slot holds at least its 4-byte frame number.
pub open spec fn ring_overflows(n: int) -> bool {
    n * 4 > isize::MAX
}

/// Reserves room for exactly `additional` more slots in `v`; whether the
/// room was granted.
///
/// Calls `Vec::try_reserve_exact`. It fails with a capacity overflow when
/// `len + additional` slots would need more than `isize::MAX` bytes, which
/// is so whenever `ring_overflows` holds, since a slot holds an `i32`
/// frame number; otherwise whether the allocator grants the room depends
/// on the machine and is not stated. The slots of `v` are the same either
/// way.
#[verifier::external_body]
fn try_reserve_exact<I: Copy + Clone + PartialEq>(v: &mut Vec<PlayerInput<I>>, additional: usize) -> (r: bool)
    ensures
        final(v)@ == old(v)@,
        ring_overflows(old(v)@.len() + additional) ==> r == false,
{
    v.try_reserve_exact(additional).is_ok()
}

/// Adds `offset` to the ring position `index` modulo `modulus`; `None` for an
/// empty ring or a position outside it.
pub fn circular_index_add(index: usize, offset: usize, modulus: usize) -> (r: Option<usize>)
    ensures
        modulus == 0 || index >= modulus ==> r is None,
        modulus > 0 && index < modulus ==> r == Some(((index + offset) % (modulus as int)) as usize),
{
    if modulus == 0 || index >= modulus {
        return None;
    }
    let reduced = offset % modulus;
    let distance_to_wrap = modulus - index;
    let r = if reduced >= distance_to_wrap {
        reduced - distance_to_wrap
    } else {
        index + reduced
    };
    proof {
        lemma_add_mod(index as int, offset as int, modulus as int);
    }
    Some(r)
}

/// `(index + offset % m) % m` is `(index + offset) % m`, computed by cases.
proof fn lemma_add_mod(index: int, offset: int, m: int)
    requires
        0 <= index < m,
        0 <= offset,
    ensures
        ({
            let o = offset % m;
            (if o >= m - index {
                o - (m - index)
            } else {
                index + o
            }) == (index + offset) % m
        }),
{
    let o = offset % m;
    vstd::arithmetic::div_mod::lemma_mod_pos_bound(offset, m);
    vstd::arithmetic::div_mod::lemma_add_mod_noop_right(index, offset, m);
    if o >= m - index {
        vstd::arithmetic::div_mod::lemma_mod_sub_multiples_vanish(index + o, m);
        vstd::arithmetic::div_mod::lemma_small_mod((index + o - m) as nat, m as nat);
    } else {
        vstd::arithmetic::div_mod::lemma_small_mod((index + o) as nat, m as nat);
    }
}

/// The non-negative distance from `from` to `to`, or `None` when it is
/// negative or leaves the range of `i32`.
pub fn frame_distance_usize(from: Frame, to: Frame) -> (r: Option<usize>)
    ensures
        i32::MIN <= to@ - from@ <= i32::MAX && to@ - from@ >= 0 ==> r == Some(
            (to@ - from@) as usize,
        ),
        !(i32::MIN <= to@ - from@ <= i32::MAX && to@ - from@ >= 0) ==> r is None,
{
    match from.distance_to(to) {
        Some(d) => {
            if d >= 0 {
                Some(d as usize)
            } else {
                None
            }
        },
        None => None,
    }
}

/// `(a + 1) % m` reached from `a % m`.
proof fn lemma_mod_succ(a: int, m: int)
    requires
        a >= 0,
        m >= 2,
    ensures
        (a + 1) % m == ((a % m) + 1) % m,
        (a % m) + 1 < m ==> (a + 1) % m == (a % m) + 1,
        (a % m) + 1 == m ==> (a + 1) % m == 0,
{
    vstd::arithmetic::div_mod::lemma_mod_pos_bound(a, m);
    vstd::arithmetic::div_mod::lemma_add_mod_noop(a, 1, m);
    vstd::arithmetic::div_mod::lemma_small_mod(1, m as nat);
    if (a % m) + 1 < m {
        vstd::arithmetic::div_mod::lemma_small_mod(((a % m) + 1) as nat, m as nat);
    } else {
        vstd::arithmetic::div_mod::lemma_mod_self_0(m);
    }
}

/// Distinct offsets below `m` from the same base land on distinct positions.
proof fn lemma_mod_injective(t: int, i: int, j: int, m: int)
    requires
        t >= 0,
        0 <= i < m,
        0 <= j < m,
        (t + i) % m == (t + j) % m,
    ensures
        i == j,
{
    vstd::arithmetic::div_mod::lemma_sub_mod_noop(t + j, t + i, m);
    vstd::arithmetic::div_mod::lemma_mod_self_0(m);
    if i < j {
        vstd::arithmetic::div_mod::lemma_small_mod((j - i) as nat, m as nat);
        assert(0int % m == 0) by {
            vstd::arithmetic::div_mod::lemma_small_mod(0, m as nat);
        }
    } else if j < i {
        vstd::arithmetic::div_mod::lemma_sub_mod_noop(t + i, t + j, m);
        vstd::arithmetic::div_mod::lemma_small_mod((i - j) as nat, m as nat);
        assert(0int % m == 0) by {
            vstd::arithmetic::div_mod::lemma_small_mod(0, m as nat);
        }
    }
}

/// The position before `(h + 1) % m` is `h`.
proof fn lemma_prev_of_succ(h: int, m: int)
    requires
        0 <= h < m,
        m >= 2,
    ensures
        (((h + 1) % m) + m - 1) % m == h,
{
    lemma_mod_succ(h, m);
    vstd::arithmetic::div_mod::lemma_small_mod(h as nat, m as nat);
    if h + 1 < m {
        vstd::arithmetic::div_mod::lemma_mod_add_multiples_vanish(h, m);
        vstd::arithmetic::div_mod::lemma_small_mod(h as nat, m as nat);
    } else {
        vstd::arithmetic::div_mod::lemma_small_mod((m - 1) as nat, m as nat);
    }
}

/// The position before `(t + n) % m` is `(t + n - 1) % m`.
proof fn lemma_prev_of_succ_general(t: int, n: int, m: int)
    requires
        0 <= t < m,
        1 <= n <= m,
        m >= 2,
    ensures
        (((t + n) % m) + m - 1) % m == (t + n - 1) % m,
{
    vstd::arithmetic::div_mod::lemma_mod_pos_bound(t + n - 1, m);
    lemma_mod_succ(t + n - 1, m);
    lemma_prev_of_succ((t + n - 1) % m, m);
}

/// The abstract state of an [`InputQueue`]: its ring of slots and every
/// field that the operations read or change.
pub struct QueueView<I: Copy + Clone + PartialEq> {
    /// The ring of slots, oldest-to-newest from `tail` for `length` entries.
    pub slots: Seq<PlayerInput<I>>,
    /// Where the next input is written.
    pub head: int,
    /// Where the oldest kept input is.
    pub tail: int,
    /// How many inputs are kept.
    pub length: int,
    /// The frame of the newest input, or -1.
    pub last_added: int,
    /// Whether the next input is the first one (no frame was added yet).
    pub first_frame: bool,
    /// The first frame known to be mispredicted, or -1.
    pub first_incorrect: int,
    /// The frame last asked for, or -1.
    pub last_requested: int,
    /// The delay added to every input's frame.
    pub frame_delay: int,
    /// The player this queue belongs to.
    pub player_index: int,
    /// The number of slots.
    pub queue_length: int,
    /// The frame the next prediction check is for, or -1 when not predicting.
    pub prediction_frame: int,
    /// The predicted input.
    pub prediction_input: I,
    /// The most recently confirmed input.
    pub last_confirmed: Option<I>,
    /// Whether added inputs are ignored.
    pub frozen: bool,
}

/// The window of kept inputs, oldest first.
pub open spec fn window<I: Copy + Clone + PartialEq>(v: QueueView<I>) -> Seq<PlayerInput<I>> {
    Seq::new(v.length as nat, |i: int| v.slots[(v.tail + i) % v.queue_length])
}

/// The position of the newest slot, just behind `head`.
pub open spec fn prev_position<I: Copy + Clone + PartialEq>(v: QueueView<I>) -> int {
    (v.head + v.queue_length - 1) % v.queue_length
}

/// The ring position at which a frame's input is looked up: the frame number
/// converted to `usize`, modulo the queue length.
pub open spec fn slot_of(frame: int, queue_length: int) -> int {
    ((frame as usize) as int) % queue_length
}

/// How the prediction bookkeeping `(prediction frame, first incorrect frame)`
/// changes when the input `e` is added.
pub open spec fn prediction_step<I: Copy + Clone + PartialEq>(
    pf: int,
    fi: int,
    pin: I,
    lr: int,
    e: PlayerInput<I>,
) -> (int, int) {
    let f = e.frame@;
    if pf == NULL_FRAME {
        (pf, fi)
    } else if f != pf {
        (saturate_i32(f + 1), if fi == NULL_FRAME {
            if f < pf {
                f
            } else {
                pf
            }
        } else {
            fi
        })
    } else {
        let fi2 = if fi == NULL_FRAME && !same_input(pin, e.input) {
            f
        } else {
            fi
        };
        let pf2 = if pf == lr && fi2 == NULL_FRAME {
            NULL_FRAME as int
        } else {
            saturate_i32(pf + 1)
        };
        (pf2, fi2)
    }
}

/// The state after one input `e` is written at `head`.
pub open spec fn append_one<I: Copy + Clone + PartialEq>(v: QueueView<I>, e: PlayerInput<I>) -> QueueView<I> {
    let p = prediction_step(
        v.prediction_frame,
        v.first_incorrect,
        v.prediction_input,
        v.last_requested,
        e,
    );
    QueueView {
        slots: v.slots.update(v.head, e),
        head: (v.head + 1) % v.queue_length,
        length: v.length + 1,
        last_added: e.frame@,
        first_frame: false,
        last_confirmed: Some(e.input),
        prediction_frame: p.0,
        first_incorrect: p.1,
        ..v
    }
}

/// The state after the inputs `es` are written one after another.
pub open spec fn append_entries<I: Copy + Clone + PartialEq>(
    v: QueueView<I>,
    es: Seq<PlayerInput<I>>,
) -> QueueView<I>
    decreases es.len(),
{
    if es.len() == 0 {
        v
    } else {
        append_one(append_entries(v, es.drop_last()), es.last())
    }
}

/// Appending inputs leaves the ring's size, the tail, the delay, the player,
/// the frozen flag, the last requested frame and the predicted input alone,
/// and adds one to the length per input.
pub proof fn lemma_append_entries_keeps<I: Copy + Clone + PartialEq>(
    v: QueueView<I>,
    es: Seq<PlayerInput<I>>,
)
    ensures
        ({
            let w = append_entries(v, es);
            &&& w.queue_length == v.queue_length
            &&& w.tail == v.tail
            &&& w.frame_delay == v.frame_delay
            &&& w.player_index == v.player_index
            &&& w.frozen == v.frozen
            &&& w.last_requested == v.last_requested
            &&& w.prediction_input == v.prediction_input
            &&& w.length == v.length + es.len()
        }),
    decreases es.len(),
{
    if es.len() > 0 {
        lemma_append_entries_keeps(v, es.drop_last());
    }
}

/// `count` copies of `filler` at the consecutive frames from `start`.
pub open spec fn fill_entries<I: Copy + Clone + PartialEq>(start: int, count: int, filler: I) -> Seq<PlayerInput<I>> {
    Seq::new(count as nat, |k: int| PlayerInput { frame: frame_at(start + k), input: filler })
}

/// Whether a slot is blank: the null frame and a default input.
pub open spec fn is_blank_slot<I: Copy + Clone + PartialEq + Default>(p: PlayerInput<I>) -> bool {
    p.frame@ == NULL_FRAME && call_ensures(I::default, (), p.input)
}

/// The state of a freshly made queue: all slots blank, nothing kept,
/// requested or predicted, no delay and not frozen.
pub open spec fn is_initial<I: Copy + Clone + PartialEq + Default>(
    v: QueueView<I>,
    player_index: int,
    queue_length: int,
) -> bool {
    &&& v.slots.len() == queue_length
    &&& forall|j: int| 0 <= j < queue_length ==> #[trigger] is_blank_slot(v.slots[j])
    &&& v.head == 0
    &&& v.tail == 0
    &&& v.length == 0
    &&& v.last_added == NULL_FRAME
    &&& v.first_frame
    &&& v.first_incorrect == NULL_FRAME
    &&& v.last_requested == NULL_FRAME
    &&& v.frame_delay == 0
    &&& v.player_index == player_index
    &&& v.queue_length == queue_length
    &&& v.prediction_frame == NULL_FRAME
    &&& call_ensures(I::default, (), v.prediction_input)
    &&& v.last_confirmed is None
    &&& !v.frozen
}

/// The frame under which an input given for `input.frame` is stored: that
/// frame plus the delay (converted to `i32`), clamped into `i32`.
pub open spec fn effective_frame<I: Copy + Clone + PartialEq>(v: QueueView<I>, input: PlayerInput<I>) -> int {
    saturate_i32(input.frame@ + (v.frame_delay as i32) as int)
}

/// The first frame a queue expects: 0 before any input, else the frame after
/// the last added one.
pub open spec fn expected_start<I: Copy + Clone + PartialEq>(v: QueueView<I>) -> int {
    if v.last_added == NULL_FRAME {
        0
    } else {
        v.last_added + 1
    }
}

/// Whether a queue that is not frozen takes `input`: before any input, when
/// the frames from 0 through its effective frame fit in the free slots;
/// afterwards, when its effective frame follows the last added one and a
/// slot is free.
pub open spec fn add_accepted<I: Copy + Clone + PartialEq>(v: QueueView<I>, input: PlayerInput<I>) -> bool {
    let eff = effective_frame(v, input);
    if v.last_added == NULL_FRAME {
        0 <= eff && eff + 1 <= v.queue_length - v.length
    } else {
        eff == v.last_added + 1 && v.length < v.queue_length
    }
}

/// What `add_input` does: a frozen queue returns its last added frame and
/// stays; an accepted input is stored at its effective frame after the gap
/// before it is filled with the newest slot's input; otherwise the null
/// frame is returned and nothing changes.
pub open spec fn add_input_post<I: Copy + Clone + PartialEq>(
    v: QueueView<I>,
    input: PlayerInput<I>,
    r: Frame,
    w: QueueView<I>,
) -> bool {
    let eff = effective_frame(v, input);
    let start = expected_start(v);
    &&& v.frozen ==> r@ == v.last_added && w == v
    &&& !v.frozen && add_accepted(v, input) ==> r@ == eff && w == append_entries(
        v,
        fill_entries(start, eff - start, v.slots[prev_position(v)].input).push(
            PlayerInput { frame: r, input: input.input },
        ),
    )
    &&& !v.frozen && !add_accepted(v, input) ==> r@ == NULL_FRAME && w == v
}

/// What `input` does: `None` while a misprediction is pending (nothing
/// changes) or for a frame before the oldest kept one; otherwise the frame
/// is recorded as the last requested one and the answer is the ongoing
/// prediction, the kept input of that frame as confirmed, or a new
/// prediction from the last confirmed input that starts at the frame after
/// the last added one.
pub open spec fn input_post<I: Copy + Clone + PartialEq + Default>(
    v: QueueView<I>,
    requested_frame: Frame,
    r: Option<(I, InputStatus)>,
    w: QueueView<I>,
) -> bool {
    let v1 = QueueView { last_requested: requested_frame@, ..v };
    let tf = v.slots[v.tail].frame@;
    let off = requested_frame@ - tf;
    &&& v.first_incorrect != NULL_FRAME ==> r is None && w == v
    &&& v.first_incorrect == NULL_FRAME && requested_frame@ < tf ==> r is None && w == v1
    &&& v.first_incorrect == NULL_FRAME && requested_frame@ >= tf && v.prediction_frame
        != NULL_FRAME ==> r == Some((v.prediction_input, InputStatus::Predicted)) && w == v1
    &&& v.first_incorrect == NULL_FRAME && requested_frame@ >= tf && v.prediction_frame
        == NULL_FRAME && off > i32::MAX ==> r is None && w == v1
    &&& v.first_incorrect == NULL_FRAME && requested_frame@ >= tf && v.prediction_frame
        == NULL_FRAME && off <= i32::MAX && off < v.length ==> r == Some(
        (window(v)[off].input, InputStatus::Confirmed),
    ) && w == v1
    &&& v.first_incorrect == NULL_FRAME && requested_frame@ >= tf && v.prediction_frame
        == NULL_FRAME && off <= i32::MAX && off >= v.length ==> (r matches Some((p, st))
        && st == InputStatus::Predicted && repeats_last_confirmed(v.last_confirmed, p)
        && w == (QueueView {
        last_requested: requested_frame@,
        prediction_frame: saturate_i32(v.last_added + 1),
        prediction_input: p,
        ..v
    }))
}

/// What `discard_confirmed_frames` does: the frame to discard before is
/// capped at the last requested frame; at or past the last added frame only
/// the newest input stays, at or before the oldest kept one nothing is
/// dropped, and in between the inputs before it are dropped. Either way the
/// kept inputs are the newest ones the queue had.
pub open spec fn discard_post<I: Copy + Clone + PartialEq>(v: QueueView<I>, frame: Frame, w: QueueView<I>) -> bool {
    let f1 = if v.last_requested != NULL_FRAME && v.last_requested < frame@ {
        v.last_requested
    } else {
        frame@
    };
    let tf = v.slots[v.tail].frame@;
    &&& v.length == 0 ==> w == v
    &&& v.length > 0 && f1 >= v.last_added ==> w == (QueueView {
        tail: prev_position(v),
        length: 1,
        ..v
    })
    &&& v.length > 0 && f1 < v.last_added && f1 <= tf ==> w == v
    &&& v.length > 0 && f1 < v.last_added && f1 > tf ==> w == (QueueView {
        tail: (v.tail + (f1 - tf)) % v.queue_length,
        length: v.length - (f1 - tf),
        ..v
    })
    &&& v.length > 0 && f1 < v.last_added && f1 > tf ==> window(w)
        =~= window(v).subrange(f1 - tf, v.length)
    &&& v.length > 0 && f1 >= v.last_added ==> window(w) =~= window(
        v,
    ).subrange(v.length - 1, v.length)
    &&& w.length <= v.length
    &&& window(w) =~= window(v).subrange(v.length - w.length, v.length)
}

/// The input confirmed at `frame`: the input of the slot where that frame is
/// looked up, when that slot holds `frame` (never for the null frame).
pub open spec fn confirmed_at<I: Copy + Clone + PartialEq>(v: QueueView<I>, frame: Frame) -> Option<I> {
    let s = v.slots[slot_of(frame@, v.queue_length)];
    if frame@ != NULL_FRAME && s.frame == frame {
        Some(s.input)
    } else {
        None
    }
}

/// The last confirmed input after rolling it to the input confirmed at
/// `frame`, when there is one; otherwise it stays.
pub open spec fn rolled_confirmed<I: Copy + Clone + PartialEq>(v: QueueView<I>, frame: Frame) -> Option<I> {
    match confirmed_at(v, frame) {
        Some(x) => Some(x),
        None => v.last_confirmed,
    }
}

/// `w` is `v` repositioned so that its next input is stored at frame
/// `delayed`: every slot blank except, when `delayed > 0`, the slot just
/// behind the head, which holds the frame `delayed - 1` with the last
/// confirmed input (or a default input); nothing kept, requested,
/// predicted or mispredicted; not frozen; delay, player, length and last
/// confirmed input unchanged.
pub open spec fn is_reset<I: Copy + Clone + PartialEq + Default>(
    w: QueueView<I>,
    v: QueueView<I>,
    delayed: int,
) -> bool {
    let ql = v.queue_length;
    let la = delayed - 1;
    let pp = prev_position(w);
    &&& w.slots.len() == ql
    &&& w.queue_length == ql
    &&& w.head == delayed % ql
    &&& w.tail == w.head
    &&& w.length == 0
    &&& w.last_added == la
    &&& w.first_frame == (la == NULL_FRAME)
    &&& w.first_incorrect == NULL_FRAME
    &&& w.last_requested == NULL_FRAME
    &&& w.prediction_frame == NULL_FRAME
    &&& call_ensures(I::default, (), w.prediction_input)
    &&& !w.frozen
    &&& w.last_confirmed == v.last_confirmed
    &&& w.frame_delay == v.frame_delay
    &&& w.player_index == v.player_index
    &&& forall|j: int|
        0 <= j < ql && !(la >= 0 && j == pp) ==> #[trigger] is_blank_slot(w.slots[j])
    &&& la >= 0 ==> w.slots[pp].frame@ == la
    &&& la >= 0 ==> match v.last_confirmed {
        Some(x) => w.slots[pp].input == x,
        None => call_ensures(I::default, (), w.slots[pp].input),
    }
}

/// What `set_frame_delay` does; see there.
pub open spec fn set_frame_delay_post<I: Copy + Clone + PartialEq>(
    v: QueueView<I>,
    delay: usize,
    r: Result<(), FortressError>,
    w: QueueView<I>,
) -> bool {
                        let max = v.queue_length - 1;
    let live = !v.frozen && delay <= max && delay != v.frame_delay;
    let delta = delay - v.frame_delay;
    let room = v.queue_length - v.length;
    let fits = delta <= room && v.last_added + delta <= i32::MAX;
    let failed_at = if room < i32::MAX - v.last_added {
        v.last_added + room + 1
    } else {
        i32::MAX as int
    };
    &&& v.frozen ==> r is Ok && w == v
    &&& !v.frozen && delay > max ==> (r matches Err(
        FortressError::InvalidRequestStructured { kind },
    ) && kind == (InvalidRequestKind::FrameDelayTooLarge {
        delay,
        max_delay: max as usize,
    })) && w == v
    &&& !v.frozen && delay <= max && delay == v.frame_delay ==> r is Ok && w == v
    &&& live && v.last_added == NULL_FRAME ==> r is Ok && w == (QueueView {
        frame_delay: delay as int,
        ..v
    })
    &&& live && v.last_added != NULL_FRAME && delay < v.frame_delay ==> (r matches Err(
        FortressError::InvalidRequestStructured { kind },
    ) && kind == (InvalidRequestKind::InputDelayDecreaseUnsupported {
        current: v.frame_delay as usize,
        requested: delay,
    })) && w == v
    &&& live && v.last_added != NULL_FRAME && delay > v.frame_delay && fits ==> r is Ok
        && w == (QueueView {
        frame_delay: delay as int,
        ..append_entries(
            v,
            fill_entries(v.last_added + 1, delta, v.slots[prev_position(v)].input),
        )
    })
    &&& live && v.last_added != NULL_FRAME && delay > v.frame_delay && !fits ==> (r matches Err(
        FortressError::InternalErrorStructured { kind },
    ) && kind == (InternalErrorKind::InputQueueGapFillFailed {
        frame: frame_at(failed_at),
    })) && w == v
}

/// A broken internal invariant of an [`InputQueue`], as reported by
/// [`InputQueue::check_invariants`].
#[derive(Debug, Clone, Copy, PartialEq, Eq)]
pub enum InvariantViolation {
    /// More inputs are kept than the ring has slots.
    LengthExceedsQueueLength,
    /// The head lies outside the ring.
    HeadOutOfBounds,
    /// The tail lies outside the ring.
    TailOutOfBounds,
    /// The length does not match the distance from tail to head.
    LengthMismatch,
    /// The ring does not have `queue_length` slots.
    InputsWrongSize,
    /// The frame delay is above 255.
    FrameDelayOutOfBounds,
    /// The first incorrect frame is negative but not the null frame.
    FirstIncorrectFrameInvalid,
    /// The last requested frame is negative but not the null frame.
    LastRequestedFrameInvalid,
    /// The last added frame is negative but not the null frame.
    LastAddedFrameInvalid,
}

/// The first invariant that `v` breaks, in the order they are checked, or
/// `None`.
pub open spec fn queue_violation<I: Copy + Clone + PartialEq>(v: QueueView<I>) -> Option<InvariantViolation> {
    let ql = v.queue_length;
    let calculated = if v.head > v.tail {
        v.head - v.tail
    } else {
        ql - v.tail + v.head
    };
    if v.length > ql {
        Some(InvariantViolation::LengthExceedsQueueLength)
    } else if v.head >= ql {
        Some(InvariantViolation::HeadOutOfBounds)
    } else if v.tail >= ql {
        Some(InvariantViolation::TailOutOfBounds)
    } else if v.head == v.tail && v.length != 0 && v.length != ql {
        Some(InvariantViolation::LengthMismatch)
    } else if v.head != v.tail && v.length != calculated {
        Some(InvariantViolation::LengthMismatch)
    } else if v.slots.len() != ql {
        Some(InvariantViolation::InputsWrongSize)
    } else if v.frame_delay > 255 {
        Some(InvariantViolation::FrameDelayOutOfBounds)
    } else if v.first_incorrect != NULL_FRAME && v.first_incorrect < 0 {
        Some(InvariantViolation::FirstIncorrectFrameInvalid)
    } else if v.last_requested != NULL_FRAME && v.last_requested < 0 {
        Some(InvariantViolation::LastRequestedFrameInvalid)
    } else if v.last_added != NULL_FRAME && v.last_added < 0 {
        Some(InvariantViolation::LastAddedFrameInvalid)
    } else {
        None
    }
}

/// Holds the inputs of one player in a ring buffer. Inputs between `tail`
/// and `head` are kept; inputs not yet received are predicted from the last
/// confirmed input, and a received input that differs from its prediction is
/// remembered as the first incorrect frame.
#[derive(Debug, Clone, PartialEq)]
pub struct InputQueue<I: Copy + Clone + PartialEq> {
    head: usize,
    tail: usize,
    length: usize,
    first_frame: bool,
    last_added_frame: Frame,
    first_incorrect_frame: Frame,
    last_requested_frame: Frame,
    frame_delay: usize,
    player_index: usize,
    queue_length: usize,
    inputs: Vec<PlayerInput<I>>,
    prediction: PlayerInput<I>,
    last_confirmed_input: Option<I>,
    frozen: bool,
}

impl<I: Copy + Clone + PartialEq> View for InputQueue<I> {
    type V = QueueView<I>;

    closed spec fn view(&self) -> QueueView<I> {
        QueueView {
            slots: self.inputs@,
            head: self.head as int,
            tail: self.tail as int,
            length: self.length as int,
            last_added: self.last_added_frame@,
            first_frame: self.first_frame,
            first_incorrect: self.first_incorrect_frame@,
            last_requested: self.last_requested_frame@,
            frame_delay: self.frame_delay as int,
            player_index: self.player_index as int,
            queue_length: self.queue_length as int,
            prediction_frame: self.prediction.frame@,
            prediction_input: self.prediction.input,
            last_confirmed: self.last_confirmed_input,
            frozen: self.frozen,
        }
    }
}

impl<I: Copy + Clone + PartialEq + Default> InputQueue<I> {
    /// The queue's internal invariant: positions inside the ring, the kept
    /// inputs at consecutive frames ending at the last added frame, the slot
    /// of each frame being its number modulo the queue length, and the
    /// prediction frame being unset or the frame after the last added one.
    /// It also asks that `==` on inputs compare values.
    pub closed spec fn wf(&self) -> bool {
        let ql = self.queue_length as int;
        let la = self.last_added_frame@;
        &&& I::obeys_eq_spec()
        &&& ql >= 2
        &&& self.inputs@.len() == ql
        &&& self.head < ql
        &&& self.tail < ql
        &&& self.length <= ql
        &&& self.head as int == (self.tail + self.length) % ql
        &&& self.frame_delay < ql
        &&& la >= -1
        &&& self.first_frame == (la == -1)
        &&& self.head as int == (la + 1) % ql
        &&& self.length <= la + 1
        &&& forall|i: int|
            0 <= i < self.length ==> #[trigger] self.inputs@[(self.tail + i) % ql].frame@ == la + 1
                - self.length + i
        &&& self.inputs@[(self.head + ql - 1) % ql].frame@ == la
        &&& (self.prediction.frame@ == NULL_FRAME || self.prediction.frame@ == saturate_i32(la + 1))
        &&& self.first_incorrect_frame@ >= -1
    }

    /// The well-formedness of a queue, seen through its view.
    pub proof fn lemma_view_facts(&self)
        requires
            self.wf(),
        ensures
            self@.queue_length >= 2,
            self@.slots.len() == self@.queue_length,
            0 <= self@.head < self@.queue_length,
            0 <= self@.tail < self@.queue_length,
            0 <= self@.length <= self@.queue_length,
            0 <= self@.frame_delay < self@.queue_length,
            self@.last_added >= -1,
            self@.first_frame == (self@.last_added == NULL_FRAME),
            self@.head == (self@.last_added + 1) % self@.queue_length,
            self@.length <= self@.last_added + 1,
            forall|i: int|
                0 <= i < self@.length ==> #[trigger] window(self@)[i].frame@ == self@.last_added + 1
                    - self@.length + i,
            self@.slots[prev_position(self@)].frame@ == self@.last_added,
            self@.prediction_frame == NULL_FRAME || self@.prediction_frame == saturate_i32(
                self@.last_added + 1,
            ),
            self@.first_incorrect >= -1,
    {
        assert forall|i: int| 0 <= i < self@.length implies #[trigger] window(self@)[i].frame@
            == self@.last_added + 1 - self@.length + i by {
            assert(self.inputs@[(self.tail + i) % (self.queue_length as int)].frame@
                == self.last_added_frame@ + 1 - self.length + i);
        }
    }

    /// A queue of the default length, [`INPUT_QUEUE_LENGTH`]; `None` when
    /// its ring cannot be allocated.
    pub fn new(player_index: usize) -> (r: Option<Self>)
        requires
            I::obeys_eq_spec(),
        ensures
            r matches Some(q) ==> q.wf() && is_initial(q@, player_index as int, INPUT_QUEUE_LENGTH as int),
    {
        Self::with_queue_length(player_index, INPUT_QUEUE_LENGTH)
    }

    /// An empty queue of `queue_length` slots, or `None` when
    /// `queue_length < 2` or the ring cannot be allocated.
    pub fn with_queue_length(player_index: usize, queue_length: usize) -> (r: Option<Self>)
        requires
            I::obeys_eq_spec(),
        ensures
            queue_length < 2 ==> r is None,
            r matches Some(q) ==> q.wf() && is_initial(q@, player_index as int, queue_length as int),
    {
        match Self::try_with_queue_length(player_index, queue_length) {
            Ok(q) => Some(q),
            Err(_) => None,
        }
    }

    /// An empty queue of `queue_length` slots; a length below 2 is a
    /// `QueueLengthTooSmall` request error, and a ring that cannot be
    /// allocated (always so when its slots would need more than
    /// `isize::MAX` bytes) an `AllocationFailed` request error.
    pub fn try_with_queue_length(player_index: usize, queue_length: usize) -> (r: Result<
        Self,
        FortressError,
    >)
        requires
            I::obeys_eq_spec(),
        ensures
            queue_length < 2 ==> (r matches Err(FortressError::InvalidRequestStructured { kind })
                && kind == (InvalidRequestKind::QueueLengthTooSmall { length: queue_length })),
            queue_length >= 2 ==> (r matches Ok(q) && q.wf() && is_initial(
                q@,
                player_index as int,
                queue_length as int,
            )) || (r matches Err(FortressError::InvalidRequestStructured { kind }) && kind == (
            InvalidRequestKind::AllocationFailed {
                context: "input_queue.inputs",
                requested_elements: queue_length as u64,
            })),
            queue_length >= 2 && ring_overflows(queue_length as int) ==> (r matches Err(
                FortressError::InvalidRequestStructured { kind },
            ) && kind == (InvalidRequestKind::AllocationFailed {
                context: "input_queue.inputs",
                requested_elements: queue_length as u64,
            })),
    {
        if queue_length < 2 {
            return Err(
                FortressError::InvalidRequestStructured {
                    kind: InvalidRequestKind::QueueLengthTooSmall { length: queue_length },
                },
            );
        }
        let mut inputs: Vec<PlayerInput<I>> = Vec::new();
        let reserved = try_reserve_exact(&mut inputs, queue_length);
        Self::with_reserved_ring(player_index, queue_length, inputs, reserved)
    }

    /// An empty queue of `queue_length` slots built in `ring`, given whether
    /// room for the slots was `reserved`: a length below 2 is a
    /// `QueueLengthTooSmall` request error, a refused reservation an
    /// `AllocationFailed` request error naming the `input_queue.inputs`
    /// ring and `queue_length` elements, and otherwise `ring` is emptied and
    /// filled with blank slots.
    pub fn with_reserved_ring(
        player_index: usize,
        queue_length: usize,
        ring: Vec<PlayerInput<I>>,
        reserved: bool,
    ) -> (r: Result<Self, FortressError>)
        requires
            I::obeys_eq_spec(),
        ensures
            queue_length < 2 ==> (r matches Err(FortressError::InvalidRequestStructured { kind })
                && kind == (InvalidRequestKind::QueueLengthTooSmall { length: queue_length })),
            queue_length >= 2 && !reserved ==> (r matches Err(
                FortressError::InvalidRequestStructured { kind },
            ) && kind == (InvalidRequestKind::AllocationFailed {
                context: "input_queue.inputs",
                requested_elements: queue_length as u64,
            })),
            queue_length >= 2 && reserved ==> (r matches Ok(q) && q.wf() && is_initial(
                q@,
                player_index as int,
                queue_length as int,
            )),
    {
        if queue_length < 2 {
            return Err(
                FortressError::InvalidRequestStructured {
                    kind: InvalidRequestKind::QueueLengthTooSmall { length: queue_length },
                },
            );
        }
        if !reserved {
            return Err(
                FortressError::InvalidRequestStructured {
                    kind: InvalidRequestKind::AllocationFailed {
                        context: "input_queue.inputs",
                        requested_elements: queue_length as u64,
                    },
                },
            );
        }
        let mut inputs = ring;
        inputs.clear();
        let mut k: usize = 0;
        while k < queue_length
            invariant
                k <= queue_length,
                inputs@.len() == k,
                forall|j: int| 0 <= j < k ==> #[trigger] is_blank_slot(inputs@[j]),
            decreases queue_length - k,
        {
            inputs.push(PlayerInput::blank_input(Frame::null()));
            k = k + 1;
        }
        let q = InputQueue {
            head: 0,
            tail: 0,
            length: 0,
            frame_delay: 0,
            first_frame: true,
            last_added_frame: Frame::null(),
            first_incorrect_frame: Frame::null(),
            last_requested_frame: Frame::null(),
            prediction: PlayerInput::blank_input(Frame::null()),
            inputs,
            player_index,
            queue_length,
            last_confirmed_input: None,
            frozen: false,
        };
        proof {
            vstd::arithmetic::div_mod::lemma_small_mod(0, queue_length as nat);
            vstd::arithmetic::div_mod::lemma_small_mod((queue_length - 1) as nat, queue_length as nat);
            assert(is_blank_slot(q.inputs@[(queue_length - 1) as int]));
        }
        Ok(q)
    }

    /// The number of slots.
    pub fn queue_length(&self) -> (r: usize)
        ensures
            r == self@.queue_length,
    {
        self.queue_length
    }

    /// The largest accepted frame delay, `queue_length - 1`.
    pub fn max_frame_delay(&self) -> (r: usize)
        requires
            self.wf(),
        ensures
            r == self@.queue_length - 1,
    {
        self.queue_length - 1
    }

    /// The first frame known to be mispredicted, or the null frame.
    pub fn first_incorrect_frame(&self) -> (r: Frame)
        ensures
            r@ == self@.first_incorrect,
    {
        self.first_incorrect_frame
    }

    /// The delay added to every input's frame.
    pub fn frame_delay(&self) -> (r: usize)
        ensures
            r == self@.frame_delay,
    {
        self.frame_delay
    }

    /// Where the next input is written.
    pub fn head(&self) -> (r: usize)
        ensures
            r == self@.head,
    {
        self.head
    }

    /// Where the oldest kept input is.
    pub fn tail(&self) -> (r: usize)
        ensures
            r == self@.tail,
    {
        self.tail
    }

    /// How many inputs are kept.
    pub fn length(&self) -> (r: usize)
        ensures
            r == self@.length,
    {
        self.length
    }

    /// Whether the queue has never taken an input since it was made or
    /// repositioned to frame 0.
    pub fn first_frame(&self) -> (r: bool)
        ensures
            r == self@.first_frame,
            self.wf() ==> r == (self@.last_added == NULL_FRAME),
    {
        self.first_frame
    }

    /// The frame last asked for, or the null frame.
    pub fn last_requested_frame(&self) -> (r: Frame)
        ensures
            r@ == self@.last_requested,
    {
        self.last_requested_frame
    }

    /// The frame the next prediction check is for, or the null frame when
    /// the queue is not predicting.
    pub fn prediction_frame(&self) -> (r: Frame)
        ensures
            r@ == self@.prediction_frame,
    {
        self.prediction.frame
    }

    /// The frame of the most recently added input, or the null frame.
    pub fn last_added_frame(&self) -> (r: Frame)
        ensures
            r@ == self@.last_added,
    {
        self.last_added_frame
    }

    /// The most recently confirmed input, if any.
    pub fn last_confirmed_input(&self) -> (r: Option<I>)
        ensures
            r == self@.last_confirmed,
    {
        self.last_confirmed_input
    }

    /// Whether added inputs are being ignored.
    pub fn is_frozen(&self) -> (r: bool)
        ensures
            r == self@.frozen,
    {
        self.frozen
    }

    /// Stops accepting inputs; the last confirmed input stays as it is.
    pub fn freeze(&mut self)
        requires
            old(self).wf(),
        ensures
            final(self).wf(),
            final(self)@ == (QueueView { frozen: true, ..old(self)@ }),
    {
        self.frozen = true;
    }

    /// Accepts inputs again.
    pub fn unfreeze(&mut self)
        requires
            old(self).wf(),
        ensures
            final(self).wf(),
            final(self)@ == (QueueView { frozen: false, ..old(self)@ }),
    {
        self.frozen = false;
    }

    /// Freezes the queue with `value` as its last confirmed input.
    pub fn refreeze_with_value(&mut self, value: Option<I>)
        requires
            old(self).wf(),
        ensures
            final(self).wf(),
            final(self)@ == (QueueView { frozen: true, last_confirmed: value, ..old(self)@ }),
    {
        self.last_confirmed_input = value;
        self.frozen = true;
    }

    /// Leaves prediction mode: clears the prediction frame, the first
    /// incorrect frame and the last requested frame.
    pub fn reset_prediction(&mut self)
        requires
            old(self).wf(),
        ensures
            final(self).wf(),
            final(self)@ == (QueueView {
                prediction_frame: NULL_FRAME as int,
                first_incorrect: NULL_FRAME as int,
                last_requested: NULL_FRAME as int,
                ..old(self)@
            }),
    {
        self.prediction.frame = Frame::null();
        self.first_incorrect_frame = Frame::null();
        self.last_requested_frame = Frame::null();
    }

    /// Writes `input` at frame `frame_number` behind the newest input and
    /// updates the prediction bookkeeping. Accepted only when
    /// `frame_number` follows the last added frame (frame 0 on an empty
    /// queue) and a slot is free; otherwise nothing changes.
    fn add_input_by_frame(&mut self, input: PlayerInput<I>, frame_number: Frame) -> (r: bool)
        requires
            old(self).wf(),
            frame_number@ >= 0,
        ensures
            final(self).wf(),
            r == (frame_number@ == old(self)@.last_added + 1 && old(self)@.length < old(self)@.queue_length),
            r ==> final(self)@ == append_one(
                old(self)@,
                PlayerInput { frame: frame_number, input: input.input },
            ),
            !r ==> final(self)@ == old(self)@,
    {
        let ghost ql = self.queue_length as int;
        let previous_position = if self.head == 0 {
            self.queue_length - 1
        } else {
            self.head - 1
        };
        proof {
            if self.head == 0 {
                vstd::arithmetic::div_mod::lemma_small_mod((ql - 1) as nat, ql as nat);
            } else {
                vstd::arithmetic::div_mod::lemma_mod_add_multiples_vanish(self.head - 1, ql);
                vstd::arithmetic::div_mod::lemma_small_mod((self.head - 1) as nat, ql as nat);
            }
            assert(previous_position == (self.head + ql - 1) % ql);
        }
        let expected_next = safe_frame_add(self.last_added_frame, 1, "add_input_by_frame");
        if !self.last_added_frame.is_null() && frame_number != expected_next {
            return false;
        }
        if frame_number.as_i32() != 0 {
            let expected_prev = safe_frame_sub(frame_number, 1, "add_input_by_frame");
            if self.inputs[previous_position].frame != expected_prev {
                return false;
            }
        }
        if self.length >= self.queue_length {
            return false;
        }
        let ghost old_view = self@;
        let ghost entry = PlayerInput { frame: frame_number, input: input.input };
        let stored = PlayerInput { frame: frame_number, input: input.input };
        self.inputs.set(self.head, stored);
        let next_head = if self.head + 1 == self.queue_length {
            0
        } else {
            self.head + 1
        };
        proof {
            lemma_mod_succ(self.head as int, ql);
            vstd::arithmetic::div_mod::lemma_small_mod(self.head as nat, ql as nat);
            assert(next_head == (self.head + 1) % ql);
        }
        let ghost old_head = self.head as int;
        self.head = next_head;
        self.length = self.length + 1;
        self.first_frame = false;
        self.last_added_frame = frame_number;
        self.last_confirmed_input = Some(input.input);
        if !self.prediction.frame.is_null() {
            if frame_number != self.prediction.frame {
                if self.first_incorrect_frame.is_null() {
                    self.first_incorrect_frame = if frame_number.as_i32() < self.prediction.frame.as_i32() {
                        frame_number
                    } else {
                        self.prediction.frame
                    };
                }
                self.prediction.frame = safe_frame_add(frame_number, 1, "add_input_by_frame");
            } else {
                if self.first_incorrect_frame.is_null() && !self.prediction.equal(&input, true) {
                    self.first_incorrect_frame = frame_number;
                }
                if self.prediction.frame == self.last_requested_frame
                    && self.first_incorrect_frame.is_null() {
                    self.prediction.frame = Frame::null();
                } else {
                    self.prediction.frame = safe_frame_add(
                        self.prediction.frame,
                        1,
                        "add_input_by_frame",
                    );
                }
            }
        }
        proof {
            let old_tail = old_view.tail;
            let old_len = old_view.length;
            let la = frame_number@;
            // the new head is one past the old tail window
            lemma_mod_succ(old_tail + old_len, ql);
            vstd::arithmetic::div_mod::lemma_add_mod_noop(old_tail + old_len, 0, ql);
            lemma_mod_succ(old_view.last_added + 1, ql);
            vstd::arithmetic::div_mod::lemma_mod_twice(old_tail + old_len, ql);
            vstd::arithmetic::div_mod::lemma_mod_twice(old_view.last_added + 1, ql);
            assert(self.head as int == (self.tail + self.length) % ql);
            assert(self.head as int == (la + 1) % ql);
            assert forall|i: int| 0 <= i < self.length implies #[trigger] self.inputs@[(self.tail + i)
                % ql].frame@ == la + 1 - self.length + i by {
                if i < old_len {
                    vstd::arithmetic::div_mod::lemma_mod_twice(old_tail + old_len, ql);
                    if (old_tail + i) % ql == old_head {
                        lemma_mod_injective(old_tail, i, old_len, ql);
                    }
                    assert(old_view.slots[(old_tail + i) % ql].frame@ == old_view.last_added + 1
                        - old_len + i);
                } else {
                    assert((old_tail + i) % ql == old_head);
                }
            }
            lemma_prev_of_succ(old_head, ql);
            assert(self@ == append_one(old_view, entry));
        }
        true
    }

    /// Moves the head to the frame of an input at `input_frame` plus the
    /// frame delay. The frames from the expected one (0 on a queue that has
    /// never taken an input, else the frame after the last added one) up to
    /// that frame are first filled with the input in the newest slot. Returns the delayed frame, or the null frame (changing nothing)
    /// when that frame lies before the expected one or the inputs would not
    /// fit in the free slots.
    fn advance_queue_head(&mut self, input_frame: Frame) -> (r: Frame)
        requires
            old(self).wf(),
        ensures
            final(self).wf(),
            ({
                let v = old(self)@;
                let eff = saturate_i32(input_frame@ + (v.frame_delay as i32) as int);
                let start = if v.last_added == NULL_FRAME {
                    0
                } else {
                    saturate_i32(v.last_added + 1)
                };
                let ok = start <= eff && eff - start + 1 <= v.queue_length - v.length;
                &&& ok ==> r@ == eff && final(self)@ == append_entries(
                    v,
                    fill_entries(start, eff - start, v.slots[prev_position(v)].input),
                )
                &&& ok ==> final(self)@.length == v.length + (eff - start)
                &&& ok && eff > start ==> final(self)@.last_added == eff - 1
                &&& ok ==> window(final(self)@) =~= window(v) + fill_entries(
                    start,
                    eff - start,
                    v.slots[prev_position(v)].input,
                )
                &&& ok ==> forall|k: int|
                    0 <= k < eff - start ==> confirmed_at(final(self)@, #[trigger] frame_at(start + k))
                        == Some(v.slots[prev_position(v)].input)
                &&& !ok ==> r@ == NULL_FRAME && final(self)@ == v
            }),
    {
        let ghost v = self@;
        let ghost ql = self.queue_length as int;
        proof {
            self.lemma_view_facts();
        }
        let previous_position = if self.head == 0 {
            self.queue_length - 1
        } else {
            self.head - 1
        };
        proof {
            if self.head == 0 {
                vstd::arithmetic::div_mod::lemma_small_mod((ql - 1) as nat, ql as nat);
            } else {
                vstd::arithmetic::div_mod::lemma_mod_add_multiples_vanish(self.head - 1, ql);
                vstd::arithmetic::div_mod::lemma_small_mod((self.head - 1) as nat, ql as nat);
            }
            assert(previous_position == prev_position(v));
        }
        let mut expected_frame = if self.first_frame {
            Frame::new(0)
        } else {
            safe_frame_add(self.inputs[previous_position].frame, 1, "advance_queue_head")
        };
        let ghost start = expected_frame@;
        let input_frame = safe_frame_add(input_frame, self.frame_delay as i32, "advance_queue_head");
        if expected_frame.as_i32() > input_frame.as_i32() {
            return Frame::null();
        }
        let needed: usize = (input_frame.as_i32() as i64 - expected_frame.as_i32() as i64 + 1) as usize;
        if needed > self.queue_length - self.length {
            return Frame::null();
        }
        let ghost gap = v.slots[prev_position(v)].input;
        proof {
            vstd::arithmetic::div_mod::lemma_small_mod(v.head as nat, ql as nat);
            assert(v.head == (v.head + 0) % ql);
        }
        while expected_frame.as_i32() < input_frame.as_i32()
            invariant
                self.wf(),
                self.queue_length == ql,
                ql == v.queue_length,
                0 <= v.head < ql,
                0 <= v.length,
                start <= expected_frame@ <= input_frame@,
                input_frame@ - start + 1 <= ql - v.length,
                self@ == append_entries(v, fill_entries(start, expected_frame@ - start, gap)),
                self@.last_added == expected_frame@ - 1 || expected_frame@ == input_frame@,
                self@.length == v.length + (expected_frame@ - start),
                self@.head == (v.head + (expected_frame@ - start)) % ql,
                self.inputs@[previous_position as int] == v.slots[prev_position(v)],
                previous_position == prev_position(v),
                gap == v.slots[prev_position(v)].input,
                previous_position < ql,
            decreases input_frame@ - expected_frame@,
        {
            let input_to_replicate = self.inputs[previous_position];
            assert(input_to_replicate == self.inputs@[previous_position as int]);
            assert(input_to_replicate == v.slots[prev_position(v)]);
            let ghost before = self@;
            let ghost k = expected_frame@ - start;
            proof {
                self.lemma_view_facts();
                assert(self@.last_added == expected_frame@ - 1);
                assert(0 <= k < ql - 1);
            }
            let added = self.add_input_by_frame(input_to_replicate, expected_frame);
            if !added {
                proof {
                    assert(false);
                }
                return Frame::null();
            }
            proof {
                let es = fill_entries(start, k + 1, gap);
                assert(es.drop_last() =~= fill_entries(start, k, gap));
                assert(frame_at(start + k)@ == expected_frame@);
                assert(es.last() == PlayerInput { frame: expected_frame, input: gap });
                assert(append_entries(v, es) == append_one(
                    append_entries(v, es.drop_last()),
                    es.last(),
                ));
                assert(input_to_replicate.input == gap);
                assert(before == append_entries(v, es.drop_last()));
                assert(self@ == append_one(before, PlayerInput { frame: expected_frame, input: gap }));
                assert(self@ == append_entries(v, es));
                // the write went to the old head, which is not the slot
                // behind the original head
                if (v.head + k) % ql == (v.head + (ql - 1)) % ql {
                    lemma_mod_injective(v.head, k, ql - 1, ql);
                }
                assert(self.inputs@[previous_position as int] == v.slots[prev_position(v)]);
                lemma_mod_succ(v.head + k, ql);
                vstd::arithmetic::div_mod::lemma_mod_twice(v.head + k, ql);
            }
            expected_frame = safe_frame_add(expected_frame, 1, "advance_queue_head");
        }
        let previous_position = if self.head == 0 {
            self.queue_length - 1
        } else {
            self.head - 1
        };
        proof {
            self.lemma_view_facts();
            if self.head == 0 {
                vstd::arithmetic::div_mod::lemma_small_mod((ql - 1) as nat, ql as nat);
            } else {
                vstd::arithmetic::div_mod::lemma_mod_add_multiples_vanish(self.head - 1, ql);
                vstd::arithmetic::div_mod::lemma_small_mod((self.head - 1) as nat, ql as nat);
            }
            assert(previous_position == prev_position(self@));
        }
        if input_frame.as_i32() != 0 {
            let expected = safe_frame_add(self.inputs[previous_position].frame, 1, "advance_queue_head");
            if input_frame != expected {
                proof {
                    assert(false);
                }
                return Frame::null();
            }
        }
        proof {
            let es = fill_entries(start, input_frame@ - start, gap);
            lemma_window_append_entries(v, es);
            lemma_append_entries_keeps(v, es);
            law_kept_inputs_are_confirmed(self);
            assert forall|k: int| 0 <= k < input_frame@ - start implies confirmed_at(
                self@,
                #[trigger] frame_at(start + k),
            ) == Some(gap) by {
                assert(window(self@)[v.length + k] == es[k]);
                assert(confirmed_at(self@, window(self@)[v.length + k].frame) == Some(
                    window(self@)[v.length + k].input,
                ));
            }
        }
        input_frame
    }

    /// Adds the input of the next frame. The input's frame plus the frame
    /// delay must follow the last added frame; on a queue that has never
    /// taken an input, frames from 0 up to it are filled with the newest
    /// slot's input first. Returns the frame under which the input was
    /// stored, or the null frame when the input was dropped (not sequential,
    /// or the inputs would not fit). A frozen queue ignores the input and
    /// returns its last added frame.
    pub fn add_input(&mut self, input: PlayerInput<I>) -> (r: Frame)
        requires
            old(self).wf(),
        ensures
            final(self).wf(),
            add_input_post(old(self)@, input, r, final(self)@),
    {
        let ghost v = self@;
        proof {
            self.lemma_view_facts();
        }
        if self.frozen {
            return self.last_added_frame;
        }
        let input_with_delay = safe_frame_add(input.frame, self.frame_delay as i32, "add_input");
        let expected_frame = safe_frame_add(self.last_added_frame, 1, "add_input");
        if !self.last_added_frame.is_null() && input_with_delay != expected_frame {
            return Frame::null();
        }
        let new_frame = self.advance_queue_head(input.frame);
        if new_frame.is_null() {
            return new_frame;
        }
        let ghost mid = self@;
        proof {
            self.lemma_view_facts();
        }
        if !self.add_input_by_frame(input, new_frame) {
            proof {
                let g = v.slots[prev_position(v)].input;
                if v.last_added == NULL_FRAME {
                    let eff = saturate_i32(input.frame@ + (v.frame_delay as i32) as int);
                    assert(v.length == 0);
                    assert(new_frame@ == eff);
                    assert(mid.length == eff);
                    lemma_append_entries_keeps(v, fill_entries(0, eff, v.slots[prev_position(v)].input));
                    assert(mid.last_added == eff - 1);
                    assert(mid.length < mid.queue_length);
                    assert(false);
                } else {
                    let start = saturate_i32(v.last_added + 1);
                    assert(new_frame@ == start);
                    assert(fill_entries(start, new_frame@ - start, g) =~= Seq::<PlayerInput<I>>::empty());
                    assert(mid == v);
                }
            }
            return Frame::null();
        }
        proof {
            let start = if v.last_added == NULL_FRAME {
                0
            } else {
                v.last_added + 1
            };
            let fill = fill_entries(start, new_frame@ - start, v.slots[prev_position(v)].input);
            let es = fill.push(PlayerInput { frame: new_frame, input: input.input });
            assert(es.drop_last() =~= fill);
        }
        new_frame
    }

    /// The input of `requested_frame` and whether it was received or is a
    /// prediction. A kept input is returned as confirmed; a frame past the
    /// kept ones gets the prediction, which is made from the last confirmed
    /// input when prediction starts, and is checked from the frame after the
    /// last added one on. `None` while a misprediction is pending, or for a
    /// frame before the oldest kept one. Every call that gets past the
    /// pending-misprediction check records `requested_frame` as the last
    /// requested frame.
    pub fn input(&mut self, requested_frame: Frame) -> (r: Option<(I, InputStatus)>)
        requires
            old(self).wf(),
        ensures
            final(self).wf(),
            input_post(old(self)@, requested_frame, r, final(self)@),
    {
        let ghost v = self@;
        let ghost ql = self.queue_length as int;
        proof {
            self.lemma_view_facts();
        }
        if !self.first_incorrect_frame.is_null() {
            return None;
        }
        self.last_requested_frame = requested_frame;
        let tail_input = self.inputs[self.tail];
        if requested_frame.as_i32() < tail_input.frame.as_i32() {
            return None;
        }
        if self.prediction.frame.as_i32() < 0 {
            let offset = match frame_distance_usize(tail_input.frame, requested_frame) {
                Some(o) => o,
                None => {
                    return None;
                },
            };
            if offset < self.length {
                let index = match circular_index_add(self.tail, offset, self.queue_length) {
                    Some(i) => i,
                    None => {
                        return None;
                    },
                };
                let input_at_offset = self.inputs[index];
                proof {
                    assert(window(v)[offset as int] == self.inputs@[index as int]);
                    assert(window(v)[0].frame@ == tail_input.frame@) by {
                        vstd::arithmetic::div_mod::lemma_small_mod(self.tail as nat, ql as nat);
                        assert(window(v)[0] == self.inputs@[(self.tail + 0) % ql]);
                    }
                }
                proof {
                    assert(window(v)[0].frame@ == v.last_added + 1 - v.length);
                    assert(window(v)[offset as int].frame@ == v.last_added + 1 - v.length + offset);
                    assert(input_at_offset.frame@ == requested_frame@);
                }
                if input_at_offset.frame != requested_frame {
                    proof {
                        assert(false);
                    }
                    return None;
                }
                return Some((input_at_offset.input, InputStatus::Confirmed));
            }
            let strategy = RepeatLastConfirmed;
            let predicted = strategy.predict(
                requested_frame,
                self.last_confirmed_input,
                self.player_index,
            );
            let entry_frame = safe_frame_add(self.last_added_frame, 1, "input");
            self.prediction = PlayerInput { frame: entry_frame, input: predicted };
        }
        if self.prediction.frame.is_null() {
            return None;
        }
        Some((self.prediction.input, InputStatus::Predicted))
    }

    /// Drops the kept inputs before `frame` (never past the last requested
    /// frame). When that frame is at or past the last added one, only the
    /// newest input is kept; a frame at or before the oldest kept one drops
    /// nothing; an empty queue stays as it is.
    pub fn discard_confirmed_frames(&mut self, frame: Frame)
        requires
            old(self).wf(),
        ensures
            final(self).wf(),
            discard_post(old(self)@, frame, final(self)@),
    {
        let ghost v = self@;
        let ghost ql = self.queue_length as int;
        proof {
            self.lemma_view_facts();
        }
        if self.length == 0 {
            return ;
        }
        let mut frame = frame;
        if !self.last_requested_frame.is_null() && self.last_requested_frame.as_i32() < frame.as_i32() {
            frame = self.last_requested_frame;
        }
        if frame.as_i32() >= self.last_added_frame.as_i32() {
            self.tail = if self.head == 0 {
                self.queue_length - 1
            } else {
                self.head - 1
            };
            self.length = 1;
            proof {
                let h = v.head;
                if h == 0 {
                    vstd::arithmetic::div_mod::lemma_small_mod((ql - 1) as nat, ql as nat);
                } else {
                    vstd::arithmetic::div_mod::lemma_mod_add_multiples_vanish(h - 1, ql);
                    vstd::arithmetic::div_mod::lemma_small_mod((h - 1) as nat, ql as nat);
                }
                assert(self.tail == prev_position(v));
                lemma_mod_succ(self.tail as int, ql);
                vstd::arithmetic::div_mod::lemma_small_mod(self.tail as nat, ql as nat);
                vstd::arithmetic::div_mod::lemma_small_mod(h as nat, ql as nat);
                assert(self.head as int == (self.tail + 1) % ql);
                assert(self.inputs@[(self.tail + 0) % ql] == self.inputs@[self.tail as int]);
                // the newest input sits at position length - 1 of the old window
                vstd::arithmetic::div_mod::lemma_mod_twice(v.tail + v.length, ql);
                lemma_prev_of_succ_general(v.tail, v.length, ql);
                assert(window(v)[v.length - 1] == self.inputs@[self.tail as int]);
            }
        } else {
            let tail_input = self.inputs[self.tail];
            if frame.as_i32() <= tail_input.frame.as_i32() {
            } else {
                let tail_frame = tail_input.frame;
                proof {
                    vstd::arithmetic::div_mod::lemma_small_mod(v.tail as nat, ql as nat);
                    assert(window(v)[0] == self.inputs@[(v.tail + 0) % ql]);
                    assert(window(v)[0].frame@ == v.last_added + 1 - v.length);
                    assert(tail_frame@ >= 0);
                }
                let offset = match frame_distance_usize(tail_frame, frame) {
                    Some(o) => o,
                    None => {
                        return ;
                    },
                };
                let new_length = match self.length.checked_sub(offset) {
                    Some(l) => l,
                    None => {
                        return ;
                    },
                };
                let new_tail = match circular_index_add(self.tail, offset, self.queue_length) {
                    Some(t) => t,
                    None => {
                        return ;
                    },
                };
                self.tail = new_tail;
                self.length = new_length;
                proof {
                    let d = offset as int;
                    vstd::arithmetic::div_mod::lemma_small_mod(v.tail as nat, ql as nat);
                    assert(window(v)[0] == self.inputs@[(v.tail + 0) % ql]);
                    assert(d < v.length);
                    vstd::arithmetic::div_mod::lemma_add_mod_noop(v.tail + d, new_length as int, ql);
                    vstd::arithmetic::div_mod::lemma_mod_twice(v.tail + d, ql);
                    vstd::arithmetic::div_mod::lemma_add_mod_noop_right(new_length as int, v.tail + d, ql);
                    assert(self.head as int == (self.tail + self.length) % ql);
                    assert forall|i: int| 0 <= i < self.length implies #[trigger] self.inputs@[(
                    self.tail + i) % ql] == window(v)[d + i] by {
                        vstd::arithmetic::div_mod::lemma_add_mod_noop_right(i, v.tail + d, ql);
                    }
                }
            }
        }
    }

    /// The input confirmed at `requested_frame`, looked up in the slot
    /// `requested_frame % queue_length`; for the null frame, or when that
    /// slot holds another frame, the result is a `NoConfirmedInput` request
    /// error.
    pub fn confirmed_input(&self, requested_frame: Frame) -> (r: Result<PlayerInput<I>, FortressError>)
        requires
            self.wf(),
        ensures
            ({
                let s = self@.slots[slot_of(requested_frame@, self@.queue_length)];
                let found = requested_frame@ != NULL_FRAME && s.frame == requested_frame;
                &&& found ==> r == Ok::<PlayerInput<I>, FortressError>(s)
                &&& !found ==> (r matches Err(FortressError::InvalidRequestStructured { kind })
                    && kind == (InvalidRequestKind::NoConfirmedInput { frame: requested_frame }))
                &&& r is Ok <==> confirmed_at(self@, requested_frame) is Some
            }),
    {
        if requested_frame.is_null() {
            return Err(
                FortressError::InvalidRequestStructured {
                    kind: InvalidRequestKind::NoConfirmedInput { frame: requested_frame },
                },
            );
        }
        let offset = requested_frame.as_i32() as usize % self.queue_length;
        if offset >= self.inputs.len() {
            return Err(
                FortressError::InternalErrorStructured {
                    kind: InternalErrorKind::IndexOutOfBounds(
                        IndexOutOfBounds { name: "inputs", index: offset, length: self.inputs.len() },
                    ),
                },
            );
        }
        let input = self.inputs[offset];
        if input.frame == requested_frame {
            return Ok(input);
        }
        Err(
            FortressError::InvalidRequestStructured {
                kind: InvalidRequestKind::NoConfirmedInput { frame: requested_frame },
            },
        )
    }
    /// Changes the frame delay. A frozen queue ignores the call. A delay
    /// above `queue_length - 1` is a `FrameDelayTooLarge` request error.
    /// Before any input was added the delay is simply replaced; afterwards a
    /// smaller delay is an `InputDelayDecreaseUnsupported` request error, and
    /// a larger one fills the new gap of frames after the last added one with
    /// the newest input. When those inputs do not fit (the ring is full, or
    /// the frames would leave `i32`), nothing changes and the result is an
    /// `InputQueueGapFillFailed` internal error naming the frame that could
    /// not be written.
    pub fn set_frame_delay(&mut self, delay: usize) -> (r: Result<(), FortressError>)
        requires
            old(self).wf(),
        ensures
            final(self).wf(),
            set_frame_delay_post(old(self)@, delay, r, final(self)@),
    {
        let ghost v = self@;
        let ghost ql = self.queue_length as int;
        proof {
            self.lemma_view_facts();
        }
        if self.frozen {
            return Ok(());
        }
        let max_delay = self.max_frame_delay();
        if delay > max_delay {
            return Err(
                FortressError::InvalidRequestStructured {
                    kind: InvalidRequestKind::FrameDelayTooLarge { delay, max_delay },
                },
            );
        }
        if delay == self.frame_delay {
            return Ok(());
        }
        if self.last_added_frame.is_null() {
            self.frame_delay = delay;
            return Ok(());
        }
        if delay < self.frame_delay {
            return Err(
                FortressError::InvalidRequestStructured {
                    kind: InvalidRequestKind::InputDelayDecreaseUnsupported {
                        current: self.frame_delay,
                        requested: delay,
                    },
                },
            );
        }
        let delta = delay - self.frame_delay;
        let room = self.queue_length - self.length;
        let headroom: usize = (i32::MAX - self.last_added_frame.as_i32()) as usize;
        if delta > room || delta > headroom {
            let stop = if room < headroom {
                Frame::new(self.last_added_frame.as_i32() + room as i32 + 1)
            } else {
                Frame::new(i32::MAX)
            };
            proof {
                let room_i = ql - v.length;
                let failed_at = if room_i < i32::MAX - v.last_added {
                    v.last_added + room_i + 1
                } else {
                    i32::MAX as int
                };
                assert(frame_at(failed_at)@ == stop@);
            }
            return Err(
                FortressError::InternalErrorStructured {
                    kind: InternalErrorKind::InputQueueGapFillFailed { frame: stop },
                },
            );
        }
        let prev = if self.head == 0 {
            self.queue_length - 1
        } else {
            self.head - 1
        };
        proof {
            if self.head == 0 {
                vstd::arithmetic::div_mod::lemma_small_mod((ql - 1) as nat, ql as nat);
            } else {
                vstd::arithmetic::div_mod::lemma_mod_add_multiples_vanish(self.head - 1, ql);
                vstd::arithmetic::div_mod::lemma_small_mod((self.head - 1) as nat, ql as nat);
            }
            assert(prev == prev_position(v));
        }
        let last_input = self.inputs[prev];
        let ghost g = last_input.input;
        let ghost start = v.last_added + 1;
        let mut i: usize = 0;
        while i < delta
            invariant
                self.wf(),
                self.queue_length == ql,
                0 <= i <= delta,
                delta <= ql - v.length,
                v.last_added + delta <= i32::MAX,
                v.last_added >= 0,
                start == v.last_added + 1,
                g == v.slots[prev_position(v)].input,
                last_input.input == g,
                self@ == append_entries(v, fill_entries(start, i as int, g)),
                self@.last_added == v.last_added + i,
                self@.length == v.length + i,
            decreases delta - i,
        {
            let next_frame = safe_frame_add(self.last_added_frame, 1, "set_frame_delay");
            let filler = PlayerInput { frame: next_frame, input: last_input.input };
            let ghost before = self@;
            proof {
                self.lemma_view_facts();
            }
            let added = self.add_input_by_frame(filler, next_frame);
            if !added {
                proof {
                    assert(false);
                }
                return Err(
                    FortressError::InternalErrorStructured {
                        kind: InternalErrorKind::InputQueueGapFillFailed { frame: next_frame },
                    },
                );
            }
            proof {
                let es = fill_entries(start, i + 1, g);
                assert(es.drop_last() =~= fill_entries(start, i as int, g));
                assert(frame_at(start + i)@ == next_frame@);
                assert(es.last() == PlayerInput { frame: next_frame, input: g });
                lemma_append_entries_keeps(v, es);
            }
            i = i + 1;
        }
        self.frame_delay = delay;
        Ok(())
    }

    /// Sets the last confirmed input to the input confirmed at `frame`;
    /// whether there was one. Nothing changes when there was none.
    fn roll_confirmed_input_to(&mut self, frame: Frame) -> (r: bool)
        requires
            old(self).wf(),
        ensures
            final(self).wf(),
            r == confirmed_at(old(self)@, frame) is Some,
            final(self)@ == (QueueView { last_confirmed: rolled_confirmed(old(self)@, frame), ..old(self)@ }),
    {
        if frame.is_null() {
            return false;
        }
        match self.confirmed_input(frame) {
            Ok(input) => {
                self.last_confirmed_input = Some(input.input);
                true
            },
            Err(_) => false,
        }
    }

    /// Freezes the queue with the input confirmed at `freeze_frame` as its
    /// last confirmed input, when there is one (otherwise the last confirmed
    /// input stays). An already frozen queue is left as it is.
    pub fn freeze_at(&mut self, freeze_frame: Frame)
        requires
            old(self).wf(),
        ensures
            final(self).wf(),
            old(self)@.frozen ==> final(self)@ == old(self)@,
            !old(self)@.frozen ==> final(self)@ == (QueueView {
                frozen: true,
                last_confirmed: rolled_confirmed(old(self)@, freeze_frame),
                ..old(self)@
            }),
    {
        if self.frozen {
            return ;
        }
        if !freeze_frame.is_null() {
            let _found = self.roll_confirmed_input_to(freeze_frame);
        }
        self.frozen = true;
    }

    /// On a frozen queue, sets the last confirmed input to the input
    /// confirmed at `frame`, when there is one. A queue that is not frozen,
    /// or the null frame, changes nothing.
    pub fn set_frozen_value_at(&mut self, frame: Frame)
        requires
            old(self).wf(),
        ensures
            final(self).wf(),
            !old(self)@.frozen ==> final(self)@ == old(self)@,
            old(self)@.frozen ==> final(self)@ == (QueueView {
                last_confirmed: rolled_confirmed(old(self)@, frame),
                ..old(self)@
            }),
    {
        if !self.frozen {
            return ;
        }
        if frame.is_null() {
            return ;
        }
        let _found = self.roll_confirmed_input_to(frame);
    }

    /// Repositions the queue so that the next input it accepts is the one
    /// for game frame `frame`, as if every frame before it had been
    /// confirmed: all slots are blanked, the slot behind the head gets the
    /// frame before `frame` plus the delay with the last confirmed input,
    /// and the queue is unfrozen. The last confirmed input is kept. A
    /// negative frame, or one whose delayed frame leaves `i32`, changes
    /// nothing.
    pub fn reset_to_frame(&mut self, frame: Frame)
        requires
            old(self).wf(),
        ensures
            final(self).wf(),
            frame@ < 0 || frame@ + old(self)@.frame_delay > i32::MAX ==> final(self)@ == old(self)@,
            frame@ >= 0 && frame@ + old(self)@.frame_delay <= i32::MAX ==> is_reset(
                final(self)@,
                old(self)@,
                frame@ + old(self)@.frame_delay,
            ),
    {
        let ghost v = self@;
        let ghost ql = self.queue_length as int;
        proof {
            self.lemma_view_facts();
        }
        if frame.as_i32() < 0 {
            return ;
        }
        if self.frame_delay > i32::MAX as usize {
            return ;
        }
        let delayed = match frame.checked_add(self.frame_delay as i32) {
            Some(d) => d,
            None => {
                return ;
            },
        };
        let new_last_added = match delayed.checked_sub(1) {
            Some(l) => l,
            None => {
                return ;
            },
        };
        let mut blank: Vec<PlayerInput<I>> = Vec::new();
        let mut j: usize = 0;
        while j < self.queue_length
            invariant
                blank@.len() == j,
                self.queue_length == ql,
                0 <= j <= ql,
                forall|k: int| 0 <= k < j ==> #[trigger] is_blank_slot(blank@[k]),
            decreases ql - j,
        {
            blank.push(PlayerInput::blank_input(Frame::null()));
            j = j + 1;
        }
        self.inputs = blank;
        let d: i32 = delayed.as_i32();
        let next_slot = (d as usize) % self.queue_length;
        self.head = next_slot;
        self.tail = next_slot;
        self.length = 0;
        self.last_added_frame = new_last_added;
        self.first_frame = self.last_added_frame.is_null();
        self.first_incorrect_frame = Frame::null();
        self.last_requested_frame = Frame::null();
        self.prediction = PlayerInput::blank_input(Frame::null());
        self.frozen = false;
        let phantom_position = if next_slot == 0 {
            self.queue_length - 1
        } else {
            next_slot - 1
        };
        proof {
            if next_slot == 0 {
                vstd::arithmetic::div_mod::lemma_small_mod((ql - 1) as nat, ql as nat);
            } else {
                vstd::arithmetic::div_mod::lemma_mod_add_multiples_vanish(next_slot - 1, ql);
                vstd::arithmetic::div_mod::lemma_small_mod((next_slot - 1) as nat, ql as nat);
            }
            assert(phantom_position == prev_position(self@));
        }
        if !self.last_added_frame.is_null() {
            let value = match self.last_confirmed_input {
                Some(x) => x,
                None => I::default(),
            };
            let phantom = PlayerInput { frame: self.last_added_frame, input: value };
            self.inputs.set(phantom_position, phantom);
        }
        proof {
            let la = delayed@ - 1;
            assert(self.head as int == (la + 1) % ql);
            vstd::arithmetic::div_mod::lemma_small_mod(self.head as nat, ql as nat);
            assert(self.head as int == (self.tail + self.length) % ql);
            if la < 0 {
                vstd::arithmetic::div_mod::lemma_small_mod(0, ql as nat);
                assert(phantom_position == ql - 1);
                assert(is_blank_slot(self.inputs@[ql - 1]));
            }
        }
    }

    /// Checks the queue's bookkeeping: length, head and tail inside the
    /// ring and consistent with each other, the ring's size, a frame delay of
    /// at most 255, and the first incorrect, last requested and last added
    /// frames each null or non-negative. Reports the first check that fails.
    pub fn check_invariants(&self) -> (r: Result<(), InvariantViolation>)
        ensures
            queue_violation(self@) matches Some(e) ==> r == Err::<(), InvariantViolation>(e),
            queue_violation(self@) is None ==> r is Ok,
    {
        if self.length > self.queue_length {
            return Err(InvariantViolation::LengthExceedsQueueLength);
        }
        if self.head >= self.queue_length {
            return Err(InvariantViolation::HeadOutOfBounds);
        }
        if self.tail >= self.queue_length {
            return Err(InvariantViolation::TailOutOfBounds);
        }
        if self.head == self.tail {
            if self.length != 0 && self.length != self.queue_length {
                return Err(InvariantViolation::LengthMismatch);
            }
        } else {
            let calculated = if self.head > self.tail {
                self.head - self.tail
            } else {
                self.queue_length - self.tail + self.head
            };
            if self.length != calculated {
                return Err(InvariantViolation::LengthMismatch);
            }
        }
        if self.inputs.len() != self.queue_length {
            return Err(InvariantViolation::InputsWrongSize);
        }
        if self.frame_delay > 255 {
            return Err(InvariantViolation::FrameDelayOutOfBounds);
        }
        if !self.first_incorrect_frame.is_null() && self.first_incorrect_frame.as_i32() < 0 {
            return Err(InvariantViolation::FirstIncorrectFrameInvalid);
        }
        if !self.last_requested_frame.is_null() && self.last_requested_frame.as_i32() < 0 {
            return Err(InvariantViolation::LastRequestedFrameInvalid);
        }
        if !self.last_added_frame.is_null() && self.last_added_frame.as_i32() < 0 {
            return Err(InvariantViolation::LastAddedFrameInvalid);
        }
        Ok(())
    }

}

/// The head stays inside the ring, and the ring keeps its size, while
/// inputs are appended.
proof fn lemma_append_entries_head<I: Copy + Clone + PartialEq>(v: QueueView<I>, es: Seq<PlayerInput<I>>)
    requires
        0 <= v.head < v.queue_length,
        v.slots.len() == v.queue_length,
    ensures
        0 <= append_entries(v, es).head < v.queue_length,
        append_entries(v, es).slots.len() == v.queue_length,
    decreases es.len(),
{
    if es.len() > 0 {
        lemma_append_entries_head(v, es.drop_last());
        lemma_append_entries_keeps(v, es.drop_last());
        let x = append_entries(v, es.drop_last());
        vstd::arithmetic::div_mod::lemma_mod_pos_bound(x.head + 1, v.queue_length);
    }
}

/// Appending one input to a ring that is not full adds it to the end of the
/// window and keeps the head just past the window.
proof fn lemma_window_append_one<I: Copy + Clone + PartialEq>(v: QueueView<I>, e: PlayerInput<I>)
    requires
        v.queue_length >= 2,
        v.slots.len() == v.queue_length,
        0 <= v.tail < v.queue_length,
        0 <= v.length < v.queue_length,
        v.head == (v.tail + v.length) % v.queue_length,
    ensures
        window(append_one(v, e)) =~= window(v).push(e),
        append_one(v, e).head == (v.tail + v.length + 1) % v.queue_length,
{
    let ql = v.queue_length;
    let w = append_one(v, e);
    assert forall|i: int| 0 <= i < w.length implies #[trigger] window(w)[i] == window(v).push(e)[i] by {
        if i < v.length {
            if (v.tail + i) % ql == v.head {
                lemma_mod_injective(v.tail, i, v.length, ql);
            }
        }
    }
    lemma_mod_succ(v.tail + v.length, ql);
    vstd::arithmetic::div_mod::lemma_mod_twice(v.tail + v.length, ql);
    vstd::arithmetic::div_mod::lemma_mod_pos_bound(v.tail + v.length, ql);
}

/// Appending inputs to a ring with room for them adds them, in order, to
/// the end of the window.
proof fn lemma_window_append_entries<I: Copy + Clone + PartialEq>(v: QueueView<I>, es: Seq<PlayerInput<I>>)
    requires
        v.queue_length >= 2,
        v.slots.len() == v.queue_length,
        0 <= v.tail < v.queue_length,
        0 <= v.length,
        v.length + es.len() <= v.queue_length,
        v.head == (v.tail + v.length) % v.queue_length,
    ensures
        window(append_entries(v, es)) =~= window(v) + es,
        append_entries(v, es).head == (v.tail + v.length + es.len()) % v.queue_length,
    decreases es.len(),
{
    if es.len() == 0 {
        assert(window(v) + es =~= window(v));
    } else {
        let init = es.drop_last();
        lemma_window_append_entries(v, init);
        lemma_append_entries_keeps(v, init);
        lemma_append_entries_head(v, init);
        let x = append_entries(v, init);
        lemma_window_append_one(x, es.last());
        assert(window(v) + init.push(es.last()) =~= window(v) + es);
        assert(init.push(es.last()) =~= es);
    }
}

/// After the inputs `es.push(e)` are appended, `e` sits in the slot behind
/// the head and its frame is the last added one.
proof fn lemma_appended_last<I: Copy + Clone + PartialEq>(
    v: QueueView<I>,
    es: Seq<PlayerInput<I>>,
    e: PlayerInput<I>,
)
    requires
        0 <= v.head < v.queue_length,
        v.queue_length >= 2,
        v.slots.len() == v.queue_length,
    ensures
        ({
            let w = append_entries(v, es.push(e));
            &&& w.slots[prev_position(w)] == e
            &&& w.last_added == e.frame@
            &&& w.last_confirmed == Some(e.input)
        }),
{
    let x = append_entries(v, es);
    assert(es.push(e).drop_last() =~= es);
    assert(es.push(e).last() == e);
    lemma_append_entries_head(v, es);
    lemma_append_entries_keeps(v, es);
    lemma_prev_of_succ(x.head, v.queue_length);
}

/// Every input a well-formed queue keeps is found by `confirmed_input` at
/// its own frame.
pub proof fn law_kept_inputs_are_confirmed<I: Copy + Clone + PartialEq + Default>(q: &InputQueue<I>)
    requires
        q.wf(),
    ensures
        forall|i: int|
            0 <= i < q@.length ==> confirmed_at(q@, #[trigger] window(q@)[i].frame) == Some(
                window(q@)[i].input,
            ),
{
    q.lemma_view_facts();
    let v = q@;
    let ql = v.queue_length;
    assert forall|i: int| 0 <= i < v.length implies confirmed_at(v, #[trigger] window(v)[i].frame)
        == Some(window(v)[i].input) by {
        let f = v.last_added + 1 - v.length + i;
        assert(window(v)[i].frame@ == f);
        assert(f >= 0);
        // (tail + i) and f agree modulo the ring's size, since
        // (tail + length) and (last_added + 1) do.
        vstd::arithmetic::div_mod::lemma_add_mod_noop(v.tail + v.length, i - v.length, ql);
        vstd::arithmetic::div_mod::lemma_add_mod_noop(v.last_added + 1, i - v.length, ql);
        vstd::arithmetic::div_mod::lemma_mod_twice(v.tail + v.length, ql);
        assert(slot_of(f, ql) == f % ql);
        assert((v.tail + i) % ql == f % ql);
    }
}

/// An input that `add_input` accepted is found by `confirmed_input` at the
/// frame `add_input` returned, and is the newest kept input.
pub proof fn law_added_input_is_confirmed<I: Copy + Clone + PartialEq + Default>(
    q0: &InputQueue<I>,
    q1: &InputQueue<I>,
    input: PlayerInput<I>,
    r: Frame,
)
    requires
        q0.wf(),
        q1.wf(),
        add_input_post(q0@, input, r, q1@),
        !q0@.frozen,
        r@ != NULL_FRAME,
    ensures
        confirmed_at(q1@, r) == Some(input.input),
        q1@.length >= 1,
        window(q1@)[q1@.length - 1] == (PlayerInput { frame: r, input: input.input }),
        window(q1@) =~= window(q0@) + fill_entries(
            expected_start(q0@),
            r@ - expected_start(q0@),
            q0@.slots[prev_position(q0@)].input,
        ).push(PlayerInput { frame: r, input: input.input }),
{
    q0.lemma_view_facts();
    q1.lemma_view_facts();
    let v = q0@;
    let w = q1@;
    let ql = v.queue_length;
    let e = PlayerInput { frame: r, input: input.input };
    let start = expected_start(v);
    let eff = effective_frame(v, input);
    let fill = fill_entries(start, eff - start, v.slots[prev_position(v)].input);
    assert(add_accepted(v, input));
    lemma_appended_last(v, fill, e);
    lemma_append_entries_keeps(v, fill.push(e));
    assert(w.slots[prev_position(w)] == e);
    assert(r@ >= 0);
    // the slot behind the head is where frame `r` is looked up
    lemma_mod_succ(r@, ql);
    vstd::arithmetic::div_mod::lemma_mod_pos_bound(r@, ql);
    lemma_prev_of_succ(r@ % ql, ql);
    assert(prev_position(w) == r@ % ql);
    assert(slot_of(r@, ql) == r@ % ql);
    // the newest kept input is that slot too
    assert(w.length >= 1);
    lemma_prev_of_succ_general(w.tail, w.length, ql);
    vstd::arithmetic::div_mod::lemma_mod_twice(w.tail + w.length, ql);
    assert(window(w)[w.length - 1] == w.slots[(w.tail + w.length - 1) % ql]);
    // the window grew by the gap fill and the input
    lemma_append_entries_keeps(v, fill.push(e));
    lemma_window_append_entries(v, fill.push(e));
}

/// Appending inputs at consecutive frames after the last added one writes
/// only the slots of those frames: the slot of an earlier frame `f` that is
/// less than a ring's length behind the new last frame keeps its content.
proof fn lemma_append_keeps_slot<I: Copy + Clone + PartialEq>(v: QueueView<I>, es: Seq<PlayerInput<I>>, f: int)
    requires
        v.queue_length >= 2,
        v.slots.len() == v.queue_length,
        0 <= v.head < v.queue_length,
        v.last_added >= -1,
        v.head == (v.last_added + 1) % v.queue_length,
        forall|k: int| 0 <= k < es.len() ==> (#[trigger] es[k]).frame@ == v.last_added + 1 + k,
        0 <= f <= v.last_added,
        f > v.last_added + es.len() - v.queue_length,
    ensures
        append_entries(v, es).slots[f % v.queue_length] == v.slots[f % v.queue_length],
        append_entries(v, es).head == (v.last_added + 1 + es.len()) % v.queue_length,
    decreases es.len(),
{
    let ql = v.queue_length;
    if es.len() > 0 {
        let n = es.len() as int;
        let init = es.drop_last();
        assert forall|k: int| 0 <= k < init.len() implies (#[trigger] init[k]).frame@ == v.last_added
            + 1 + k by {
            assert(init[k] == es[k]);
        }
        lemma_append_keeps_slot(v, init, f);
        lemma_append_entries_head(v, init);
        assert(init.len() == n - 1);
        lemma_append_entries_keeps(v, init);
        let x = append_entries(v, init);
        assert(x.head == (v.last_added + n) % ql);
        assert(append_entries(v, es) == append_one(x, es.last()));
        vstd::arithmetic::div_mod::lemma_mod_pos_bound(f, ql);
        if (v.last_added + n) % ql == f % ql {
            lemma_mod_injective(f, 0, v.last_added + n - f, ql);
        }
        lemma_mod_succ(v.last_added + n, ql);
        vstd::arithmetic::div_mod::lemma_mod_twice(v.last_added + n, ql);
    }
}

/// An input confirmed at a frame already added stays confirmed after
/// `add_input`, as long as that frame is less than a ring's length behind
/// the new last added frame.
pub proof fn law_add_input_keeps_earlier_frames<I: Copy + Clone + PartialEq + Default>(
    q0: &InputQueue<I>,
    q1: &InputQueue<I>,
    input: PlayerInput<I>,
    r: Frame,
    f: Frame,
)
    requires
        q0.wf(),
        q1.wf(),
        add_input_post(q0@, input, r, q1@),
        0 <= f@ <= q0@.last_added,
        f@ > q1@.last_added - q1@.queue_length,
    ensures
        confirmed_at(q1@, f) == confirmed_at(q0@, f),
{
    q0.lemma_view_facts();
    let v = q0@;
    if !v.frozen && add_accepted(v, input) {
        let start = expected_start(v);
        let eff = effective_frame(v, input);
        let fill = fill_entries(start, eff - start, v.slots[prev_position(v)].input);
        let es = fill.push(PlayerInput { frame: r, input: input.input });
        assert forall|k: int| 0 <= k < es.len() implies (#[trigger] es[k]).frame@ == v.last_added + 1
            + k by {
            if k < fill.len() {
                assert(es[k] == fill[k]);
            }
        }
        lemma_appended_last(v, fill, PlayerInput { frame: r, input: input.input });
        lemma_append_entries_keeps(v, es);
        assert(q1@.last_added == v.last_added + es.len());
        lemma_append_keeps_slot(v, es, f@);
    }
}

/// An input confirmed at a frame already added stays confirmed after
/// `set_frame_delay`, as long as that frame is less than a ring's length
/// behind the new last added frame.
pub proof fn law_set_frame_delay_keeps_earlier_frames<I: Copy + Clone + PartialEq + Default>(
    q0: &InputQueue<I>,
    q1: &InputQueue<I>,
    delay: usize,
    r: Result<(), FortressError>,
    f: Frame,
)
    requires
        q0.wf(),
        q1.wf(),
        set_frame_delay_post(q0@, delay, r, q1@),
        0 <= f@ <= q0@.last_added,
        f@ > q1@.last_added - q1@.queue_length,
    ensures
        confirmed_at(q1@, f) == confirmed_at(q0@, f),
{
    q0.lemma_view_facts();
    let v = q0@;
    let delta = delay - v.frame_delay;
    let room = v.queue_length - v.length;
    let es = fill_entries(v.last_added + 1, delta, v.slots[prev_position(v)].input);
    if !v.frozen && delay <= v.queue_length - 1 && delay != v.frame_delay && v.last_added
        != NULL_FRAME && delay > v.frame_delay && delta <= room && v.last_added + delta
        <= i32::MAX {
        assert(es =~= es.drop_last().push(es.last()));
        lemma_appended_last(v, es.drop_last(), es.last());
        lemma_append_entries_keeps(v, es);
        assert(q1@.last_added == v.last_added + es.len());
        lemma_append_keeps_slot(v, es, f@);
    }
}

/// Discarding confirmed frames leaves every slot as it is, so whatever
/// `confirmed_input` found before it finds after.
pub proof fn law_discard_keeps_slots<I: Copy + Clone + PartialEq + Default>(
    q0: &InputQueue<I>,
    q1: &InputQueue<I>,
    frame: Frame,
    f: Frame,
)
    requires
        q0.wf(),
        q1.wf(),
        discard_post(q0@, frame, q1@),
    ensures
        confirmed_at(q1@, f) == confirmed_at(q0@, f),
{
}

/// Adding an input never disturbs what the queue already keeps: the old
/// window is the start of the new one, so every input that was kept and
/// confirmed before stays confirmed at its frame.
pub proof fn law_add_input_keeps_confirmed<I: Copy + Clone + PartialEq + Default>(
    q0: &InputQueue<I>,
    q1: &InputQueue<I>,
    input: PlayerInput<I>,
    r: Frame,
)
    requires
        q0.wf(),
        q1.wf(),
        add_input_post(q0@, input, r, q1@),
    ensures
        q1@.length >= q0@.length,
        window(q1@).subrange(0, q0@.length as int) =~= window(q0@),
        forall|i: int|
            0 <= i < q0@.length ==> confirmed_at(q1@, #[trigger] window(q0@)[i].frame) == Some(
                window(q0@)[i].input,
            ),
{
    q0.lemma_view_facts();
    law_kept_inputs_are_confirmed(q0);
    law_kept_inputs_are_confirmed(q1);
    if !q0@.frozen && add_accepted(q0@, input) {
        assert(r@ != NULL_FRAME);
        law_added_input_is_confirmed(q0, q1, input, r);
    }
    assert forall|i: int| 0 <= i < q0@.length implies confirmed_at(
        q1@,
        #[trigger] window(q0@)[i].frame,
    ) == Some(window(q0@)[i].input) by {
        assert(window(q1@)[i] == window(q0@)[i]);
        assert(confirmed_at(q1@, window(q1@)[i].frame) == Some(window(q1@)[i].input));
    }
}

/// Changing the frame delay never disturbs what the queue already keeps:
/// the old window is the start of the new one, so every input that was kept
/// and confirmed before stays confirmed at its frame.
pub proof fn law_set_frame_delay_keeps_confirmed<I: Copy + Clone + PartialEq + Default>(
    q0: &InputQueue<I>,
    q1: &InputQueue<I>,
    delay: usize,
    r: Result<(), FortressError>,
)
    requires
        q0.wf(),
        q1.wf(),
        set_frame_delay_post(q0@, delay, r, q1@),
    ensures
        q1@.length >= q0@.length,
        window(q1@).subrange(0, q0@.length as int) =~= window(q0@),
        forall|i: int|
            0 <= i < q0@.length ==> confirmed_at(q1@, #[trigger] window(q0@)[i].frame) == Some(
                window(q0@)[i].input,
            ),
{
    q0.lemma_view_facts();
    let v = q0@;
    let delta = delay - v.frame_delay;
    let room = v.queue_length - v.length;
    let es = fill_entries(v.last_added + 1, delta, v.slots[prev_position(v)].input);
    if !v.frozen && delay <= v.queue_length - 1 && delay != v.frame_delay && v.last_added
        != NULL_FRAME && delay > v.frame_delay && delta <= room && v.last_added + delta
        <= i32::MAX {
        lemma_window_append_entries(v, es);
        lemma_append_entries_keeps(v, es);
        assert(window(q1@) =~= window(append_entries(v, es)));
    } else {
        assert(window(q1@) =~= window(v));
    }
    law_kept_inputs_are_confirmed(q1);
    assert forall|i: int| 0 <= i < q0@.length implies confirmed_at(
        q1@,
        #[trigger] window(q0@)[i].frame,
    ) == Some(window(q0@)[i].input) by {
        assert(window(q1@)[i] == window(q0@)[i]);
        assert(confirmed_at(q1@, window(q1@)[i].frame) == Some(window(q1@)[i].input));
    }
}

/// Discarding confirmed frames keeps every input it does not drop
/// confirmed: the new window is the end of the old one, and each of its
/// inputs is found at its frame.
pub proof fn law_discard_keeps_later_confirmed<I: Copy + Clone + PartialEq + Default>(
    q0: &InputQueue<I>,
    q1: &InputQueue<I>,
    frame: Frame,
)
    requires
        q0.wf(),
        q1.wf(),
        discard_post(q0@, frame, q1@),
    ensures
        q1@.length <= q0@.length,
        window(q1@) =~= window(q0@).subrange(q0@.length - q1@.length, q0@.length as int),
        forall|i: int|
            q0@.length - q1@.length <= i < q0@.length ==> confirmed_at(
                q1@,
                #[trigger] window(q0@)[i].frame,
            ) == Some(window(q0@)[i].input),
{
    q0.lemma_view_facts();
    q1.lemma_view_facts();
    let v = q0@;
    law_kept_inputs_are_confirmed(q1);
    let d = v.length - q1@.length;
    assert forall|i: int| d <= i < v.length implies confirmed_at(
        q1@,
        #[trigger] window(v)[i].frame,
    ) == Some(window(v)[i].input) by {
        assert(window(q1@)[i - d] == window(v)[i]);
        assert(confirmed_at(q1@, window(q1@)[i - d].frame) == Some(window(q1@)[i - d].input));
    }
}

/// One call that neither resets nor reshapes the queue, taking `v` to `w`:
/// `add_input`, `set_frame_delay`, `discard_confirmed_frames` or `input`,
/// with any arguments and whatever it returned.
pub open spec fn queue_step<I: Copy + Clone + PartialEq + Default>(
    v: QueueView<I>,
    w: QueueView<I>,
) -> bool {
    ||| exists|input: PlayerInput<I>, r: Frame| #[trigger] add_input_post(v, input, r, w)
    ||| exists|delay: usize, r: Result<(), FortressError>|
        #[trigger] set_frame_delay_post(v, delay, r, w)
    ||| exists|frame: Frame| #[trigger] discard_post(v, frame, w)
    ||| exists|frame: Frame, r: Option<(I, InputStatus)>| #[trigger] input_post(v, frame, r, w)
}

/// One step never moves the last added frame back and keeps the ring's
/// size.
proof fn lemma_step_advances<I: Copy + Clone + PartialEq + Default>(
    q0: &InputQueue<I>,
    q1: &InputQueue<I>,
)
    requires
        q0.wf(),
        q1.wf(),
        queue_step(q0@, q1@),
    ensures
        q1@.last_added >= q0@.last_added,
        q1@.queue_length == q0@.queue_length,
{
    q0.lemma_view_facts();
    let v = q0@;
    let w = q1@;
    if exists|input: PlayerInput<I>, r: Frame| #[trigger] add_input_post(v, input, r, w) {
        let (input, r) = choose|input: PlayerInput<I>, r: Frame|
            #[trigger] add_input_post(v, input, r, w);
        if !v.frozen && add_accepted(v, input) {
            let start = expected_start(v);
            let eff = effective_frame(v, input);
            let fill = fill_entries(start, eff - start, v.slots[prev_position(v)].input);
            let e = PlayerInput { frame: r, input: input.input };
            lemma_appended_last(v, fill, e);
            lemma_append_entries_keeps(v, fill.push(e));
        }
    } else if exists|delay: usize, r: Result<(), FortressError>|
        #[trigger] set_frame_delay_post(v, delay, r, w) {
        let (delay, r) = choose|delay: usize, r: Result<(), FortressError>|
            #[trigger] set_frame_delay_post(v, delay, r, w);
        let delta = delay - v.frame_delay;
        let room = v.queue_length - v.length;
        let es = fill_entries(v.last_added + 1, delta, v.slots[prev_position(v)].input);
        if !v.frozen && delay <= v.queue_length - 1 && delay != v.frame_delay && v.last_added
            != NULL_FRAME && delay > v.frame_delay && delta <= room && v.last_added + delta
            <= i32::MAX {
            assert(es =~= es.drop_last().push(es.last()));
            lemma_appended_last(v, es.drop_last(), es.last());
            lemma_append_entries_keeps(v, es);
        }
    }
}

/// One step keeps the input confirmed at a frame already added, as long as
/// that frame is less than a ring's length behind the new last added frame.
proof fn lemma_step_keeps_confirmed<I: Copy + Clone + PartialEq + Default>(
    q0: &InputQueue<I>,
    q1: &InputQueue<I>,
    f: Frame,
)
    requires
        q0.wf(),
        q1.wf(),
        queue_step(q0@, q1@),
        0 <= f@ <= q0@.last_added,
        f@ > q1@.last_added - q1@.queue_length,
    ensures
        confirmed_at(q1@, f) == confirmed_at(q0@, f),
{
    let v = q0@;
    let w = q1@;
    if exists|input: PlayerInput<I>, r: Frame| #[trigger] add_input_post(v, input, r, w) {
        let (input, r) = choose|input: PlayerInput<I>, r: Frame|
            #[trigger] add_input_post(v, input, r, w);
        law_add_input_keeps_earlier_frames(q0, q1, input, r, f);
    } else if exists|delay: usize, r: Result<(), FortressError>|
        #[trigger] set_frame_delay_post(v, delay, r, w) {
        let (delay, r) = choose|delay: usize, r: Result<(), FortressError>|
            #[trigger] set_frame_delay_post(v, delay, r, w);
        law_set_frame_delay_keeps_earlier_frames(q0, q1, delay, r, f);
    }
}

/// Along calls that each are one `queue_step`, the last added frame never
/// moves back and the ring keeps its size.
proof fn lemma_steps_advance<I: Copy + Clone + PartialEq + Default>(qs: Seq<InputQueue<I>>)
    requires
        qs.len() >= 1,
        forall|k: int| 0 <= k < qs.len() ==> (#[trigger] qs[k]).wf(),
        forall|k: int| 0 <= k < qs.len() - 1 ==> queue_step(#[trigger] qs[k]@, qs[k + 1]@),
    ensures
        qs.last()@.last_added >= qs[0]@.last_added,
        qs.last()@.queue_length == qs[0]@.queue_length,
    decreases qs.len(),
{
    if qs.len() > 1 {
        let rest = qs.drop_first();
        assert forall|k: int| 0 <= k < rest.len() implies (#[trigger] rest[k]).wf() by {
            assert(rest[k] == qs[k + 1]);
        }
        assert forall|k: int| 0 <= k < rest.len() - 1 implies queue_step(
            #[trigger] rest[k]@,
            rest[k + 1]@,
        ) by {
            assert(rest[k] == qs[k + 1]);
            assert(rest[k + 1] == qs[k + 2]);
            assert(queue_step(qs[k + 1]@, qs[k + 2]@));
        }
        lemma_steps_advance(rest);
        assert(queue_step(qs[0]@, qs[1]@));
        lemma_step_advances(&qs[0], &qs[1]);
    }
}

/// An input confirmed at a frame already added stays confirmed through any
/// number of further calls of `add_input`, `set_frame_delay`,
/// `discard_confirmed_frames` and `input` (no reset), as long as the frame
/// is less than a ring's length behind the last added frame at the end:
/// `qs` holds the queue before and after each call.
pub proof fn law_confirmed_input_survives_steps<I: Copy + Clone + PartialEq + Default>(
    qs: Seq<InputQueue<I>>,
    f: Frame,
)
    requires
        qs.len() >= 1,
        forall|k: int| 0 <= k < qs.len() ==> (#[trigger] qs[k]).wf(),
        forall|k: int| 0 <= k < qs.len() - 1 ==> queue_step(#[trigger] qs[k]@, qs[k + 1]@),
        0 <= f@ <= qs[0]@.last_added,
        f@ > qs.last()@.last_added - qs[0]@.queue_length,
    ensures
        confirmed_at(qs.last()@, f) == confirmed_at(qs[0]@, f),
    decreases qs.len(),
{
    if qs.len() > 1 {
        let rest = qs.drop_first();
        assert forall|k: int| 0 <= k < rest.len() implies (#[trigger] rest[k]).wf() by {
            assert(rest[k] == qs[k + 1]);
        }
        assert forall|k: int| 0 <= k < rest.len() - 1 implies queue_step(
            #[trigger] rest[k]@,
            rest[k + 1]@,
        ) by {
            assert(rest[k] == qs[k + 1]);
            assert(rest[k + 1] == qs[k + 2]);
            assert(queue_step(qs[k + 1]@, qs[k + 2]@));
        }
        assert(queue_step(qs[0]@, qs[1]@));
        lemma_step_advances(&qs[0], &qs[1]);
        lemma_steps_advance(rest);
        assert(rest[0] == qs[1]);
        assert(rest.last() == qs.last());
        lemma_step_keeps_confirmed(&qs[0], &qs[1], f);
        law_confirmed_input_survives_steps(rest, f);
    }
}

/// An input that `add_input` accepted at frame `r` is found by
/// `confirmed_input` at `r` after any number of further calls of
/// `add_input`, `set_frame_delay`, `discard_confirmed_frames` and `input`
/// (no reset), as long as fewer than a ring's length of frames were added
/// after it: `qs` holds the queue after the add and after each later call.
pub proof fn law_added_input_stays_retrievable<I: Copy + Clone + PartialEq + Default>(
    q0: &InputQueue<I>,
    input: PlayerInput<I>,
    r: Frame,
    qs: Seq<InputQueue<I>>,
)
    requires
        q0.wf(),
        !q0@.frozen,
        qs.len() >= 1,
        add_input_post(q0@, input, r, qs[0]@),
        r@ != NULL_FRAME,
        forall|k: int| 0 <= k < qs.len() ==> (#[trigger] qs[k]).wf(),
        forall|k: int| 0 <= k < qs.len() - 1 ==> queue_step(#[trigger] qs[k]@, qs[k + 1]@),
        qs.last()@.last_added - r@ < qs[0]@.queue_length,
    ensures
        confirmed_at(qs.last()@, r) == Some(input.input),
{
    law_added_input_is_confirmed(q0, &qs[0], input, r);
    q0.lemma_view_facts();
    assert(add_accepted(q0@, input));
    lemma_appended_last(
        q0@,
        fill_entries(
            expected_start(q0@),
            effective_frame(q0@, input) - expected_start(q0@),
            q0@.slots[prev_position(q0@)].input,
        ),
        PlayerInput { frame: r, input: input.input },
    );
    law_confirmed_input_survives_steps(qs, r);
}

/// Repositioning a queue to game frame `frame` makes it accept the input
/// for `frame` next: `add_input` stores it at `frame` plus the delay, where
/// `confirmed_input` then finds it.
pub proof fn law_reset_then_add_is_confirmed<I: Copy + Clone + PartialEq + Default>(
    q0: &InputQueue<I>,
    q1: &InputQueue<I>,
    q2: &InputQueue<I>,
    frame: Frame,
    input: PlayerInput<I>,
    r: Frame,
)
    requires
        q0.wf(),
        q1.wf(),
        q2.wf(),
        frame@ >= 0,
        frame@ + q0@.frame_delay <= i32::MAX,
        is_reset(q1@, q0@, frame@ + q0@.frame_delay),
        input.frame == frame,
        add_input_post(q1@, input, r, q2@),
    ensures
        r@ == frame@ + q0@.frame_delay,
        confirmed_at(q2@, r) == Some(input.input),
{
    q0.lemma_view_facts();
    q1.lemma_view_facts();
    let v = q1@;
    let d = frame@ + q0@.frame_delay;
    assert((v.frame_delay as i32) as int == v.frame_delay);
    assert(effective_frame(v, input) == d);
    if d == 0 {
        assert(v.last_added == NULL_FRAME);
    }
    assert(add_accepted(v, input));
    law_added_input_is_confirmed(q1, q2, input, r);
}

/// After repositioning to a frame, a request for any frame from the null
/// frame up to (not including) `i32::MAX` is answered with a prediction of
/// the last confirmed input the queue had before, and the prediction starts
/// at the delayed activation frame, where the first real input will land.
pub proof fn law_reset_predicts_preserved_input<I: Copy + Clone + PartialEq + Default>(
    q0: &InputQueue<I>,
    q1: &InputQueue<I>,
    q2: &InputQueue<I>,
    frame: Frame,
    requested: Frame,
    r: Option<(I, InputStatus)>,
)
    requires
        q0.wf(),
        q1.wf(),
        frame@ >= 0,
        frame@ + q0@.frame_delay <= i32::MAX,
        is_reset(q1@, q0@, frame@ + q0@.frame_delay),
        NULL_FRAME <= requested@ < i32::MAX,
        input_post(q1@, requested, r, q2@),
    ensures
        r matches Some((p, st)) && st == InputStatus::Predicted && repeats_last_confirmed(
            q0@.last_confirmed,
            p,
        ),
        q2@.prediction_frame == frame@ + q0@.frame_delay,
{
    q1.lemma_view_facts();
    let v = q1@;
    let ql = v.queue_length;
    // the tail slot is blank: the only slot that is not is the one behind
    // the head, and the tail is the head
    if v.head >= 1 {
        vstd::arithmetic::div_mod::lemma_mod_sub_multiples_vanish(v.head + ql - 1, ql);
        vstd::arithmetic::div_mod::lemma_small_mod((v.head - 1) as nat, ql as nat);
    } else {
        vstd::arithmetic::div_mod::lemma_small_mod((ql - 1) as nat, ql as nat);
    }
    assert(is_blank_slot(v.slots[v.tail]));
}

/// Raising the frame delay after inputs were added keeps the next input in
/// sequence: the game frame that followed the last added frame under the
/// old delay follows it under the new one, and the gap is filled with the
/// newest input.
pub proof fn law_delay_increase_keeps_sequence<I: Copy + Clone + PartialEq + Default>(
    q0: &InputQueue<I>,
    q1: &InputQueue<I>,
    delay: usize,
    r: Result<(), FortressError>,
    next_frame: int,
)
    requires
        q0.wf(),
        q1.wf(),
        set_frame_delay_post(q0@, delay, r, q1@),
        r is Ok,
        !q0@.frozen,
        q0@.last_added != NULL_FRAME,
        delay > q0@.frame_delay,
        next_frame + q0@.frame_delay == q0@.last_added + 1,
    ensures
        q1@.frame_delay == delay,
        next_frame + q1@.frame_delay == q1@.last_added + 1,
        q1@.last_confirmed == Some(q0@.slots[prev_position(q0@)].input),
{
    q0.lemma_view_facts();
    let v = q0@;
    let delta = delay - v.frame_delay;
    let g = v.slots[prev_position(v)].input;
    let es = fill_entries(v.last_added + 1, delta, g);
    assert(delay <= v.queue_length - 1);
    assert(es.len() > 0);
    assert(es =~= es.drop_last().push(es.last()));
    lemma_appended_last(v, es.drop_last(), es.last());
    assert(es.last().frame@ == v.last_added + delta);
}

/// Raising the frame delay after inputs were added stores the newest
/// input at every frame of the new gap: `confirmed_input` finds it at each
/// of the frames after the old last added frame, up to the new one.
pub proof fn law_delay_increase_fills_gap<I: Copy + Clone + PartialEq + Default>(
    q0: &InputQueue<I>,
    q1: &InputQueue<I>,
    delay: usize,
    r: Result<(), FortressError>,
)
    requires
        q0.wf(),
        q1.wf(),
        set_frame_delay_post(q0@, delay, r, q1@),
        r is Ok,
        !q0@.frozen,
        q0@.last_added != NULL_FRAME,
        delay > q0@.frame_delay,
    ensures
        forall|k: int|
            0 <= k < delay - q0@.frame_delay ==> confirmed_at(
                q1@,
                #[trigger] frame_at(q0@.last_added + 1 + k),
            ) == Some(q0@.slots[prev_position(q0@)].input),
{
    q0.lemma_view_facts();
    let v = q0@;
    let delta = delay - v.frame_delay;
    let g = v.slots[prev_position(v)].input;
    let es = fill_entries(v.last_added + 1, delta, g);
    let room = v.queue_length - v.length;
    assert(delta <= room && v.last_added + delta <= i32::MAX);
    lemma_window_append_entries(v, es);
    lemma_append_entries_keeps(v, es);
    assert(window(q1@) =~= window(append_entries(v, es)));
    law_kept_inputs_are_confirmed(q1);
    assert forall|k: int| 0 <= k < delta implies confirmed_at(q1@, #[trigger] frame_at(v.last_added + 1 + k))
        == Some(g) by {
        assert(window(q1@)[v.length + k] == es[k]);
        assert(q1@.length == v.length + delta);
        assert(confirmed_at(q1@, window(q1@)[v.length + k].frame) == Some(window(q1@)[v.length + k].input));
    }
}

/// A well-formed queue passes `check_invariants` whenever its frame delay
/// is at most 255 and its last requested frame is null or non-negative.
pub proof fn law_well_formed_queue_passes_checks<I: Copy + Clone + PartialEq + Default>(q: &InputQueue<I>)
    requires
        q.wf(),
        q@.frame_delay <= 255,
        q@.last_requested == NULL_FRAME || q@.last_requested >= 0,
    ensures
        queue_violation(q@) is None,
{
    q.lemma_view_facts();
    let v = q@;
    let ql = v.queue_length;
    if v.tail + v.length < ql {
        vstd::arithmetic::div_mod::lemma_small_mod((v.tail + v.length) as nat, ql as nat);
    } else {
        vstd::arithmetic::div_mod::lemma_mod_sub_multiples_vanish(v.tail + v.length, ql);
        vstd::arithmetic::div_mod::lemma_small_mod((v.tail + v.length - ql) as nat, ql as nat);
    }
}

/// A prediction checked against the input that arrives for its frame: an
/// input equal to the prediction leaves the first incorrect frame unset, a
/// different one marks its frame as the first incorrect frame. A correct
/// input for the last requested frame ends prediction (nothing is left to
/// check); otherwise prediction moves on to the next frame.
pub proof fn law_misprediction_is_flagged<I: Copy + Clone + PartialEq + Default>(
    q0: &InputQueue<I>,
    q1: &InputQueue<I>,
    input: PlayerInput<I>,
    r: Frame,
)
    requires
        q0.wf(),
        q1.wf(),
        add_input_post(q0@, input, r, q1@),
        !q0@.frozen,
        q0@.last_added != NULL_FRAME,
        r@ != NULL_FRAME,
        q0@.prediction_frame != NULL_FRAME,
        q0@.first_incorrect == NULL_FRAME,
    ensures
        r@ == q0@.prediction_frame,
        same_input(q0@.prediction_input, input.input) ==> q1@.first_incorrect == NULL_FRAME,
        !same_input(q0@.prediction_input, input.input) ==> q1@.first_incorrect == r@,
        same_input(q0@.prediction_input, input.input) && r@ == q0@.last_requested
            ==> q1@.prediction_frame == NULL_FRAME,
        same_input(q0@.prediction_input, input.input) && r@ != q0@.last_requested
            ==> q1@.prediction_frame == saturate_i32(r@ + 1),
        !same_input(q0@.prediction_input, input.input) ==> q1@.prediction_frame
            == saturate_i32(r@ + 1),
{
    q0.lemma_view_facts();
    let v = q0@;
    let e = PlayerInput { frame: r, input: input.input };
    assert(add_accepted(v, input));
    let fill = fill_entries(expected_start(v), effective_frame(v, input) - expected_start(v), v.slots[prev_position(v)].input);
    assert(fill =~= Seq::<PlayerInput<I>>::empty());
    assert(fill.push(e).drop_last() =~= fill);
    assert(append_entries(v, fill) == v);
}

/// While no prediction is running, appending inputs starts none and flags
/// nothing.
proof fn lemma_append_without_prediction<I: Copy + Clone + PartialEq>(
    v: QueueView<I>,
    es: Seq<PlayerInput<I>>,
)
    requires
        v.prediction_frame == NULL_FRAME,
    ensures
        append_entries(v, es).prediction_frame == NULL_FRAME,
        append_entries(v, es).first_incorrect == v.first_incorrect,
    decreases es.len(),
{
    if es.len() > 0 {
        lemma_append_without_prediction(v, es.drop_last());
    }
}

/// Once prediction has ended with nothing flagged, `add_input` neither
/// flags a misprediction nor starts predicting, whatever input comes.
pub proof fn law_no_misprediction_without_prediction<I: Copy + Clone + PartialEq + Default>(
    q0: &InputQueue<I>,
    q1: &InputQueue<I>,
    input: PlayerInput<I>,
    r: Frame,
)
    requires
        q0.wf(),
        q1.wf(),
        add_input_post(q0@, input, r, q1@),
        q0@.prediction_frame == NULL_FRAME,
        q0@.first_incorrect == NULL_FRAME,
    ensures
        q1@.prediction_frame == NULL_FRAME,
        q1@.first_incorrect == NULL_FRAME,
{
    let v = q0@;
    if !v.frozen && add_accepted(v, input) {
        let start = expected_start(v);
        let fill = fill_entries(start, effective_frame(v, input) - start, v.slots[prev_position(v)].input);
        lemma_append_without_prediction(v, fill.push(PlayerInput { frame: r, input: input.input }));
    }
}

/// A correctly predicted input for the last requested frame ends
/// prediction, so the input added next is not checked against the old
/// prediction: nothing is flagged, and `input` returns it as confirmed.
pub proof fn law_correct_prediction_then_input_is_confirmed<I: Copy + Clone + PartialEq + Default>(
    q0: &InputQueue<I>,
    q1: &InputQueue<I>,
    q2: &InputQueue<I>,
    q3: &InputQueue<I>,
    a: PlayerInput<I>,
    ra: Frame,
    b: PlayerInput<I>,
    rb: Frame,
    res: Option<(I, InputStatus)>,
)
    requires
        q0.wf(),
        q1.wf(),
        q2.wf(),
        q3.wf(),
        !q0@.frozen,
        q0@.last_added != NULL_FRAME,
        q0@.prediction_frame != NULL_FRAME,
        q0@.first_incorrect == NULL_FRAME,
        add_input_post(q0@, a, ra, q1@),
        ra@ != NULL_FRAME,
        ra@ == q0@.last_requested,
        same_input(q0@.prediction_input, a.input),
        add_input_post(q1@, b, rb, q2@),
        rb@ != NULL_FRAME,
        input_post(q2@, rb, res, q3@),
    ensures
        q2@.first_incorrect == NULL_FRAME,
        q2@.prediction_frame == NULL_FRAME,
        res == Some((b.input, InputStatus::Confirmed)),
{
    law_misprediction_is_flagged(q0, q1, a, ra);
    law_no_misprediction_without_prediction(q1, q2, b, rb);
    q0.lemma_view_facts();
    q1.lemma_view_facts();
    q2.lemma_view_facts();
    let v = q0@;
    assert(add_accepted(v, a));
    let fill = fill_entries(expected_start(v), effective_frame(v, a) - expected_start(v), v.slots[prev_position(v)].input);
    lemma_append_entries_keeps(v, fill.push(PlayerInput { frame: ra, input: a.input }));
    assert(!q1@.frozen);
    law_added_input_is_confirmed(q1, q2, b, rb);
    let w = q2@;
    // the newest kept input is at the last added frame, which is `rb`
    assert(window(w)[w.length - 1].frame@ == w.last_added);
    assert(w.last_added == rb@);
    assert(window(w)[0] == w.slots[w.tail % w.queue_length]);
    vstd::arithmetic::div_mod::lemma_small_mod(w.tail as nat, w.queue_length as nat);
    assert(w.slots[w.tail].frame@ == w.last_added + 1 - w.length);
}

} // verus!
