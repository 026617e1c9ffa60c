//! Frame numbers and player handles.
use vstd::prelude::*;
use vstd::std_specs::ops::{AddSpec, SubSpec};
use vstd::string::StringExecFns;

use crate::error::{FortressError, InvalidFrameReason, InvalidRequestKind};
use crate::text::{decimal, push_decimal, push_signed_decimal, signed_decimal};

verus! {

/// The integer that stands for "no frame".
pub const NULL_FRAME: i32 = -1;

/// A single step of game execution. Frame numbers start at 0; [`NULL_FRAME`]
/// (-1) means "no frame".
#[derive(Debug, Clone, Copy, PartialEq, Eq, Structural, Ord, Hash, Default)]
pub struct Frame(i32);

impl View for Frame {
    type V = int;

    closed spec fn view(&self) -> int {
        self.0 as int
    }
}

/// A frame number always lies in the range of `i32`.
pub broadcast proof fn lemma_frame_view_bounds(f: Frame)
    ensures
        i32::MIN <= #[trigger] f@ <= i32::MAX,
{
}

/// Two frames are equal exactly when their numbers are equal.
pub broadcast proof fn lemma_frame_view_injective(a: Frame, b: Frame)
    ensures
        #![trigger a@, b@]
        (a@ == b@) == (a == b),
{
}

/// The frame whose number is `v` (meaningful when `v` fits in an `i32`).
pub closed spec fn frame_at(v: int) -> Frame {
    Frame(v as i32)
}

/// `frame_at(v)` has number `v` whenever `v` fits in an `i32`.
pub broadcast proof fn lemma_frame_at_view(v: int)
    requires
        i32::MIN <= v <= i32::MAX,
    ensures
        #[trigger] frame_at(v)@ == v,
{
}

pub broadcast group group_frame_view {
    lemma_frame_view_bounds,
    lemma_frame_view_injective,
    lemma_frame_at_view,
}

/// The text of a frame as it is displayed: `NULL_FRAME` for the null frame,
/// otherwise its decimal number.
pub open spec fn frame_text(f: int) -> Seq<char> {
    if f == NULL_FRAME {
        "NULL_FRAME"@
    } else {
        signed_decimal(f)
    }
}

/// `a + b` clamped into the range of `i32`.
pub open spec fn saturate_i32(v: int) -> int {
    if v > i32::MAX {
        i32::MAX as int
    } else if v < i32::MIN {
        i32::MIN as int
    } else {
        v
    }
}

/// Whether `v` fits in an `i32`.
pub open spec fn fits_i32(v: int) -> bool {
    i32::MIN <= v <= i32::MAX
}

/// Appends the displayed text of `frame` to `s`.
pub fn push_frame_text(s: &mut String, frame: Frame)
    ensures
        final(s)@ == old(s)@ + frame_text(frame@),
{
    if frame.0 == NULL_FRAME {
        s.append("NULL_FRAME");
    } else {
        push_signed_decimal(s, frame.0 as i64);
    }
}

impl Frame {
    /// The null frame ("no frame"), whose number is [`NULL_FRAME`].
    pub fn null() -> (r: Frame)
        ensures
            r@ == NULL_FRAME,
    {
        Frame(NULL_FRAME)
    }

    /// Creates a frame with the given number; the number is not validated.
    pub fn new(frame: i32) -> (r: Frame)
        ensures
            r@ == frame,
    {
        Frame(frame)
    }

    /// The frame's number.
    pub fn as_i32(self) -> (r: i32)
        ensures
            r == self@,
    {
        self.0
    }

    /// Whether this is the null frame.
    pub fn is_null(self) -> (r: bool)
        ensures
            r == (self@ == NULL_FRAME),
    {
        self.0 == NULL_FRAME
    }

    /// Whether the frame number is non-negative.
    pub fn is_valid(self) -> (r: bool)
        ensures
            r == (self@ >= 0),
    {
        self.0 >= 0
    }

    /// `Some(self)` for a valid frame, `None` otherwise.
    pub fn to_option(self) -> (r: Option<Frame>)
        ensures
            r == (if self@ >= 0 { Some(self) } else { None::<Frame> }),
    {
        if self.is_valid() {
            Some(self)
        } else {
            None
        }
    }

    /// The frame inside `opt`, or the null frame for `None`.
    pub fn from_option(opt: Option<Frame>) -> (r: Frame)
        ensures
            opt matches Some(f) ==> r == f,
            opt is None ==> r@ == NULL_FRAME,
    {
        match opt {
            Some(f) => f,
            None => Frame::null(),
        }
    }

    /// `self + rhs`, or `None` when the sum leaves the range of `i32`.
    pub fn checked_add(self, rhs: i32) -> (r: Option<Frame>)
        ensures
            fits_i32(self@ + rhs) ==> (r matches Some(f) && f@ == self@ + rhs),
            !fits_i32(self@ + rhs) ==> r is None,
    {
        match self.0.checked_add(rhs) {
            Some(v) => Some(Frame(v)),
            None => None,
        }
    }

    /// `self - rhs`, or `None` when the difference leaves the range of `i32`.
    pub fn checked_sub(self, rhs: i32) -> (r: Option<Frame>)
        ensures
            fits_i32(self@ - rhs) ==> (r matches Some(f) && f@ == self@ - rhs),
            !fits_i32(self@ - rhs) ==> r is None,
    {
        match self.0.checked_sub(rhs) {
            Some(v) => Some(Frame(v)),
            None => None,
        }
    }

    /// `self + rhs`, clamped to the bounds of `i32`.
    pub fn saturating_add(self, rhs: i32) -> (r: Frame)
        ensures
            r@ == saturate_i32(self@ + rhs),
    {
        let wide: i64 = self.0 as i64 + rhs as i64;
        if wide > i32::MAX as i64 {
            Frame(i32::MAX)
        } else if wide < i32::MIN as i64 {
            Frame(i32::MIN)
        } else {
            Frame(wide as i32)
        }
    }

    /// `self - rhs`, clamped to the bounds of `i32`.
    pub fn saturating_sub(self, rhs: i32) -> (r: Frame)
        ensures
            r@ == saturate_i32(self@ - rhs),
    {
        let wide: i64 = self.0 as i64 - rhs as i64;
        if wide > i32::MAX as i64 {
            Frame(i32::MAX)
        } else if wide < i32::MIN as i64 {
            Frame(i32::MIN)
        } else {
            Frame(wide as i32)
        }
    }

    /// The absolute difference of the two frame numbers.
    pub fn abs_diff(self, other: Frame) -> (r: u32)
        ensures
            r == (if self@ >= other@ { self@ - other@ } else { other@ - self@ }),
    {
        let wide: i64 = self.0 as i64 - other.0 as i64;
        if wide >= 0 {
            wide as u32
        } else {
            (-wide) as u32
        }
    }

    /// The frame number as a `usize`, or `None` for a negative frame.
    pub fn as_usize(self) -> (r: Option<usize>)
        ensures
            self@ >= 0 ==> r == Some(self@ as usize),
            self@ < 0 ==> r is None,
    {
        if self.0 >= 0 {
            Some(self.0 as usize)
        } else {
            None
        }
    }

    /// The frame number as a `usize`; a negative frame is an
    /// `InvalidFrameStructured` error with reason `MustBeNonNegative`.
    pub fn try_as_usize(self) -> (r: Result<usize, FortressError>)
        ensures
            self@ >= 0 ==> r == Ok::<usize, FortressError>(self@ as usize),
            self@ < 0 ==> (r matches Err(FortressError::InvalidFrameStructured { frame, reason })
                && frame == self && reason == InvalidFrameReason::MustBeNonNegative),
    {
        if self.0 >= 0 {
            Ok(self.0 as usize)
        } else {
            Err(
                FortressError::InvalidFrameStructured {
                    frame: self,
                    reason: InvalidFrameReason::MustBeNonNegative,
                },
            )
        }
    }

    /// The ring-buffer slot of this frame: `frame % buffer_size`, or `None`
    /// for a negative frame or an empty buffer.
    pub fn buffer_index(self, buffer_size: usize) -> (r: Option<usize>)
        ensures
            self@ >= 0 && buffer_size > 0 ==> r == Some((self@ % buffer_size as int) as usize),
            !(self@ >= 0 && buffer_size > 0) ==> r is None,
    {
        if self.0 >= 0 && buffer_size > 0 {
            Some(self.0 as usize % buffer_size)
        } else {
            None
        }
    }

    /// The ring-buffer slot of this frame; an empty buffer is a
    /// `ZeroBufferSize` request error (checked first), a negative frame a
    /// `MustBeNonNegative` frame error.
    pub fn try_buffer_index(self, buffer_size: usize) -> (r: Result<usize, FortressError>)
        ensures
            buffer_size == 0 ==> (r matches Err(FortressError::InvalidRequestStructured { kind })
                && kind == InvalidRequestKind::ZeroBufferSize),
            buffer_size > 0 && self@ < 0 ==> (r matches Err(
                FortressError::InvalidFrameStructured { frame, reason },
            ) && frame == self && reason == InvalidFrameReason::MustBeNonNegative),
            buffer_size > 0 && self@ >= 0 ==> r == Ok::<usize, FortressError>(
                (self@ % buffer_size as int) as usize,
            ),
    {
        if buffer_size == 0 {
            return Err(
                FortressError::InvalidRequestStructured { kind: InvalidRequestKind::ZeroBufferSize },
            );
        }
        match self.try_as_usize() {
            Ok(u) => Ok(u % buffer_size),
            Err(e) => Err(e),
        }
    }

    /// `self + rhs`; overflow is a `FrameArithmeticOverflow` error naming the
    /// operation `"add"`.
    pub fn try_add(self, rhs: i32) -> (r: Result<Frame, FortressError>)
        ensures
            fits_i32(self@ + rhs) ==> (r matches Ok(f) && f@ == self@ + rhs),
            !fits_i32(self@ + rhs) ==> (r matches Err(
                FortressError::FrameArithmeticOverflow { frame, operand, operation },
            ) && frame == self && operand == rhs && operation@ == "add"@),
    {
        match self.checked_add(rhs) {
            Some(f) => Ok(f),
            None => Err(FortressError::FrameArithmeticOverflow { frame: self, operand: rhs, operation: "add" }),
        }
    }

    /// `self - rhs`; overflow is a `FrameArithmeticOverflow` error naming the
    /// operation `"sub"`.
    pub fn try_sub(self, rhs: i32) -> (r: Result<Frame, FortressError>)
        ensures
            fits_i32(self@ - rhs) ==> (r matches Ok(f) && f@ == self@ - rhs),
            !fits_i32(self@ - rhs) ==> (r matches Err(
                FortressError::FrameArithmeticOverflow { frame, operand, operation },
            ) && frame == self && operand == rhs && operation@ == "sub"@),
    {
        match self.checked_sub(rhs) {
            Some(f) => Ok(f),
            None => Err(FortressError::FrameArithmeticOverflow { frame: self, operand: rhs, operation: "sub" }),
        }
    }

    /// The following frame; `i32::MAX` has none.
    pub fn next(self) -> (r: Result<Frame, FortressError>)
        ensures
            self@ < i32::MAX ==> (r matches Ok(f) && f@ == self@ + 1),
            self@ == i32::MAX ==> (r matches Err(
                FortressError::FrameArithmeticOverflow { frame, operand, operation },
            ) && frame == self && operand == 1 && operation@ == "add"@),
    {
        self.try_add(1)
    }

    /// The preceding frame; `i32::MIN` has none.
    pub fn prev(self) -> (r: Result<Frame, FortressError>)
        ensures
            self@ > i32::MIN ==> (r matches Ok(f) && f@ == self@ - 1),
            self@ == i32::MIN ==> (r matches Err(
                FortressError::FrameArithmeticOverflow { frame, operand, operation },
            ) && frame == self && operand == 1 && operation@ == "sub"@),
    {
        self.try_sub(1)
    }

    /// The following frame, staying at `i32::MAX`.
    pub fn saturating_next(self) -> (r: Frame)
        ensures
            r@ == saturate_i32(self@ + 1),
    {
        self.saturating_add(1)
    }

    /// The preceding frame, staying at `i32::MIN`.
    pub fn saturating_prev(self) -> (r: Frame)
        ensures
            r@ == saturate_i32(self@ - 1),
    {
        self.saturating_sub(1)
    }

    /// The frame with number `value`, or `None` when `value > i32::MAX`.
    pub fn from_usize(value: usize) -> (r: Option<Frame>)
        ensures
            value <= i32::MAX ==> (r matches Some(f) && f@ == value),
            value > i32::MAX ==> r is None,
    {
        if value <= i32::MAX as usize {
            Some(Frame(value as i32))
        } else {
            None
        }
    }

    /// The frame with number `value`; `value > i32::MAX` is a
    /// `FrameValueTooLarge` error carrying `value`.
    pub fn try_from_usize(value: usize) -> (r: Result<Frame, FortressError>)
        ensures
            value <= i32::MAX ==> (r matches Ok(f) && f@ == value),
            value > i32::MAX ==> (r matches Err(FortressError::FrameValueTooLarge { value: v })
                && v == value),
    {
        match Frame::from_usize(value) {
            Some(f) => Ok(f),
            None => Err(FortressError::FrameValueTooLarge { value }),
        }
    }

    /// `other - self`, or `None` when it leaves the range of `i32`.
    pub fn distance_to(self, other: Frame) -> (r: Option<i32>)
        ensures
            fits_i32(other@ - self@) ==> r == Some((other@ - self@) as i32),
            !fits_i32(other@ - self@) ==> r is None,
    {
        other.0.checked_sub(self.0)
    }

    /// Whether `self` lies within `window` frames of `reference`.
    pub fn is_within(self, window: u32, reference: Frame) -> (r: bool)
        ensures
            r == (if self@ >= reference@ {
                self@ - reference@ <= window
            } else {
                reference@ - self@ <= window
            }),
    {
        self.abs_diff(reference) <= window
    }

    /// The displayed text: `NULL_FRAME` for the null frame, else the number.
    pub fn to_string(&self) -> (r: String)
        ensures
            r@ == frame_text(self@),
    {
        let mut s = String::from_str("");
        proof {
            reveal_strlit("");
        }
        push_frame_text(&mut s, *self);
        assert(s@ == Seq::<char>::empty() + frame_text(self@));
        s
    }
}

/// `frame + delta`, clamped to the bounds of `i32` rather than overflowing.
pub fn safe_frame_add(frame: Frame, delta: i32, context: &str) -> (r: Frame)
    ensures
        r@ == saturate_i32(frame@ + delta),
{
    frame.saturating_add(delta)
}

/// `frame - delta`, clamped to the bounds of `i32` rather than overflowing.
pub fn safe_frame_sub(frame: Frame, delta: i32, context: &str) -> (r: Frame)
    ensures
        r@ == saturate_i32(frame@ - delta),
{
    frame.saturating_sub(delta)
}

impl std::ops::Add<i32> for Frame {
    type Output = Frame;

    fn add(self, rhs: i32) -> (r: Frame)
        ensures
            r@ == self@ + rhs,
    {
        Frame(self.0 + rhs)
    }
}

impl vstd::std_specs::ops::AddSpecImpl<i32> for Frame {
    open spec fn obeys_add_spec() -> bool {
        true
    }

    open spec fn add_req(self, rhs: i32) -> bool {
        fits_i32(self@ + rhs)
    }

    open spec fn add_spec(self, rhs: i32) -> Frame {
        frame_at(self@ + rhs)
    }
}

impl std::ops::Add<Frame> for Frame {
    type Output = Frame;

    fn add(self, rhs: Frame) -> (r: Frame)
        ensures
            r@ == self@ + rhs@,
    {
        Frame(self.0 + rhs.0)
    }
}

impl vstd::std_specs::ops::AddSpecImpl<Frame> for Frame {
    open spec fn obeys_add_spec() -> bool {
        true
    }

    open spec fn add_req(self, rhs: Frame) -> bool {
        fits_i32(self@ + rhs@)
    }

    open spec fn add_spec(self, rhs: Frame) -> Frame {
        frame_at(self@ + rhs@)
    }
}

impl std::ops::Sub<i32> for Frame {
    type Output = Frame;

    fn sub(self, rhs: i32) -> (r: Frame)
        ensures
            r@ == self@ - rhs,
    {
        Frame(self.0 - rhs)
    }
}

impl vstd::std_specs::ops::SubSpecImpl<i32> for Frame {
    open spec fn obeys_sub_spec() -> bool {
        true
    }

    open spec fn sub_req(self, rhs: i32) -> bool {
        fits_i32(self@ - rhs)
    }

    open spec fn sub_spec(self, rhs: i32) -> Frame {
        frame_at(self@ - rhs)
    }
}

impl std::ops::Sub<Frame> for Frame {
    type Output = i32;

    fn sub(self, rhs: Frame) -> (r: i32)
        ensures
            r == self@ - rhs@,
    {
        self.0 - rhs.0
    }
}

impl vstd::std_specs::ops::SubSpecImpl<Frame> for Frame {
    open spec fn obeys_sub_spec() -> bool {
        true
    }

    open spec fn sub_req(self, rhs: Frame) -> bool {
        fits_i32(self@ - rhs@)
    }

    open spec fn sub_spec(self, rhs: Frame) -> i32 {
        (self@ - rhs@) as i32
    }
}

/// `frame += n`, for a sum inside the range of `i32`.
impl std::ops::AddAssign<i32> for Frame {
    fn add_assign(&mut self, rhs: i32)
        requires
            fits_i32(old(self)@ + rhs),
        ensures
            final(self)@ == old(self)@ + rhs,
    {
        self.0 = self.0 + rhs;
    }
}


/// `frame -= n`, for a difference inside the range of `i32`.
impl std::ops::SubAssign<i32> for Frame {
    fn sub_assign(&mut self, rhs: i32)
        requires
            fits_i32(old(self)@ - rhs),
        ensures
            final(self)@ == old(self)@ - rhs,
    {
        self.0 = self.0 - rhs;
    }
}


impl std::ops::Rem<i32> for Frame {
    type Output = i32;

    fn rem(self, rhs: i32) -> (r: i32)
        ensures
            r == truncated_rem(self@, rhs as int),
    {
        let a = self.0;
        let m: u32 = if rhs < 0 {
            (-(rhs as i64)) as u32
        } else {
            rhs as u32
        };
        let a_abs: u32 = if a < 0 {
            (-(a as i64)) as u32
        } else {
            a as u32
        };
        let r = a_abs % m;
        if a >= 0 {
            r as i32
        } else {
            -(r as i32)
        }
    }
}

/// The remainder of `a / b` rounded toward zero: it has the sign of `a` and
/// the size of `|a| % |b|`.
pub open spec fn truncated_rem(a: int, b: int) -> int {
    let m = if b < 0 {
        -b
    } else {
        b
    };
    if a >= 0 {
        a % m
    } else {
        -((-a) % m)
    }
}

impl vstd::std_specs::ops::RemSpecImpl<i32> for Frame {
    open spec fn obeys_rem_spec() -> bool {
        true
    }

    open spec fn rem_req(self, rhs: i32) -> bool {
        rhs != 0 && !(self@ == i32::MIN && rhs == -1)
    }

    open spec fn rem_spec(self, rhs: i32) -> i32 {
        truncated_rem(self@, rhs as int) as i32
    }
}

impl From<i32> for Frame {
    fn from(value: i32) -> (r: Frame) {
        Frame(value)
    }
}

impl vstd::std_specs::convert::FromSpecImpl<i32> for Frame {
    open spec fn obeys_from_spec() -> bool {
        true
    }

    closed spec fn from_spec(v: i32) -> Frame {
        Frame(v)
    }
}

impl From<Frame> for i32 {
    fn from(frame: Frame) -> (r: i32) {
        frame.0
    }
}

impl vstd::std_specs::convert::FromSpecImpl<Frame> for i32 {
    open spec fn obeys_from_spec() -> bool {
        true
    }

    open spec fn from_spec(v: Frame) -> i32 {
        v@ as i32
    }
}

/// Truncating conversion: values above `i32::MAX` wrap, as `as i32` does.
impl From<usize> for Frame {
    fn from(value: usize) -> (r: Frame) {
        Frame(value as i32)
    }
}

impl vstd::std_specs::convert::FromSpecImpl<usize> for Frame {
    open spec fn obeys_from_spec() -> bool {
        true
    }

    closed spec fn from_spec(v: usize) -> Frame {
        Frame(v as i32)
    }
}

impl PartialEq<i32> for Frame {
    fn eq(&self, other: &i32) -> (r: bool) {
        self.0 == *other
    }
}

impl vstd::std_specs::cmp::PartialEqSpecImpl<i32> for Frame {
    open spec fn obeys_eq_spec() -> bool {
        true
    }

    open spec fn eq_spec(&self, other: &i32) -> bool {
        self@ == *other
    }
}

/// A frame that is valid or null survives the trip through an `Option`:
/// `from_option(to_option(f)) == f`.
pub proof fn law_frame_option_round_trip(f: Frame)
    requires
        f@ >= NULL_FRAME,
    ensures
        ({
            let o = if f@ >= 0 {
                Some(f)
            } else {
                None::<Frame>
            };
            match o {
                Some(g) => g == f,
                None => f@ == NULL_FRAME,
            }
        }),
{
}

/// `+=` and `-=` agree with `+` and `-`: on every frame and amount they
/// accept, they give the frame that `+` and `-` give.
pub proof fn law_assign_ops_agree(f: Frame, n: i32)
    ensures
        fits_i32(f@ + n) ==> f@ + n == f.add_spec(n)@,
        fits_i32(f@ - n) ==> f@ - n == f.sub_spec(n)@,
{
}

/// A non-negative frame modulo a positive length is a position inside a
/// ring of that length, the frame's number modulo the length.
pub proof fn law_frame_rem_indexes_ring(f: Frame, len: i32)
    requires
        f@ >= 0,
        len > 0,
    ensures
        truncated_rem(f@, len as int) == f@ % (len as int),
        0 <= truncated_rem(f@, len as int) < len,
{
}

/// Identifies a player (handles below the number of players) or a spectator
/// (handles at or above it).
#[derive(Debug, Clone, Copy, PartialEq, Eq, Structural, PartialOrd, Ord, Hash, Default)]
pub struct PlayerHandle(usize);

impl View for PlayerHandle {
    type V = nat;

    closed spec fn view(&self) -> nat {
        self.0 as nat
    }
}

/// A handle number always fits in `usize`.
pub broadcast proof fn lemma_handle_view_bounds(h: PlayerHandle)
    ensures
        #[trigger] h@ <= usize::MAX,
{
}

/// Two handles are equal exactly when their numbers are equal.
pub broadcast proof fn lemma_handle_view_injective(a: PlayerHandle, b: PlayerHandle)
    ensures
        #![trigger a@, b@]
        (a@ == b@) == (a == b),
{
}

pub broadcast group group_handle_view {
    lemma_handle_view_bounds,
    lemma_handle_view_injective,
}

/// The text of a handle as it is displayed: `PlayerHandle(n)`.
pub open spec fn handle_text(h: nat) -> Seq<char> {
    "PlayerHandle("@ + decimal(h) + ")"@
}

/// Appends the bare decimal number of `handle` to `s`.
pub fn push_handle_number(s: &mut String, handle: PlayerHandle)
    ensures
        final(s)@ == old(s)@ + decimal(handle@),
{
    push_decimal(s, handle.0 as u64);
}

impl PlayerHandle {
    /// Creates a handle; it is not validated against any session.
    pub fn new(handle: usize) -> (r: PlayerHandle)
        ensures
            r@ == handle,
    {
        PlayerHandle(handle)
    }

    /// The handle's number.
    pub fn as_usize(self) -> (r: usize)
        ensures
            r == self@,
    {
        self.0
    }

    /// Whether the handle names a player in a session of `num_players`.
    pub fn is_valid_player_for(self, num_players: usize) -> (r: bool)
        ensures
            r == (self@ < num_players),
    {
        self.0 < num_players
    }

    /// Whether the handle names a spectator in a session of `num_players`.
    pub fn is_spectator_for(self, num_players: usize) -> (r: bool)
        ensures
            r == (self@ >= num_players),
    {
        self.0 >= num_players
    }

    /// The displayed text, `PlayerHandle(n)`.
    pub fn to_string(&self) -> (r: String)
        ensures
            r@ == handle_text(self@),
    {
        let mut s = String::from_str("PlayerHandle(");
        push_decimal(&mut s, self.0 as u64);
        s.append(")");
        s
    }
}

impl From<usize> for PlayerHandle {
    fn from(value: usize) -> (r: PlayerHandle) {
        PlayerHandle(value)
    }
}

impl vstd::std_specs::convert::FromSpecImpl<usize> for PlayerHandle {
    open spec fn obeys_from_spec() -> bool {
        true
    }

    closed spec fn from_spec(v: usize) -> PlayerHandle {
        PlayerHandle(v)
    }
}

impl From<PlayerHandle> for usize {
    fn from(handle: PlayerHandle) -> (r: usize) {
        handle.0
    }
}

impl vstd::std_specs::convert::FromSpecImpl<PlayerHandle> for usize {
    open spec fn obeys_from_spec() -> bool {
        true
    }

    open spec fn from_spec(v: PlayerHandle) -> usize {
        v@ as usize
    }
}

/// In a session of `num_players` players, every handle names either a
/// player or a spectator, never both.
pub proof fn law_handle_is_player_or_spectator(h: PlayerHandle, num_players: usize)
    ensures
        (h@ < num_players) != (h@ >= num_players),
{
}

} // verus!
