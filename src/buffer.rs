//! Command buffer wrapper whose level, lifecycle state, usage and reset
//! granularity are part of its type.

use vstd::prelude::*;

use crate::device::CommandBuffer;
use crate::encoder::Encoder;
use crate::family::FamilyId;
use crate::frame::{FrameBound, Frames, FramesView};
use crate::sentinel::{arm, discharge};

verus! {

/// Bits of [`UsageFlags`]: each recording is submitted once.
pub const ONE_TIME_SUBMIT_BITS: u32 = 1;

/// Bits of [`UsageFlags`]: a secondary buffer lies entirely inside a render pass.
pub const RENDER_PASS_CONTINUE_BITS: u32 = 2;

/// Bits of [`UsageFlags`]: the buffer may be resubmitted while pending.
pub const SIMULTANEOUS_USE_BITS: u32 = 4;

/// Bitmask specifying usage behavior for a command buffer.
#[derive(Clone, Copy, Debug, PartialEq, Eq, Hash, Structural)]
pub struct UsageFlags {
    bits: u32,
}

impl View for UsageFlags {
    type V = u32;

    closed spec fn view(&self) -> u32 {
        self.bits
    }
}

impl UsageFlags {
    /// No flags.
    pub fn empty() -> (r: UsageFlags)
        ensures
            r@ == 0,
    {
        UsageFlags { bits: 0 }
    }

    /// Each recording of the buffer is submitted once, and the buffer is
    /// reset and recorded again between submissions.
    pub fn one_time_submit() -> (r: UsageFlags)
        ensures
            r@ == ONE_TIME_SUBMIT_BITS,
    {
        UsageFlags { bits: ONE_TIME_SUBMIT_BITS }
    }

    /// A secondary buffer is considered to be entirely inside a render pass.
    pub fn render_pass_continue() -> (r: UsageFlags)
        ensures
            r@ == RENDER_PASS_CONTINUE_BITS,
    {
        UsageFlags { bits: RENDER_PASS_CONTINUE_BITS }
    }

    /// The buffer can be resubmitted while it is pending.
    pub fn simultaneous_use() -> (r: UsageFlags)
        ensures
            r@ == SIMULTANEOUS_USE_BITS,
    {
        UsageFlags { bits: SIMULTANEOUS_USE_BITS }
    }

    /// The raw bit mask.
    pub fn bits(&self) -> (r: u32)
        ensures
            r == self@,
    {
        self.bits
    }
}

/// What becomes of a buffer once the device has executed it.
#[derive(Clone, Copy, Debug, PartialEq, Eq, Structural)]
pub enum PostExecution {
    /// It can be submitted again.
    Executable,
    /// It must be reset and recorded again.
    Invalid,
}

/// The policy attached to a usage mode.
pub struct UsagePolicy {
    /// Flags passed to the backend when recording begins.
    pub flags: u32,
    /// The state the buffer returns to after execution.
    pub post: PostExecution,
    /// Whether the buffer may be submitted again while still pending.
    pub resubmit_pending: bool,
}

/// One-shot: submitted once per recording, invalid after execution.
pub open spec fn one_shot_policy() -> UsagePolicy {
    UsagePolicy { flags: ONE_TIME_SUBMIT_BITS, post: PostExecution::Invalid, resubmit_pending: false }
}

/// Multi-shot: executable again after execution; with simultaneous use it may
/// also be resubmitted while pending.
pub open spec fn multi_shot_policy(simultaneous: bool) -> UsagePolicy {
    UsagePolicy {
        flags: if simultaneous { SIMULTANEOUS_USE_BITS } else { 0 },
        post: PostExecution::Executable,
        resubmit_pending: simultaneous,
    }
}

/// Lifecycle state of a command buffer, as the device sees it.
pub enum Lifecycle {
    Initial,
    Recording(UsagePolicy),
    Executable(UsagePolicy),
    /// Submitted; the device may read it. Holds the state it moves to on completion.
    Pending(Box<Lifecycle>),
    Invalid,
}

/// The operations that move a buffer between states.
pub enum Transition {
    Begin(UsagePolicy),
    Finish,
    Submit,
    Complete,
    Reset,
}

/// The state an executed buffer returns to under policy `p`.
pub open spec fn after_execution(p: UsagePolicy) -> Lifecycle {
    match p.post {
        PostExecution::Executable => Lifecycle::Executable(p),
        PostExecution::Invalid => Lifecycle::Invalid,
    }
}

/// Whether a buffer in state `s` may be destroyed.
pub open spec fn droppable(s: Lifecycle) -> bool {
    !(s is Pending)
}

/// Whether a buffer in state `s` may be reset.
pub open spec fn resettable(s: Lifecycle) -> bool {
    s is Recording || s is Executable || s is Invalid
}

/// The legal transitions of the device API: `None` where `t` is illegal in `s`.
pub open spec fn next_state(s: Lifecycle, t: Transition) -> Option<Lifecycle> {
    match t {
        Transition::Begin(p) => if s is Initial {
            Some(Lifecycle::Recording(p))
        } else {
            None
        },
        Transition::Finish => match s {
            Lifecycle::Recording(p) => Some(Lifecycle::Executable(p)),
            _ => None,
        },
        Transition::Submit => match s {
            Lifecycle::Executable(p) => Some(Lifecycle::Pending(Box::new(after_execution(p)))),
            Lifecycle::Pending(n) => match *n {
                Lifecycle::Executable(p) => if p.resubmit_pending {
                    Some(s)
                } else {
                    None
                },
                _ => None,
            },
            _ => None,
        },
        Transition::Complete => match s {
            Lifecycle::Pending(n) => Some(*n),
            _ => None,
        },
        Transition::Reset => if resettable(s) {
            Some(Lifecycle::Initial)
        } else {
            None
        },
    }
}

/// Command buffers of this level can be submitted to the command queues.
#[derive(Clone, Copy, Debug)]
pub struct PrimaryLevel;

/// Command buffers of this level can be executed as part of the primary buffers.
#[derive(Clone, Copy, Debug)]
pub struct SecondaryLevel;

/// Level tags.
pub trait Level {
    spec fn primary(&self) -> bool;
}

impl Level for PrimaryLevel {
    open spec fn primary(&self) -> bool {
        true
    }
}

impl Level for SecondaryLevel {
    open spec fn primary(&self) -> bool {
        false
    }
}

/// This flag specifies that a buffer can be reset individually.
/// Without it a buffer can be reset only together with all other buffers of its pool.
#[derive(Clone, Copy, Debug)]
pub struct IndividualReset;

/// Reset granularity tags: `IndividualReset`, or `()` for pool-wide reset only.
pub trait ResetMode {
    spec fn individual(&self) -> bool;
}

impl ResetMode for IndividualReset {
    open spec fn individual(&self) -> bool {
        true
    }
}

impl ResetMode for () {
    open spec fn individual(&self) -> bool {
        false
    }
}

/// Buffer with this usage will move to the invalid state after execution.
/// Resubmitting requires reset and rerecording commands.
#[derive(Clone, Copy, Debug)]
pub struct OneShot;

/// Buffer with this usage will move back to the executable state after execution.
#[derive(Clone, Copy, Debug)]
pub struct MultiShot<S = ()>(pub S);

/// Additional flag for `MultiShot` that allows resubmitting a buffer in pending state.
/// Note that resubmitting pending buffers can hurt performance.
#[derive(Clone, Copy, Debug)]
pub struct SimultaneousUse;

/// Buffers with this usage must be secondary buffers executed entirely in a render pass.
#[derive(Clone, Copy, Debug)]
pub struct RenderPassContinue;

/// Trait implemented by all usage types.
pub trait Usage {
    /// The policy this usage stands for.
    spec fn policy(&self) -> UsagePolicy;

    /// Flags to begin recording with.
    fn flags(&self) -> (r: UsageFlags)
        ensures
            r@ == self.policy().flags,
    ;
}

impl Usage for OneShot {
    open spec fn policy(&self) -> UsagePolicy {
        one_shot_policy()
    }

    fn flags(&self) -> (r: UsageFlags) {
        UsageFlags::one_time_submit()
    }
}

/// The simultaneous-use parameter of `MultiShot`: `()` or `SimultaneousUse`.
pub trait MultiShotMode {
    spec fn simultaneous(&self) -> bool;

    /// Flags this mode adds.
    fn flags(&self) -> (r: UsageFlags)
        ensures
            r@ == (if self.simultaneous() { SIMULTANEOUS_USE_BITS } else { 0 }),
    ;
}

impl MultiShotMode for () {
    open spec fn simultaneous(&self) -> bool {
        false
    }

    fn flags(&self) -> (r: UsageFlags) {
        UsageFlags::empty()
    }
}

impl MultiShotMode for SimultaneousUse {
    open spec fn simultaneous(&self) -> bool {
        true
    }

    fn flags(&self) -> (r: UsageFlags) {
        UsageFlags::simultaneous_use()
    }
}

impl<S: MultiShotMode> Usage for MultiShot<S> {
    open spec fn policy(&self) -> UsagePolicy {
        multi_shot_policy(self.0.simultaneous())
    }

    fn flags(&self) -> (r: UsageFlags) {
        self.0.flags()
    }
}

/// Lifecycle state tags.
pub trait State {
    spec fn lifecycle(&self) -> Lifecycle;
}

/// Command buffer state in which all buffers start.
/// Resetting also moves a buffer to this state.
#[derive(Clone, Copy, Debug)]
pub struct InitialState;

/// Command buffer in recording state can be populated with commands.
#[derive(Clone, Copy, Debug)]
pub struct RecordingState<U>(pub U);

/// Command buffer in executable state can be submitted.
#[derive(Clone, Copy, Debug)]
pub struct ExecutableState<U>(pub U);

/// Command buffer in pending state is submitted to the device.
/// It must never be invalidated or reset, because the device may read it at the moment.
/// Moving a buffer out of the pending state is the caller's assertion that the device is done.
#[derive(Clone, Copy, Debug)]
pub struct PendingState<N>(pub N);

/// One-shot buffers move to the invalid state after execution.
/// Invalidating any resource referenced by a recorded command also moves a buffer here.
#[derive(Clone, Copy, Debug)]
pub struct InvalidState;

impl State for InitialState {
    open spec fn lifecycle(&self) -> Lifecycle {
        Lifecycle::Initial
    }
}

impl<U: Usage> State for RecordingState<U> {
    open spec fn lifecycle(&self) -> Lifecycle {
        Lifecycle::Recording(self.0.policy())
    }
}

impl<U: Usage> State for ExecutableState<U> {
    open spec fn lifecycle(&self) -> Lifecycle {
        Lifecycle::Executable(self.0.policy())
    }
}

impl<N: State> State for PendingState<N> {
    open spec fn lifecycle(&self) -> Lifecycle {
        Lifecycle::Pending(Box::new(self.0.lifecycle()))
    }
}

impl State for InvalidState {
    open spec fn lifecycle(&self) -> Lifecycle {
        Lifecycle::Invalid
    }
}

/// States in which a command buffer can be destroyed.
pub trait Droppable: State {
    proof fn lemma_droppable(&self)
        ensures
            droppable(self.lifecycle()),
    ;
}

impl Droppable for InitialState {
    proof fn lemma_droppable(&self) {
    }
}

impl<U: Usage> Droppable for RecordingState<U> {
    proof fn lemma_droppable(&self) {
    }
}

impl<U: Usage> Droppable for ExecutableState<U> {
    proof fn lemma_droppable(&self) {
    }
}

impl Droppable for InvalidState {
    proof fn lemma_droppable(&self) {
    }
}

/// States in which a command buffer can be reset.
pub trait Resettable: Droppable {
    proof fn lemma_resettable(&self)
        ensures
            resettable(self.lifecycle()),
    ;
}

impl<U: Usage> Resettable for RecordingState<U> {
    proof fn lemma_resettable(&self) {
    }
}

impl<U: Usage> Resettable for ExecutableState<U> {
    proof fn lemma_resettable(&self) {
    }
}

impl Resettable for InvalidState {
    proof fn lemma_resettable(&self) {
    }
}

/// What a command buffer wrapper stands for.
pub struct BufferView<B, C> {
    pub raw: B,
    pub capability: C,
    pub state: Lifecycle,
    pub primary: bool,
    pub individual_reset: bool,
    pub family: FamilyId,
}

/// Command buffer wrapper.
/// Its type fixes state with usage, level and ability to be individually reset,
/// so that each method is offered only in the states where it is legal.
#[derive(Debug)]
pub struct Buffer<B, C, S, L, R = ()> {
    inner: B,
    capability: C,
    state: S,
    level: L,
    reset: R,
    family: FamilyId,
    relevant: relevant::Relevant,
}

impl<B, C, S: State, L: Level, R: ResetMode> View for Buffer<B, C, S, L, R> {
    type V = BufferView<B, C>;

    closed spec fn view(&self) -> BufferView<B, C> {
        BufferView {
            raw: self.inner,
            capability: self.capability,
            state: self.state.lifecycle(),
            primary: self.level.primary(),
            individual_reset: self.reset.individual(),
            family: self.family,
        }
    }
}

impl<B, C, L: Level, R: ResetMode> Buffer<B, C, InitialState, L, R> {
    /// Wrap a freshly allocated raw buffer, which the backend holds in its initial state.
    pub fn from_raw(inner: B, capability: C, level: L, reset: R, family: FamilyId) -> (r: Self)
        ensures
            r@ == (BufferView {
                raw: inner,
                capability,
                state: Lifecycle::Initial,
                primary: level.primary(),
                individual_reset: reset.individual(),
                family,
            }),
    {
        Buffer { inner, capability, state: InitialState, level, reset, family, relevant: arm() }
    }
}

impl<B, C, R: ResetMode> Buffer<B, C, InitialState, PrimaryLevel, R> {
    /// Begin recording command buffer.
    ///
    /// `usage` specifies usage of the command buffer: `OneShot` or `MultiShot`.
    pub fn begin<U>(self, usage: U) -> (r: Buffer<B, C, RecordingState<U>, PrimaryLevel, R>)
        where
            U: Usage,
        ensures
            next_state(self@.state, Transition::Begin(usage.policy())) == Some(r@.state),
            r@ == (BufferView { state: Lifecycle::Recording(usage.policy()), ..self@ }),
    {
        let Buffer { inner, capability, state: _, level, reset, family, relevant } = self;
        Buffer { inner, capability, state: RecordingState(usage), level, reset, family, relevant }
    }
}

impl<B, C, U: Usage, L: Level, R: ResetMode> Buffer<B, C, RecordingState<U>, L, R> {
    /// End recording: the buffer becomes executable with the same usage.
    pub fn finish(self) -> (r: Buffer<B, C, ExecutableState<U>, L, R>)
        ensures
            next_state(self@.state, Transition::Finish) == Some(r@.state),
            r@ == (BufferView { state: Lifecycle::Executable(self.usage().policy()), ..self@ }),
    {
        let Buffer { inner, capability, state, level, reset, family, relevant } = self;
        Buffer { inner, capability, state: ExecutableState(state.0), level, reset, family, relevant }
    }

    /// The usage recording began with.
    pub closed spec fn usage(&self) -> U {
        self.state.0
    }
}

/// Structure containing a command buffer ready for submission.
#[derive(Debug)]
pub struct Submit<S> {
    raw: S,
    family: FamilyId,
}

impl<S> View for Submit<S> {
    type V = (S, FamilyId);

    closed spec fn view(&self) -> (S, FamilyId) {
        (self.raw, self.family)
    }
}

impl<S> Submit<S> {
    /// Get family this submit is associated with.
    pub fn family(&self) -> (r: FamilyId)
        ensures
            r == self@.1,
    {
        self.family
    }

    /// Unwrap inner submit value.
    pub fn into_inner(self) -> (r: S)
        ensures
            r == self@.0,
    {
        self.raw
    }
}

impl<B, C, R: ResetMode> Buffer<B, C, ExecutableState<OneShot>, PrimaryLevel, R> where B: CommandBuffer {
    /// Produce a `Submit` object that can be used to populate a submission.
    pub fn submit_once(self) -> (r: (
        Submit<B::Submit>,
        Buffer<B, C, PendingState<InvalidState>, PrimaryLevel, R>,
    ))
        ensures
            r.0@.1 == self@.family,
            next_state(self@.state, Transition::Submit) == Some(r.1@.state),
            r.1@ == (BufferView {
                state: Lifecycle::Pending(Box::new(Lifecycle::Invalid)),
                ..self@
            }),
    {
        let payload = self.inner.submit();
        let Buffer { inner, capability, state: _, level, reset, family, relevant } = self;
        (
            Submit { raw: payload, family },
            Buffer { inner, capability, state: PendingState(InvalidState), level, reset, family, relevant },
        )
    }
}

impl<B, C, S: MultiShotMode, R: ResetMode> Buffer<B, C, ExecutableState<MultiShot<S>>, PrimaryLevel, R> where B: CommandBuffer {
    /// Produce a `Submit` object that can be used to populate a submission.
    pub fn submit(self) -> (r: (
        Submit<B::Submit>,
        Buffer<B, C, PendingState<ExecutableState<MultiShot<S>>>, PrimaryLevel, R>,
    ))
        ensures
            r.0@.1 == self@.family,
            next_state(self@.state, Transition::Submit) == Some(r.1@.state),
            r.1@ == (BufferView {
                state: Lifecycle::Pending(Box::new(self@.state)),
                ..self@
            }),
    {
        let payload = self.inner.submit();
        let Buffer { inner, capability, state, level, reset, family, relevant } = self;
        (
            Submit { raw: payload, family },
            Buffer { inner, capability, state: PendingState(state), level, reset, family, relevant },
        )
    }
}

impl<B, C, R: ResetMode> Buffer<B, C, PendingState<ExecutableState<MultiShot<SimultaneousUse>>>, PrimaryLevel, R> where
    B: CommandBuffer,
 {
    /// Submit a simultaneous-use buffer again while it is still pending.
    /// The buffer stays pending.
    pub fn resubmit(&self) -> (r: Submit<B::Submit>)
        ensures
            r@.1 == self@.family,
            next_state(self@.state, Transition::Submit) == Some(self@.state),
    {
        let payload = self.inner.submit();
        Submit { raw: payload, family: self.family }
    }
}

impl<B, C, N: State, L: Level, R: ResetMode> Buffer<B, C, PendingState<N>, L, R> {
    /// Mark command buffer as complete.
    ///
    /// The caller asserts that the device has finished executing the recorded
    /// commands, as observed through a fence or semaphore wait.
    pub fn complete(self) -> (r: Buffer<B, C, N, L, R>)
        ensures
            next_state(self@.state, Transition::Complete) == Some(r@.state),
            r@ == (BufferView { state: r@.state, ..self@ }),
    {
        let Buffer { inner, capability, state, level, reset, family, relevant } = self;
        Buffer { inner, capability, state: state.0, level, reset, family, relevant }
    }
}

impl<B, C, S: Resettable, L: Level> Buffer<B, C, S, L, IndividualReset> {
    /// Reset command buffer.
    pub fn reset(self) -> (r: Buffer<B, C, InitialState, L, IndividualReset>)
        ensures
            resettable(self@.state),
            next_state(self@.state, Transition::Reset) == Some(r@.state),
            r@ == (BufferView { state: Lifecycle::Initial, ..self@ }),
    {
        proof {
            self.state.lemma_resettable();
        }
        let Buffer { inner, capability, state: _, level, reset, family, relevant } = self;
        Buffer { inner, capability, state: InitialState, level, reset, family, relevant }
    }
}

impl<B, C, S: Resettable, L: Level> Buffer<B, C, S, L> {
    /// Mark command buffer as reset.
    ///
    /// The caller asserts that it has reset the buffer through its command pool,
    /// and calls this for every buffer of the pool.
    pub fn mark_reset(self) -> (r: Buffer<B, C, InitialState, L>)
        ensures
            resettable(self@.state),
            next_state(self@.state, Transition::Reset) == Some(r@.state),
            r@ == (BufferView { state: Lifecycle::Initial, ..self@ }),
    {
        proof {
            self.state.lemma_resettable();
        }
        let Buffer { inner, capability, state: _, level, reset, family, relevant } = self;
        Buffer { inner, capability, state: InitialState, level, reset, family, relevant }
    }
}

impl<B, C, S: Droppable, L: Level, R: ResetMode> Buffer<B, C, S, L, R> {
    /// Destroy the wrapper, discharging its sentinel, and hand the raw buffer
    /// back so that its pool can free it.
    pub fn dispose(self) -> (r: B)
        ensures
            droppable(self@.state),
            r == self@.raw,
    {
        proof {
            self.state.lemma_droppable();
        }
        let Buffer { inner, capability: _, state: _, level: _, reset: _, family: _, relevant } = self;
        discharge(relevant);
        inner
    }
}

impl<B, C, U, L, R> Encoder<C> for Buffer<B, C, RecordingState<U>, L, R> where
    B: CommandBuffer,
    U: Usage,
    L: Level,
    R: ResetMode,
 {
    type Buffer = B;

    fn buffer(&mut self) -> (r: &mut B)
        ensures
            *r == old(self)@.raw,
            final(self)@ == (BufferView { raw: *final(r), ..old(self)@ }),
    {
        &mut self.inner
    }
}

impl<B, C, S: State, L: Level> Buffer<FrameBound<B>, C, S, L> {
    /// Release a borrowed buffer, which lets the pool hand out the next one.
    /// Whatever state this buffer is in, it is reset only after its bound frame
    /// is retired, so a pending buffer can be released safely.
    pub fn release(self, frames: &mut Frames<B>)
        ensures
            final(frames)@ == (FramesView { deferred: old(frames)@.deferred.push(self@.raw@), ..old(frames)@ }),
    {
        let Buffer { inner, capability: _, state: _, level: _, reset: _, family: _, relevant } = self;
        discharge(relevant);
        frames.defer(inner);
    }
}

/// Reset is legal exactly in the recording, executable and invalid states,
/// and always leads to the initial state.
pub proof fn lemma_reset_only_when_resettable(s: Lifecycle)
    ensures
        next_state(s, Transition::Reset) is Some <==> (s is Recording || s is Executable
            || s is Invalid),
        next_state(s, Transition::Reset) is Some ==> next_state(s, Transition::Reset) == Some(
            Lifecycle::Initial,
        ),
{
}

/// A one-shot buffer that is submitted and then completed ends invalid, never executable.
pub proof fn lemma_one_shot_ends_invalid(pending: Lifecycle, done: Lifecycle)
    requires
        next_state(Lifecycle::Executable(one_shot_policy()), Transition::Submit) == Some(pending),
        next_state(pending, Transition::Complete) == Some(done),
    ensures
        done == Lifecycle::Invalid,
        !(done is Executable),
{
}

/// A multi-shot buffer without simultaneous use that is submitted and then
/// completed is executable again, with the same usage.
pub proof fn lemma_multi_shot_ends_executable(pending: Lifecycle, done: Lifecycle)
    requires
        next_state(Lifecycle::Executable(multi_shot_policy(false)), Transition::Submit) == Some(
            pending,
        ),
        next_state(pending, Transition::Complete) == Some(done),
    ensures
        done == Lifecycle::Executable(multi_shot_policy(false)),
{
}

/// A submitted multi-shot buffer may be submitted again before it completes
/// exactly when it was recorded for simultaneous use.
pub proof fn lemma_resubmit_while_pending(simultaneous: bool, pending: Lifecycle)
    requires
        next_state(Lifecycle::Executable(multi_shot_policy(simultaneous)), Transition::Submit)
            == Some(pending),
    ensures
        next_state(pending, Transition::Submit) is Some <==> simultaneous,
        next_state(pending, Transition::Submit) is Some ==> next_state(pending, Transition::Submit)
            == Some(pending),
{
}

/// For each of the three usage policies, begin, finish, submit and complete
/// are all legal in turn, and leave the buffer where the usage table says:
/// invalid after one-shot use, executable with the same usage otherwise.
pub proof fn lemma_round_trip(p: UsagePolicy)
    requires
        p == one_shot_policy() || p == multi_shot_policy(false) || p == multi_shot_policy(true),
    ensures
        ({
            let recording = next_state(Lifecycle::Initial, Transition::Begin(p));
            let executable = next_state(recording.unwrap(), Transition::Finish);
            let pending = next_state(executable.unwrap(), Transition::Submit);
            let done = next_state(pending.unwrap(), Transition::Complete);
            &&& recording is Some
            &&& executable is Some
            &&& pending is Some
            &&& done is Some
            &&& done.unwrap() == (if p == one_shot_policy() {
                Lifecycle::Invalid
            } else {
                Lifecycle::Executable(p)
            })
        }),
{
}

} // verus!
