//! Handles to the values of the runtime, which count their own references.
use crate::error::TclErrorView;
use crate::ffi::{Call, CallView, ReplyView};
use crate::init::{init, init_step, InitGuard};
use crate::task::{
    begin, calls_from, outcome_from, runs, Goal, OutputView, Phase, Step, StepView, TaskView,
};
use vstd::prelude::*;
use vstd::utf8::{decode_utf8, valid_utf8};

verus! {

/// The reference count of a value once one more handle refers to it.
pub open spec fn incremented(count: int) -> int {
    count + 1
}

/// The reference count of a value once one handle less refers to it.
pub open spec fn decremented(count: int) -> int {
    count - 1
}

/// True when a value whose reference count has come down to `count` is to be
/// freed.
pub open spec fn should_free(count: int) -> bool {
    count <= 0
}

/// True when a value with this reference count is referred to more than once.
pub open spec fn shared(count: int) -> bool {
    count > 1
}

/// A handle to a value of the runtime.
///
/// The value counts the handles that refer to it in a field of its own; a
/// handle is no more than the value's address. Two handles are equal when they
/// refer to the same value. A handle cannot be copied: `duplicate` has the
/// value count the new handle, and `release` takes the handle away for good.
///
/// The runtime does not change the count atomically, so the handles to one
/// value belong on one thread.
#[derive(PartialEq, Eq, Structural, Debug)]
pub struct TclObj {
    obj_ptr: usize,
}

impl View for TclObj {
    type V = usize;

    closed spec fn view(&self) -> usize {
        self.obj_ptr
    }
}

impl TclObj {
    /// A handle never refers to NULL.
    #[verifier::type_invariant]
    closed spec fn non_null(&self) -> bool {
        self.obj_ptr != 0
    }

    /// The handle for the value at `obj_ptr`, once that value has counted it.
    pub(crate) fn attached(obj_ptr: usize) -> (obj: TclObj)
        requires
            obj_ptr != 0,
        ensures
            obj@ == obj_ptr,
    {
        TclObj { obj_ptr }
    }

    /// Starts making a new, empty value and a handle to it.
    ///
    /// The runtime is made ready first if need be. The operation ends in
    /// `NullPointer` if the runtime has no value to give, else in a handle
    /// that the value has counted.
    pub fn new(guard: &mut InitGuard) -> (step: Step)
        ensures
            final(guard).initialized(),
            step@ == init_step(old(guard).initialized(), Goal::Obj),
    {
        init(guard, Goal::Obj)
    }

    /// Starts attaching a handle to the value at `obj_ptr`.
    ///
    /// The runtime is made ready first if need be. The operation ends in
    /// `NullPointer` if `obj_ptr` is NULL, else in a handle that the value has
    /// counted.
    pub fn from_ptr(guard: &mut InitGuard, obj_ptr: usize) -> (step: Step)
        ensures
            final(guard).initialized(),
            step@ == init_step(old(guard).initialized(), Goal::Attach(obj_ptr)),
    {
        init(guard, Goal::Attach(obj_ptr))
    }

    /// Starts making one more handle to the same value: the value counts it,
    /// and the operation ends in the new handle.
    pub fn duplicate(&self) -> (step: Step)
        ensures
            step@ == StepView::Ask(CallView::RefCount(self@), TaskView::Attach(self@)),
    {
        let obj = self.as_ptr();
        Step::ask(Call::RefCount(obj), Phase::Attach(obj))
    }

    /// Starts giving this handle up: the value counts one handle less and is
    /// freed if none is left. The operation ends in whether it was freed.
    pub fn release(self) -> (step: Step)
        ensures
            step@ == StepView::Ask(CallView::RefCount(self@), TaskView::Release(self@)),
    {
        let obj = self.as_ptr();
        Step::ask(Call::RefCount(obj), Phase::Release(obj))
    }

    /// Starts asking whether more than one handle refers to the value.
    pub fn is_shared(&self) -> (step: Step)
        ensures
            step@ == StepView::Ask(CallView::RefCount(self@), TaskView::IsShared),
    {
        Step::ask(Call::RefCount(self.as_ptr()), Phase::IsShared)
    }

    /// Starts reading the value as text.
    pub fn render(&self) -> (step: Step)
        ensures
            step@ == StepView::Ask(CallView::GetStringFromObj(self@), TaskView::Render),
    {
        Step::ask(Call::GetStringFromObj(self.as_ptr()), Phase::Render)
    }

    /// The address of the value.
    pub fn as_ptr(&self) -> (obj_ptr: usize)
        ensures
            obj_ptr == self@,
            obj_ptr != 0,
    {
        proof {
            use_type_invariant(self);
        }
        self.obj_ptr
    }

    /// The reference count to store when one more handle refers to a value
    /// that holds `count`.
    pub fn incr_ref_count(count: i32) -> (stored: i32)
        requires
            count < i32::MAX,
        ensures
            stored == incremented(count as int),
    {
        count + 1
    }

    /// The reference count to store when one handle less refers to a value
    /// that holds `count`, and whether the value is then to be freed.
    pub fn decr_ref_count(count: i32) -> (stored: (i32, bool))
        requires
            count > i32::MIN,
        ensures
            stored.0 == decremented(count as int),
            stored.1 == should_free(decremented(count as int)),
    {
        let remaining: i32 = count - 1;
        (remaining, remaining <= 0)
    }
}

/// Making a value, once the runtime is ready. Without a value from the
/// runtime the operation ends in `NullPointer`; else the value counts its
/// first handle, and the handle is handed out.
pub proof fn lemma_new(obj: usize, count: i32)
    requires
        obj != 0,
        count < i32::MAX,
    ensures
        runs(
            begin(Goal::Obj),
            seq![ReplyView::Pointer(0)],
            seq![CallView::NewObj],
            Err(TclErrorView::NullPointer),
        ),
        runs(
            begin(Goal::Obj),
            seq![ReplyView::Pointer(obj), ReplyView::Int(count), ReplyView::Nothing],
            seq![
                CallView::NewObj,
                CallView::RefCount(obj),
                CallView::SetRefCount { obj, count: incremented(count as int) as i32 },
            ],
            Ok(OutputView::Obj(obj)),
        ),
{
    reveal_with_fuel(outcome_from, 4);
    reveal_with_fuel(calls_from, 4);
}

/// Attaching a handle, once the runtime is ready. NULL is refused without a
/// call; any other value counts the handle, and the handle is handed out.
pub proof fn lemma_from_ptr(obj: usize, count: i32)
    requires
        obj != 0,
        count < i32::MAX,
    ensures
        runs(begin(Goal::Attach(0)), seq![], seq![], Err(TclErrorView::NullPointer)),
        runs(
            begin(Goal::Attach(obj)),
            seq![ReplyView::Int(count), ReplyView::Nothing],
            seq![
                CallView::RefCount(obj),
                CallView::SetRefCount { obj, count: incremented(count as int) as i32 },
            ],
            Ok(OutputView::Obj(obj)),
        ),
{
    reveal_with_fuel(outcome_from, 3);
    reveal_with_fuel(calls_from, 3);
}

/// Duplicating a handle never fails: the value counts one handle more, and
/// a handle to the same value is handed out.
pub proof fn lemma_duplicate(obj: usize, count: i32)
    requires
        count < i32::MAX,
    ensures
        runs(
            StepView::Ask(CallView::RefCount(obj), TaskView::Attach(obj)),
            seq![ReplyView::Int(count), ReplyView::Nothing],
            seq![
                CallView::RefCount(obj),
                CallView::SetRefCount { obj, count: incremented(count as int) as i32 },
            ],
            Ok(OutputView::Obj(obj)),
        ),
{
    reveal_with_fuel(outcome_from, 3);
    reveal_with_fuel(calls_from, 3);
}

/// Releasing a handle: the value counts one handle less, and is freed, after
/// the count is stored, exactly when the count is no longer positive.
pub proof fn lemma_release(obj: usize, count: i32)
    requires
        count > i32::MIN,
    ensures
        !should_free(decremented(count as int)) ==> runs(
            StepView::Ask(CallView::RefCount(obj), TaskView::Release(obj)),
            seq![ReplyView::Int(count), ReplyView::Nothing],
            seq![
                CallView::RefCount(obj),
                CallView::SetRefCount { obj, count: decremented(count as int) as i32 },
            ],
            Ok(OutputView::Flag(false)),
        ),
        should_free(decremented(count as int)) ==> runs(
            StepView::Ask(CallView::RefCount(obj), TaskView::Release(obj)),
            seq![ReplyView::Int(count), ReplyView::Nothing, ReplyView::Nothing],
            seq![
                CallView::RefCount(obj),
                CallView::SetRefCount { obj, count: decremented(count as int) as i32 },
                CallView::FreeObj(obj),
            ],
            Ok(OutputView::Flag(true)),
        ),
{
    reveal_with_fuel(outcome_from, 4);
    reveal_with_fuel(calls_from, 4);
}

/// A value is shared exactly when its reference count is above one.
pub proof fn lemma_is_shared(obj: usize, count: i32)
    ensures
        runs(
            StepView::Ask(CallView::RefCount(obj), TaskView::IsShared),
            seq![ReplyView::Int(count)],
            seq![CallView::RefCount(obj)],
            Ok(OutputView::Flag(shared(count as int))),
        ),
{
    reveal_with_fuel(outcome_from, 2);
    reveal_with_fuel(calls_from, 2);
}

/// Rendering a value gives the text of its string form.
pub proof fn lemma_render(obj: usize, bytes: Seq<u8>)
    requires
        valid_utf8(bytes),
    ensures
        runs(
            StepView::Ask(CallView::GetStringFromObj(obj), TaskView::Render),
            seq![ReplyView::Text(Some(bytes))],
            seq![CallView::GetStringFromObj(obj)],
            Ok(OutputView::Text(decode_utf8(bytes))),
        ),
{
    reveal_with_fuel(outcome_from, 2);
    reveal_with_fuel(calls_from, 2);
}

/// What the holder of a handle can do with it.
#[derive(Clone, Copy, Debug, PartialEq, Eq, Structural)]
pub enum HandleOp {
    /// Make one more handle to the value.
    Duplicate,
    /// Give the handle up.
    Release,
}

/// The number of handles to a value after `history`, which begins when the
/// first handle has been attached to the value.
pub open spec fn live_handles(history: Seq<HandleOp>) -> int
    decreases history.len(),
{
    if history.len() == 0 {
        1
    } else {
        live_handles(history.drop_last()) + match history.last() {
            HandleOp::Duplicate => 1int,
            HandleOp::Release => -1int,
        }
    }
}

/// The reference count that a value holds after `history`, if it held `base`
/// before the first handle was attached to it.
pub open spec fn ref_count(base: int, history: Seq<HandleOp>) -> int
    decreases history.len(),
{
    if history.len() == 0 {
        incremented(base)
    } else {
        let before = ref_count(base, history.drop_last());
        match history.last() {
            HandleOp::Duplicate => incremented(before),
            HandleOp::Release => decremented(before),
        }
    }
}

/// How many times the value was freed in the course of `history`: once for
/// each release that left a count at which a value is freed.
pub open spec fn times_freed(base: int, history: Seq<HandleOp>) -> int
    decreases history.len(),
{
    if history.len() == 0 {
        0
    } else {
        times_freed(base, history.drop_last()) + if history.last() == HandleOp::Release
            && should_free(ref_count(base, history)) {
            1int
        } else {
            0int
        }
    }
}

/// True when each step of `history` is taken by the holder of a handle: at
/// least one handle is left whenever a handle is duplicated or released.
pub open spec fn feasible(history: Seq<HandleOp>) -> bool {
    forall|n: int| 0 <= n < history.len() ==> live_handles(#[trigger] history.take(n)) >= 1
}

/// Duplicating and releasing change the reference count as they change the
/// number of handles: the count stays ahead of that number by what the value
/// held before the first handle was attached.
pub proof fn lemma_count_follows_handles(base: int, history: Seq<HandleOp>)
    ensures
        ref_count(base, history) == base + live_handles(history),
    decreases history.len(),
{
    if history.len() > 0 {
        lemma_count_follows_handles(base, history.drop_last());
    }
}

/// What came before the last step of a feasible history is feasible, and left
/// a handle to take that step with.
proof fn lemma_feasible_prefix(history: Seq<HandleOp>)
    requires
        feasible(history),
        history.len() > 0,
    ensures
        feasible(history.drop_last()),
        live_handles(history.drop_last()) >= 1,
{
    let prefix = history.drop_last();
    assert(prefix == history.take(history.len() - 1));
    assert forall|n: int| 0 <= n < prefix.len() implies live_handles(#[trigger] prefix.take(n))
        >= 1 by {
        assert(prefix.take(n) == history.take(n));
    }
}

/// For a value that is new when the first handle is attached to it, the
/// reference count is the number of handles that refer to it, after every
/// sequence of duplications and releases.
pub proof fn lemma_count_is_live_handles(history: Seq<HandleOp>)
    requires
        feasible(history),
    ensures
        ref_count(0, history) == live_handles(history),
        live_handles(history) >= 0,
{
    lemma_count_follows_handles(0, history);
    if history.len() > 0 {
        lemma_feasible_prefix(history);
    }
}

/// A value that is new when the first handle is attached to it is freed when
/// its last handle is released, once, and not before.
pub proof fn lemma_freed_once_with_last_handle(history: Seq<HandleOp>)
    requires
        feasible(history),
    ensures
        times_freed(0, history) == if live_handles(history) == 0 {
            1int
        } else {
            0int
        },
    decreases history.len(),
{
    if history.len() > 0 {
        lemma_feasible_prefix(history);
        lemma_freed_once_with_last_handle(history.drop_last());
        lemma_count_follows_handles(0, history);
    }
}

/// For a value that is new when the first handle is attached to it, a handle
/// finds the value shared exactly when another handle refers to it as well.
pub proof fn lemma_shared_iff_other_handle(history: Seq<HandleOp>)
    requires
        feasible(history),
        live_handles(history) >= 1,
    ensures
        shared(ref_count(0, history)) <==> live_handles(history) - 1 >= 1,
{
    lemma_count_follows_handles(0, history);
}

} // verus!
