//! Which of several layouts comes next when a key is pressed again.

use vstd::prelude::*;

verus! {

/// How long a cycle waits for the next press, in nanoseconds. Later presses start over.
pub const CYCLE_RESET_AFTER: u128 = 900_000_000;

/// Tells the layouts of one action from those of another.
#[derive(Clone, Copy, Debug, PartialEq, Eq, Structural)]
pub struct CycleKey {
    pub layouts_ptr: usize,
    pub layouts_len: usize,
}

/// Where the last press left off.
#[derive(Debug)]
pub struct CycleState {
    key: Option<CycleKey>,
    step: usize,
    last_used: u128,
}

/// What a [`CycleState`] holds. Times are in nanoseconds since a fixed moment.
pub struct CycleView {
    pub key: Option<CycleKey>,
    pub step: int,
    pub last_used: int,
}

/// The time from `earlier` to `later`; none where `later` comes first.
pub open spec fn elapsed(earlier: int, later: int) -> int {
    if earlier <= later {
        later - earlier
    } else {
        0
    }
}

/// Whether a press at `now` goes on with the cycle that `state` is in.
pub open spec fn continues(state: CycleView, key: CycleKey, now: int) -> bool {
    state.key == Some(key) && elapsed(state.last_used, now) <= CYCLE_RESET_AFTER
}

/// The state after a press at `now`. Its step is the index of the layout to use.
pub open spec fn pressed(state: CycleView, key: CycleKey, now: int) -> CycleView {
    CycleView {
        key: Some(key),
        step: if continues(state, key, now) {
            (state.step + 1) % (key.layouts_len as int)
        } else {
            0
        },
        last_used: now,
    }
}

/// The state after presses of one key at the given times, one after the other.
pub open spec fn pressed_at(state: CycleView, key: CycleKey, times: Seq<int>) -> CycleView
    decreases times.len(),
{
    if times.len() == 0 {
        state
    } else {
        pressed(pressed_at(state, key, times.drop_last()), key, times.last())
    }
}

/// A press of another key, or one that comes too late, uses the first layout.
pub proof fn law_other_presses_start_over(state: CycleView, key: CycleKey, now: int)
    requires
        state.key != Some(key) || elapsed(state.last_used, now) > CYCLE_RESET_AFTER,
    ensures
        pressed(state, key, now).step == 0,
{
}

/// A press of the same key up to 900 ms after the last one goes on to the next layout,
/// and from the last to the first. So does one whose time is before that of the last.
pub proof fn law_press_in_time_goes_on(state: CycleView, key: CycleKey, now: int)
    requires
        state.key == Some(key),
        now - state.last_used <= 900_000_000,
        0 <= state.step < key.layouts_len,
    ensures
        state.step + 1 < key.layouts_len ==> pressed(state, key, now).step == state.step + 1,
        state.step + 1 == key.layouts_len ==> pressed(state, key, now).step == 0,
{
    let len = key.layouts_len as nat;
    if state.step + 1 < len {
        vstd::arithmetic::div_mod::lemma_small_mod((state.step + 1) as nat, len);
    } else {
        vstd::arithmetic::div_mod::lemma_mod_self_0(len as int);
    }
}

/// A press more than 900 ms after the last one uses the first layout, and so does a press
/// of a key that differs in any part.
pub proof fn law_press_too_late_starts_over(state: CycleView, key: CycleKey, now: int)
    requires
        now - state.last_used > 900_000_000 || state.key is None
            || state.key->0.layouts_ptr != key.layouts_ptr || state.key->0.layouts_len
            != key.layouts_len,
    ensures
        pressed(state, key, now).step == 0,
{
}

/// Every press is remembered with its key and its time.
pub proof fn law_press_is_remembered(state: CycleView, key: CycleKey, now: int)
    ensures
        pressed(state, key, now).key == Some(key),
        pressed(state, key, now).last_used == now,
{
}

/// Every press uses a layout that there is.
pub proof fn law_step_is_in_range(state: CycleView, key: CycleKey, now: int)
    requires
        key.layouts_len > 0,
    ensures
        0 <= pressed(state, key, now).step < key.layouts_len,
{
}

/// Presses that follow each other in time go through the layouts in order and then begin
/// again: after a press that starts over, the `n`-th further press uses layout `n`, taken
/// modulo their number.
pub proof fn law_quick_presses_go_round(state: CycleView, key: CycleKey, times: Seq<int>)
    requires
        key.layouts_len > 0,
        times.len() > 0,
        !continues(state, key, times[0]),
        forall|i: int|
            0 <= i < times.len() - 1 ==> elapsed(#[trigger] times[i], times[i + 1])
                <= CYCLE_RESET_AFTER,
    ensures
        pressed_at(state, key, times).step == (times.len() - 1) % (key.layouts_len as int),
        pressed_at(state, key, times).key == Some(key),
        pressed_at(state, key, times).last_used == times.last(),
    decreases times.len(),
{
    let before = times.drop_last();
    let len = key.layouts_len as int;
    if times.len() == 1 {
        assert(before =~= Seq::<int>::empty());
        vstd::arithmetic::div_mod::lemma_small_mod(0, key.layouts_len as nat);
    } else {
        assert forall|i: int| 0 <= i < before.len() - 1 implies elapsed(
            #[trigger] before[i],
            before[i + 1],
        ) <= CYCLE_RESET_AFTER by {
            assert(elapsed(times[i], times[i + 1]) <= CYCLE_RESET_AFTER);
        }
        law_quick_presses_go_round(state, key, before);
        assert(elapsed(times[times.len() - 2], times[times.len() - 1]) <= CYCLE_RESET_AFTER);
        let n = times.len() - 2;
        assert((n % len + 1) % len == (n + 1) % len) by {
            vstd::arithmetic::div_mod::lemma_add_mod_noop(n, 1, len);
            vstd::arithmetic::div_mod::lemma_add_mod_noop(n % len, 1, len);
            vstd::arithmetic::div_mod::lemma_mod_twice(n, len);
        }
    }
}

impl View for CycleState {
    type V = CycleView;

    closed spec fn view(&self) -> CycleView {
        CycleView { key: self.key, step: self.step as int, last_used: self.last_used as int }
    }
}

impl CycleState {
    #[verifier::type_invariant]
    spec fn step_is_in_range(self) -> bool {
        match self.key {
            Some(key) => self.step == 0 || self.step < key.layouts_len,
            None => self.step == 0,
        }
    }

    /// The state before any press.
    pub fn new(now: u128) -> (state: CycleState)
        ensures
            state@ == (CycleView { key: None, step: 0, last_used: now as int }),
    {
        CycleState { key: None, step: 0, last_used: now }
    }
}

/// Records a press and gives the index of the layout to use. A cycle without layouts can
/// be started, but not gone on with.
pub fn next_cycle_index(state: &mut CycleState, key: CycleKey, now: u128) -> (index: usize)
    requires
        key.layouts_len > 0 || !continues(old(state)@, key, now as int),
    ensures
        final(state)@ == pressed(old(state)@, key, now as int),
        index == final(state)@.step,
        key.layouts_len > 0 ==> index < key.layouts_len,
        old(state)@.key == Some(key) && now <= old(state)@.last_used + 900_000_000 ==> index == (
        old(state)@.step + 1) % (key.layouts_len as int),
        old(state)@.key != Some(key) || now > old(state)@.last_used + 900_000_000 ==> index == 0,
        final(state)@.key == Some(key),
        final(state)@.last_used == now,
{
    proof {
        use_type_invariant(&*state);
    }
    let same_key = match state.key {
        Some(last) => last == key,
        None => false,
    };
    let waited: u128 = if state.last_used <= now {
        now - state.last_used
    } else {
        0
    };
    let step: usize = if same_key && waited <= CYCLE_RESET_AFTER {
        (state.step + 1) % key.layouts_len
    } else {
        0
    };
    *state = CycleState { key: Some(key), step, last_used: now };
    step
}

} // verus!
