//! Serial-in parallel-out shift register.

use vstd::prelude::*;

use crate::pin::OutputPin;

verus! {

/// The levels the data line carries during one full shift-out of `state`:
/// highest index first, index 0 last.
pub open spec fn data_frame(state: Seq<bool>) -> Seq<bool> {
    state.reverse()
}

/// The levels the clock line carries during `n` pulses: high then low, `n`
/// times.
pub open spec fn pulse_train(n: nat) -> Seq<bool>
    decreases n,
{
    if n == 0 {
        Seq::empty()
    } else {
        pulse_train((n - 1) as nat) + seq![true, false]
    }
}

/// The levels the latch line carries during one successful update: low while
/// shifting, high to publish the new outputs.
pub open spec fn latch_frame() -> Seq<bool> {
    seq![false, true]
}

/// How many high levels a write sequence contains. Each clock or latch pulse
/// drives its line high exactly once, so this counts pulses.
pub open spec fn count_high(s: Seq<bool>) -> nat
    decreases s.len(),
{
    if s.len() == 0 {
        0
    } else {
        count_high(s.drop_last()) + if s.last() {
            1nat
        } else {
            0nat
        }
    }
}

/// Highs in a concatenation are the highs of the parts.
pub proof fn lemma_count_high_add(a: Seq<bool>, b: Seq<bool>)
    ensures
        count_high(a + b) == count_high(a) + count_high(b),
    decreases b.len(),
{
    if b.len() == 0 {
        assert(a + b =~= a);
    } else {
        lemma_count_high_add(a, b.drop_last());
        assert((a + b).drop_last() =~= a + b.drop_last());
        assert((a + b).last() == b.last());
    }
}

/// A train of `n` clock pulses writes `2 * n` levels and drives the line
/// high exactly `n` times.
pub proof fn lemma_pulse_train_highs(n: nat)
    ensures
        pulse_train(n).len() == 2 * n,
        count_high(pulse_train(n)) == n,
    decreases n,
{
    if n > 0 {
        lemma_pulse_train_highs((n - 1) as nat);
        lemma_count_high_add(pulse_train((n - 1) as nat), seq![true, false]);
        assert(count_high(Seq::<bool>::empty()) == 0);
        assert(seq![true].drop_last() =~= Seq::<bool>::empty());
        assert(count_high(seq![true]) == 1);
        assert(seq![true, false].drop_last() =~= seq![true]);
        assert(count_high(seq![true, false]) == 1);
    }
}

/// One latch frame contains exactly one latch pulse.
pub proof fn lemma_latch_frame_highs()
    ensures
        count_high(latch_frame()) == 1,
{
    assert(count_high(Seq::<bool>::empty()) == 0);
    assert(seq![false].drop_last() =~= Seq::<bool>::empty());
    assert(count_high(seq![false]) == 0);
    assert(latch_frame().drop_last() =~= seq![false]);
}

/// The failure reported by an update: which physical role failed, wrapping
/// the failing pin's own error value.
///
/// An update never retries internally; the first failed pin write aborts the
/// remaining sequence and is surfaced to the caller.
#[derive(Debug)]
pub enum SRError<Pin1Err, Pin2Err, Pin3Err> {
    /// Something wrong with the clock pin.
    ClockPinError(Pin1Err),
    /// Something wrong with the latch pin.
    LatchPinError(Pin2Err),
    /// Something wrong with the data pin.
    DataPinError(Pin3Err),
}

/// One virtual output bit of an `N`-bit shift register.
///
/// A pin holds nothing but its bit index: every state change is delegated to
/// [`ShiftRegister::update`] on the register it was decomposed from, which
/// the caller lends exclusively for the duration of the call.
#[derive(Clone, Copy, Debug)]
pub struct ShiftRegisterPin<const N: usize> {
    index: usize,
}

impl<const N: usize> ShiftRegisterPin<N> {
    /// The index of the output bit this pin commands.
    pub closed spec fn bit_index(&self) -> int {
        self.index as int
    }

    /// The index addresses one of the register's `N` bits.
    pub open spec fn wf(&self) -> bool {
        self.bit_index() < N as int
    }

    fn new(index: usize) -> (r: Self)
        requires
            index < N,
        ensures
            r.bit_index() == index as int,
    {
        ShiftRegisterPin { index }
    }

    /// The index of the output bit this pin commands.
    pub fn index(&self) -> (r: usize)
        ensures
            r as int == self.bit_index(),
    {
        self.index
    }

    /// Commands this output bit low, re-shifting the whole register.
    pub fn set_low<Pin1, Pin2, Pin3>(
        &self,
        register: &mut ShiftRegister<Pin1, Pin2, Pin3, N>,
    ) -> (r: Result<(), SRError<Pin1::Error, Pin2::Error, Pin3::Error>>) where
        Pin1: OutputPin,
        Pin2: OutputPin,
        Pin3: OutputPin,

        requires
            old(register).wf(),
            self.wf(),
        ensures
            ShiftRegister::update_post(
                *old(register),
                *final (register),
                self.bit_index(),
                false,
                r,
            ),
    {
        register.update(self.index, false)
    }

    /// Commands this output bit high, re-shifting the whole register.
    pub fn set_high<Pin1, Pin2, Pin3>(
        &self,
        register: &mut ShiftRegister<Pin1, Pin2, Pin3, N>,
    ) -> (r: Result<(), SRError<Pin1::Error, Pin2::Error, Pin3::Error>>) where
        Pin1: OutputPin,
        Pin2: OutputPin,
        Pin3: OutputPin,

        requires
            old(register).wf(),
            self.wf(),
        ensures
            ShiftRegister::update_post(
                *old(register),
                *final (register),
                self.bit_index(),
                true,
                r,
            ),
    {
        register.update(self.index, true)
    }
}

/// Serial-in parallel-out shift register driver over three output pins.
pub struct ShiftRegister<Pin1, Pin2, Pin3, const N: usize>
where
    Pin1: OutputPin,
    Pin2: OutputPin,
    Pin3: OutputPin,
{
    clock: Pin1,
    latch: Pin2,
    data: Pin3,
    output_state: Vec<bool>,
}

impl<Pin1, Pin2, Pin3, const N: usize> ShiftRegister<Pin1, Pin2, Pin3, N>
where
    Pin1: OutputPin,
    Pin2: OutputPin,
    Pin3: OutputPin,
{
    /// The last commanded value of each of the `N` output bits.
    pub closed spec fn state(&self) -> Seq<bool> {
        self.output_state@
    }

    /// The three physical pins, in (clock, latch, data) order.
    pub closed spec fn pins(&self) -> (Pin1, Pin2, Pin3) {
        (self.clock, self.latch, self.data)
    }

    /// The write history of the clock pin.
    pub open spec fn clock_writes(&self) -> Seq<bool> {
        self.pins().0.writes()
    }

    /// The write history of the latch pin.
    pub open spec fn latch_writes(&self) -> Seq<bool> {
        self.pins().1.writes()
    }

    /// The write history of the data pin.
    pub open spec fn data_writes(&self) -> Seq<bool> {
        self.pins().2.writes()
    }

    /// The output-state vector holds one bit per output.
    pub open spec fn wf(&self) -> bool {
        self.state().len() == N as int
    }

    /// Creates a driver from clock, latch, and data output pins.
    ///
    /// All `N` bits start commanded low; no level is written to any pin.
    pub fn new(clock: Pin1, latch: Pin2, data: Pin3) -> (r: Self)
        ensures
            r.wf(),
            forall|i: int| 0 <= i < N ==> r.state()[i] == false,
            r.pins() == (clock, latch, data),
    {
        let mut output_state: Vec<bool> = Vec::new();
        while output_state.len() < N
            invariant
                output_state@.len() <= N as int,
                forall|i: int| 0 <= i < output_state@.len() ==> output_state@[i] == false,
            decreases N as int - output_state@.len(),
        {
            output_state.push(false);
        }
        ShiftRegister { clock, latch, data, output_state }
    }

    /// What one successful update leaves on the three lines: the latch goes
    /// low, all of `state` is shifted out, and the latch goes high again.
    pub open spec fn update_ok(pre: Self, post: Self, state: Seq<bool>) -> bool {
        &&& post.latch_writes() == pre.latch_writes() + latch_frame()
        &&& post.data_writes() == pre.data_writes() + data_frame(state)
        &&& post.clock_writes() == pre.clock_writes() + pulse_train(state.len())
    }

    /// An update aborted by a failed write on the data line: the latch went
    /// low, some strict prefix of the frame was shifted out with one full
    /// clock pulse per bit, and the latch never went high again.
    pub open spec fn update_data_err(pre: Self, post: Self, state: Seq<bool>) -> bool {
        let k = post.data_writes().len() - pre.data_writes().len();
        &&& post.latch_writes() == pre.latch_writes().push(false)
        &&& 0 <= k < state.len()
        &&& post.data_writes() == pre.data_writes() + data_frame(state).take(k)
        &&& post.clock_writes() == pre.clock_writes() + pulse_train(k as nat)
    }

    /// An update aborted by a failed write on the clock line: the latch went
    /// low, `k + 1` bits reached the data line but the last one's clock pulse
    /// failed on its rising or falling edge, and the latch never went high
    /// again.
    pub open spec fn update_clock_err(pre: Self, post: Self, state: Seq<bool>) -> bool {
        let k = post.data_writes().len() - pre.data_writes().len() - 1;
        &&& post.latch_writes() == pre.latch_writes().push(false)
        &&& 0 <= k < state.len()
        &&& post.data_writes() == pre.data_writes() + data_frame(state).take(k + 1)
        &&& {
            ||| post.clock_writes() == pre.clock_writes() + pulse_train(k as nat)
            ||| post.clock_writes() == pre.clock_writes() + pulse_train(k as nat).push(true)
        }
    }

    /// An update aborted by a failed write on the latch line: either the
    /// initial latch-low failed and nothing was written at all, or the whole
    /// frame was shifted out and only the final latch-high failed.
    pub open spec fn update_latch_err(pre: Self, post: Self, state: Seq<bool>) -> bool {
        ||| {
            &&& post.latch_writes() == pre.latch_writes()
            &&& post.data_writes() == pre.data_writes()
            &&& post.clock_writes() == pre.clock_writes()
        }
        ||| {
            &&& post.latch_writes() == pre.latch_writes().push(false)
            &&& post.data_writes() == pre.data_writes() + data_frame(state)
            &&& post.clock_writes() == pre.clock_writes() + pulse_train(state.len())
        }
    }

    /// Everything an update guarantees, whether it succeeded or failed.
    ///
    /// The in-memory state takes the commanded value in every case. The
    /// result tells which pin, if any, refused a write, and each case pins
    /// down what had reached the three lines by then. On failure the latch is
    /// never driven high, so the register's visible outputs stay whatever the
    /// last successful update latched.
    pub open spec fn update_post(
        pre: Self,
        post: Self,
        index: int,
        value: bool,
        r: Result<(), SRError<Pin1::Error, Pin2::Error, Pin3::Error>>,
    ) -> bool {
        let state = pre.state().update(index, value);
        &&& post.wf()
        &&& post.state() == state
        &&& match r {
            Ok(_) => Self::update_ok(pre, post, state),
            Err(e) => match e {
                SRError::ClockPinError(_) => Self::update_clock_err(pre, post, state),
                SRError::LatchPinError(_) => Self::update_latch_err(pre, post, state),
                SRError::DataPinError(_) => Self::update_data_err(pre, post, state),
            },
        }
        &&& r is Err ==> post.latch_writes() == pre.latch_writes() || post.latch_writes()
            == pre.latch_writes().push(false)
    }

    /// Commands output bit `index` to `value` and re-shifts the whole
    /// register: latch low, all `N` bits out highest index first (one clock
    /// pulse each), latch high.
    ///
    /// The in-memory state is updated before any pin write, so it keeps the
    /// commanded value even when the physical sequence fails.
    pub fn update(&mut self, index: usize, value: bool) -> (r: Result<
        (),
        SRError<Pin1::Error, Pin2::Error, Pin3::Error>,
    >)
        requires
            old(self).wf(),
            index < N,
        ensures
            Self::update_post(*old(self), *final (self), index as int, value, r),
    {
        self.output_state.set(index, value);
        let ghost state = self.output_state@;
        match self.latch.set_low() {
            Err(e) => {
                return Err(SRError::LatchPinError(e));
            },
            Ok(_) => {},
        }
        let n = self.output_state.len();
        let mut j: usize = 0;
        while j < n
            invariant
                n == N as int,
                j <= n,
                index < N,
                old(self).wf(),
                state == old(self).state().update(index as int, value),
                self.output_state@ == state,
                state.len() == n,
                self.latch_writes() == old(self).latch_writes().push(false),
                self.data_writes() == old(self).data_writes() + data_frame(state).take(j as int),
                self.clock_writes() == old(self).clock_writes() + pulse_train(j as nat),
            decreases n - j,
        {
            proof {
                assert(data_frame(state)[j as int] == state[n - 1 - j as int]);
                assert(data_frame(state).take(j + 1) =~= data_frame(state).take(j as int).push(
                    data_frame(state)[j as int],
                ));
            }
            let bit = self.output_state[n - 1 - j];
            let write_result = if bit {
                self.data.set_high()
            } else {
                self.data.set_low()
            };
            match write_result {
                Err(e) => {
                    proof {
                        assert(data_frame(state).take(j as int).len() == j as int);
                        assert(self.data_writes().len() == old(self).data_writes().len() + j);
                    }
                    return Err(SRError::DataPinError(e));
                },
                Ok(_) => {},
            }
            proof {
                assert(self.data_writes() =~= old(self).data_writes() + data_frame(state).take(
                    j + 1,
                ));
            }
            match self.clock.set_high() {
                Err(e) => {
                    proof {
                        assert(data_frame(state).take(j + 1).len() == j + 1);
                        assert(self.data_writes().len() == old(self).data_writes().len() + j + 1);
                    }
                    return Err(SRError::ClockPinError(e));
                },
                Ok(_) => {},
            }
            match self.clock.set_low() {
                Err(e) => {
                    proof {
                        assert(data_frame(state).take(j + 1).len() == j + 1);
                        assert(self.data_writes().len() == old(self).data_writes().len() + j + 1);
                        assert(self.clock_writes() =~= old(self).clock_writes() + pulse_train(
                            j as nat,
                        ).push(true));
                    }
                    return Err(SRError::ClockPinError(e));
                },
                Ok(_) => {},
            }
            proof {
                assert(pulse_train((j + 1) as nat) =~= pulse_train(j as nat) + seq![true, false]);
                assert(self.clock_writes() =~= old(self).clock_writes() + pulse_train(
                    (j + 1) as nat,
                ));
            }
            j = j + 1;
        }
        proof {
            assert(data_frame(state).take(n as int) =~= data_frame(state));
        }
        match self.latch.set_high() {
            Err(e) => {
                return Err(SRError::LatchPinError(e));
            },
            Ok(_) => {},
        }
        proof {
            assert(self.latch_writes() =~= old(self).latch_writes() + latch_frame());
        }
        Ok(())
    }

    /// A snapshot of the last commanded value of each output bit.
    pub fn outputs(&self) -> (r: Vec<bool>)
        ensures
            r@ == self.state(),
    {
        let mut r: Vec<bool> = Vec::new();
        let mut i: usize = 0;
        while i < self.output_state.len()
            invariant
                i <= self.output_state@.len(),
                r@ == self.output_state@.take(i as int),
            decreases self.output_state@.len() - i,
        {
            let bit = self.output_state[i];
            proof {
                assert(self.output_state@.take(i + 1) =~= self.output_state@.take(i as int).push(
                    self.output_state@[i as int],
                ));
            }
            r.push(bit);
            i = i + 1;
        }
        proof {
            assert(self.output_state@.take(self.output_state@.len() as int) =~= self.output_state@);
        }
        r
    }

    /// Driving one bit high and then low, both updates succeeding, performs
    /// two full shift-outs: each one puts `N` clock pulses and one latch
    /// pulse on the lines, `2 * N` clock pulses and two latch pulses in all,
    /// and the bit ends commanded low.
    pub proof fn lemma_set_high_then_low_counts(
        pre: Self,
        mid: Self,
        post: Self,
        index: int,
        r1: Result<(), SRError<Pin1::Error, Pin2::Error, Pin3::Error>>,
        r2: Result<(), SRError<Pin1::Error, Pin2::Error, Pin3::Error>>,
    )
        requires
            pre.wf(),
            0 <= index < N as int,
            Self::update_post(pre, mid, index, true, r1),
            Self::update_post(mid, post, index, false, r2),
            r1 is Ok,
            r2 is Ok,
        ensures
            count_high(mid.clock_writes()) == count_high(pre.clock_writes()) + N as int,
            count_high(post.clock_writes()) == count_high(pre.clock_writes()) + 2 * N as int,
            count_high(mid.latch_writes()) == count_high(pre.latch_writes()) + 1,
            count_high(post.latch_writes()) == count_high(pre.latch_writes()) + 2,
            post.state()[index] == false,
    {
        lemma_pulse_train_highs(N as nat);
        lemma_latch_frame_highs();
        lemma_count_high_add(pre.clock_writes(), pulse_train(N as nat));
        lemma_count_high_add(mid.clock_writes(), pulse_train(N as nat));
        lemma_count_high_add(pre.latch_writes(), latch_frame());
        lemma_count_high_add(mid.latch_writes(), latch_frame());
    }

    /// Commanding the same bit to the same value twice in a row is not
    /// deduplicated: the second successful update shifts out exactly the
    /// same data frame over the same pulse train and latch frame as the
    /// first.
    pub proof fn lemma_repeated_update_identical(
        pre: Self,
        mid: Self,
        post: Self,
        index: int,
        value: bool,
        r1: Result<(), SRError<Pin1::Error, Pin2::Error, Pin3::Error>>,
        r2: Result<(), SRError<Pin1::Error, Pin2::Error, Pin3::Error>>,
    )
        requires
            pre.wf(),
            0 <= index < N as int,
            Self::update_post(pre, mid, index, value, r1),
            Self::update_post(mid, post, index, value, r2),
            r1 is Ok,
            r2 is Ok,
        ensures
            post.state() == mid.state(),
            mid.data_writes() == pre.data_writes() + data_frame(mid.state()),
            post.data_writes() == mid.data_writes() + data_frame(mid.state()),
            mid.clock_writes() == pre.clock_writes() + pulse_train(N as nat),
            post.clock_writes() == mid.clock_writes() + pulse_train(N as nat),
            mid.latch_writes() == pre.latch_writes() + latch_frame(),
            post.latch_writes() == mid.latch_writes() + latch_frame(),
    {
        assert(mid.state().update(index, value) =~= mid.state());
    }

    /// Creates the `N` virtual pins, one per bit index, in index order.
    ///
    /// No hardware side effect: this purely constructs handles, covering the
    /// indices `0..N` with no duplicates and no gaps.
    pub fn decompose(&self) -> (r: Vec<ShiftRegisterPin<N>>)
        ensures
            r@.len() == N as int,
            forall|i: int| 0 <= i < N ==> (#[trigger] r@[i]).wf() && r@[i].bit_index() == i,
            forall|i: int, j: int|
                0 <= i < j < N ==> #[trigger] r@[i].bit_index() != #[trigger] r@[j].bit_index(),
    {
        let mut r: Vec<ShiftRegisterPin<N>> = Vec::new();
        let mut i: usize = 0;
        while i < N
            invariant
                i <= N,
                r@.len() == i as int,
                forall|k: int| 0 <= k < i ==> (#[trigger] r@[k]).bit_index() == k,
            decreases N as int - i,
        {
            r.push(ShiftRegisterPin::new(i));
            i = i + 1;
        }
        r
    }

    /// Consumes the driver and returns the clock, latch, and data pins,
    /// exactly as held, with no further write to any of them.
    pub fn release(self) -> (r: (Pin1, Pin2, Pin3))
        ensures
            r == self.pins(),
            r.0.writes() == self.clock_writes(),
            r.1.writes() == self.latch_writes(),
            r.2.writes() == self.data_writes(),
    {
        let ShiftRegister { clock, latch, data, output_state: _ } = self;
        (clock, latch, data)
    }
}

} // verus!
