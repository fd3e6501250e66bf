//! Exercises the shift register driver against recording fake pins.

use shift_register_driver::pin::{FakePin, OutputPin, PinFault};
use shift_register_driver::sipo::{SRError, ShiftRegister};

fn fresh<const N: usize>() -> ShiftRegister<FakePin, FakePin, FakePin, N> {
    ShiftRegister::new(FakePin::new(), FakePin::new(), FakePin::new())
}

fn highs(log: &[bool]) -> usize {
    log.iter().filter(|level| **level).count()
}

#[test]
fn new_register_commands_all_bits_low_without_io() {
    let reg = fresh::<4>();
    assert_eq!(reg.outputs(), vec![false, false, false, false]);
    let (clock, latch, data) = reg.release();
    assert!(clock.log().is_empty());
    assert!(latch.log().is_empty());
    assert!(data.log().is_empty());
}

#[test]
fn decompose_yields_all_indices_in_order() {
    let reg = fresh::<8>();
    let pins = reg.decompose();
    assert_eq!(pins.len(), 8);
    for (i, pin) in pins.iter().enumerate() {
        assert_eq!(pin.index(), i);
    }
}

#[test]
fn decompose_of_zero_width_register_is_empty() {
    let reg = fresh::<0>();
    let pins = reg.decompose();
    assert!(pins.is_empty());
    let (clock, latch, data) = reg.release();
    assert!(clock.log().is_empty());
    assert!(latch.log().is_empty());
    assert!(data.log().is_empty());
}

#[test]
fn release_returns_original_pins_with_no_extra_activity() {
    let mut reg = fresh::<3>();
    assert!(reg.update(1, true).is_ok());
    let (clock, latch, data) = reg.release();
    // One update of a 3-bit register: three full clock pulses, one latch
    // pulse, the frame [state[2], state[1], state[0]] on the data line.
    assert_eq!(clock.log(), &vec![true, false, true, false, true, false]);
    assert_eq!(latch.log(), &vec![false, true]);
    assert_eq!(data.log(), &vec![false, true, false]);
}

#[test]
fn set_high_then_set_low_pulse_counts() {
    let mut reg = fresh::<4>();
    let pins = reg.decompose();
    assert!(pins[2].set_high(&mut reg).is_ok());
    assert!(pins[2].set_low(&mut reg).is_ok());
    assert_eq!(reg.outputs()[2], false);
    let (clock, latch, _data) = reg.release();
    // N clock pulses per update, 2 * N in all; one latch pulse per update.
    assert_eq!(clock.log().len(), 16);
    assert_eq!(highs(clock.log()), 8);
    assert_eq!(latch.log(), &vec![false, true, false, true]);
    assert_eq!(highs(latch.log()), 2);
}

#[test]
fn shift_out_is_msb_first() {
    let mut reg = fresh::<8>();
    let pins = reg.decompose();
    assert!(pins[7].set_high(&mut reg).is_ok());
    assert!(pins[3].set_high(&mut reg).is_ok());
    assert!(pins[0].set_high(&mut reg).is_ok());
    let (_clock, _latch, data) = reg.release();
    // Bits [7,6,5,4,3,2,1,0] = [1,0,0,0,1,0,0,1] leave the data line highest
    // index first during the last update.
    let log = data.log();
    assert_eq!(log.len(), 24);
    let last_frame = &log[16..24];
    assert_eq!(
        last_frame,
        &[true, false, false, false, true, false, false, true]
    );
    // The two earlier frames show the state commanded so far.
    assert_eq!(
        &log[0..8],
        &[true, false, false, false, false, false, false, false]
    );
    assert_eq!(
        &log[8..16],
        &[true, false, false, false, true, false, false, false]
    );
}

#[test]
fn repeating_an_update_repeats_the_full_sequence() {
    let mut reg = fresh::<4>();
    assert!(reg.update(1, true).is_ok());
    assert!(reg.update(1, true).is_ok());
    let (clock, latch, data) = reg.release();
    // No deduplication: two observably identical full shift-outs.
    let frame = [false, false, true, false];
    assert_eq!(&data.log()[0..4], &frame);
    assert_eq!(&data.log()[4..8], &frame);
    assert_eq!(data.log().len(), 8);
    let train = [true, false, true, false, true, false, true, false];
    assert_eq!(&clock.log()[0..8], &train);
    assert_eq!(&clock.log()[8..16], &train);
    assert_eq!(latch.log(), &vec![false, true, false, true]);
}

#[test]
fn clock_fault_on_third_pulse_aborts_before_latch_high() {
    // The 3rd clock pulse begins with the clock pin's 5th write (index 4).
    let clock = FakePin::failing_at(4);
    let mut reg: ShiftRegister<FakePin, FakePin, FakePin, 8> =
        ShiftRegister::new(clock, FakePin::new(), FakePin::new());
    let result = reg.update(0, true);
    assert!(matches!(result, Err(SRError::ClockPinError(PinFault))));
    let (clock, latch, data) = reg.release();
    // Two full pulses happened, the third never rose.
    assert_eq!(clock.log(), &vec![true, false, true, false]);
    // Three bits reached the data line before the failing pulse.
    assert_eq!(data.log(), &vec![false, false, false]);
    // The latch went low and was never driven high again.
    assert_eq!(latch.log(), &vec![false]);
}

#[test]
fn latch_fault_at_start_leaves_all_lines_untouched() {
    let latch = FakePin::failing_at(0);
    let mut reg: ShiftRegister<FakePin, FakePin, FakePin, 4> =
        ShiftRegister::new(FakePin::new(), latch, FakePin::new());
    let result = reg.update(2, true);
    assert!(matches!(result, Err(SRError::LatchPinError(PinFault))));
    // The in-memory state is optimistic: it keeps the commanded value.
    assert_eq!(reg.outputs(), vec![false, false, true, false]);
    let (clock, latch, data) = reg.release();
    assert!(clock.log().is_empty());
    assert!(latch.log().is_empty());
    assert!(data.log().is_empty());
}

#[test]
fn latch_fault_at_end_leaves_register_unlatched() {
    let latch = FakePin::failing_at(1);
    let mut reg: ShiftRegister<FakePin, FakePin, FakePin, 2> =
        ShiftRegister::new(FakePin::new(), latch, FakePin::new());
    let result = reg.update(0, true);
    assert!(matches!(result, Err(SRError::LatchPinError(PinFault))));
    let (clock, latch, data) = reg.release();
    // The whole frame was shifted out, but the final latch-high failed.
    assert_eq!(clock.log(), &vec![true, false, true, false]);
    assert_eq!(data.log(), &vec![false, true]);
    assert_eq!(latch.log(), &vec![false]);
}

#[test]
fn data_fault_mid_shift_is_tagged_and_aborts() {
    let data = FakePin::failing_at(2);
    let mut reg: ShiftRegister<FakePin, FakePin, FakePin, 4> =
        ShiftRegister::new(FakePin::new(), FakePin::new(), data);
    let result = reg.update(0, true);
    assert!(matches!(result, Err(SRError::DataPinError(PinFault))));
    let (clock, latch, data) = reg.release();
    // Two bits went out with their pulses; the third data write failed.
    assert_eq!(data.log(), &vec![false, false]);
    assert_eq!(clock.log(), &vec![true, false, true, false]);
    assert_eq!(latch.log(), &vec![false]);
}

#[test]
fn failed_bit_is_reshifted_by_the_next_update() {
    // A failed update keeps the commanded value in memory, so the next
    // update for a different index still shifts the earlier value out.
    let latch = FakePin::failing_at(0);
    let mut reg: ShiftRegister<FakePin, FakePin, FakePin, 2> =
        ShiftRegister::new(FakePin::new(), latch, FakePin::new());
    assert!(reg.update(1, true).is_err());
    assert!(reg.update(0, true).is_ok());
    let (_clock, latch, data) = reg.release();
    // The second update shifts [state[1], state[0]] = [true, true].
    assert_eq!(data.log(), &vec![true, true]);
    assert_eq!(latch.log(), &vec![false, true]);
}

#[test]
fn wide_register_shifts_every_bit() {
    let mut reg = fresh::<128>();
    assert!(reg.update(0, true).is_ok());
    let (clock, latch, data) = reg.release();
    assert_eq!(clock.log().len(), 256);
    assert_eq!(highs(clock.log()), 128);
    assert_eq!(data.log().len(), 128);
    // Index 0 is shifted out last.
    assert_eq!(data.log()[127], true);
    assert_eq!(highs(data.log()), 1);
    assert_eq!(latch.log(), &vec![false, true]);
}

#[test]
fn fake_pin_records_levels_and_fires_its_fault() {
    let mut pin = FakePin::failing_at(2);
    assert!(pin.set_high().is_ok());
    assert!(pin.set_low().is_ok());
    assert_eq!(pin.set_high(), Err(PinFault));
    // A failed write records nothing and disarms the fault.
    assert!(pin.set_low().is_ok());
    assert_eq!(pin.log(), &vec![true, false, false]);
}
