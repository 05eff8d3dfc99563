use cushy::callbacks::HandleSet;
use cushy::checkbox::{CheckboxState, CheckboxToBoolError};
use cushy::debounce::{schedules_timer, DebounceMode, DelayState};
use cushy::error::{DeadlockError, ReplaceError, TryCompareSwapError};
use cushy::generation::{Generation, GenerationalValue};
use cushy::handles::{check_not_holder, WaitStep};
use cushy::invalidation::{InvalidationBatchGuard, InvalidationState};
use cushy::linked::{apply_conversion, parse_usize, seed_linked, usize_text};
use cushy::lock::{LockState, LockStep};
use cushy::mutable::Mutable;
use cushy::notify::{Begin, Notifier};
use cushy::state::State;
use cushy::theme::ThemeMode;
use cushy::validation::{
    all_valid, apply_change, checked_phase, CountChange, Validation, ValidationTracker, ValidationsState,
};

#[test]
fn generation_starts_at_zero_and_wraps() {
    assert_eq!(Generation::initial(), Generation(0));
    assert_eq!(Generation::default(), Generation(0));
    assert_eq!(Generation(5).next(), Generation(6));
    assert_eq!(Generation(usize::MAX).next(), Generation(0));
}

#[test]
fn generational_value_maps_keep_generation() {
    let v = GenerationalValue { value: 21, generation: Generation(3) };
    let doubled = v.map_ref(|x| x * 2);
    assert_eq!(doubled.value, 42);
    assert_eq!(doubled.generation(), Generation(3));
    let text = v.map(|x| format!("{x}"));
    assert_eq!(text.value, "21");
    assert_eq!(text.generation(), Generation(3));
}

#[test]
fn mutable_records_only_mutable_access() {
    let mut value = 1;
    let mut mutated = true;
    {
        let m = Mutable::new(&mut value, &mut mutated);
        assert_eq!(*m.value(), 1);
    }
    assert!(!mutated);
    {
        let mut m = Mutable::new(&mut value, &mut mutated);
        *m.value_mut() = 7;
    }
    assert!(mutated);
    assert_eq!(value, 7);
    {
        let mut m = Mutable::untracked(&mut value);
        *m.value_mut() = 8;
    }
    assert_eq!(value, 8);
}

#[test]
fn new_value_reads_back_at_generation_zero() {
    for v in [0_u64, 1, 17, u64::MAX] {
        let s = State::new(v);
        assert_eq!(s.get(), v);
        assert_eq!(s.generation(), Generation(0));
        assert_eq!(s.readers(), 0);
    }
}

#[test]
fn map_mut_advances_generation_only_when_mutated() {
    let mut s = State::new(10);
    let (read, changed) = s.map_mut(|m| *m.value());
    assert_eq!(read, 10);
    assert!(!changed);
    assert_eq!(s.generation(), Generation(0));
    let (_, changed) = s.map_mut(|mut m| *m.value_mut() += 1);
    assert!(changed);
    assert_eq!(s.get(), 11);
    assert_eq!(s.generation(), Generation(1));
}

#[test]
fn replace_with_equal_value_is_no_change() {
    let mut s = State::new(3);
    assert_eq!(s.try_replace(3), Err(ReplaceError::NoChange(3)));
    assert_eq!(s.generation(), Generation(0));
    assert_eq!(s.replace(3), None);
    assert_eq!(s.try_replace(4), Ok(3));
    assert_eq!(s.generation(), Generation(1));
    s.set(4);
    assert_eq!(s.generation(), Generation(1));
    s.set(5);
    assert_eq!(s.get(), 5);
    assert_eq!(s.generation(), Generation(2));
}

#[test]
fn compare_swap_mismatch_changes_nothing() {
    let mut s = State::new(String::from("a"));
    assert_eq!(
        s.try_compare_swap(&String::from("b"), String::from("c")),
        Err(TryCompareSwapError::CurrentValueMismatch(String::from("a")))
    );
    assert_eq!(s.generation(), Generation(0));
    assert_eq!(s.try_compare_swap(&String::from("a"), String::from("c")), Ok(String::from("a")));
    assert_eq!(s.get(), "c");
    assert_eq!(s.generation(), Generation(1));
}

#[test]
fn take_and_toggle_advance_generation() {
    let mut s = State::new(9_u32);
    assert_eq!(s.take(), 9);
    assert_eq!(s.get(), 0);
    assert_eq!(s.generation(), Generation(1));
    let mut flag = State::new(false);
    assert!(flag.toggle());
    assert!(!flag.toggle());
    assert_eq!(flag.generation(), Generation(2));
}

#[test]
fn take_if_not_default_leaves_default_alone() {
    let mut s = State::new(0_u32);
    assert_eq!(s.take_if_not_default(), None);
    assert_eq!(s.generation(), Generation(0));
    s.set(5);
    assert_eq!(s.take_if_not_default(), Some(5));
    assert_eq!(s.get(), 0);
    assert_eq!(s.generation(), Generation(2));
}

#[test]
fn deadlock_maps_to_operation_errors() {
    assert_eq!(ReplaceError::<u8>::from_deadlock(DeadlockError), ReplaceError::Deadlock);
    assert_eq!(
        TryCompareSwapError::<u8>::from_deadlock(DeadlockError),
        TryCompareSwapError::Deadlock
    );
}

#[test]
fn relocking_on_the_holding_thread_is_a_deadlock() {
    let mut lock = LockState::new();
    assert_eq!(lock.after_try_lock(1, true), LockStep::Acquired);
    assert_eq!(lock.holder, Some(1));
    assert_eq!(lock.after_try_lock(1, false), LockStep::Deadlock);
    assert_eq!(LockState::step_result(LockStep::Deadlock), Err(DeadlockError));
    assert_eq!(lock.after_try_lock(2, false), LockStep::Wait);
    assert_eq!(lock.holder, Some(1));
    lock.release();
    assert_eq!(lock.after_try_lock(2, false), LockStep::Retry);
    assert_eq!(lock.after_try_lock(2, true), LockStep::Acquired);
    assert_eq!(LockState::step_result(LockStep::Acquired), Ok(true));
    assert_eq!(LockState::step_result(LockStep::Wait), Ok(false));
    assert_eq!(check_not_holder(Some(2), 2), Err(DeadlockError));
    assert_eq!(check_not_holder(Some(2), 3), Ok(()));
    assert_eq!(check_not_holder(None, 3), Ok(()));
}

#[test]
fn two_writers_take_turns() {
    // Two threads write to one value; the lock lets one in at a time and the
    // value ends as one of the writes.
    let mut lock = LockState::new();
    let mut s = State::new(0_u64);
    assert_eq!(lock.after_try_lock(1, true), LockStep::Acquired);
    assert_eq!(lock.after_try_lock(2, false), LockStep::Wait);
    s.set(1);
    lock.release();
    assert_eq!(lock.after_try_lock(2, true), LockStep::Acquired);
    s.set(2);
    lock.release();
    assert!(s.get() == 1 || s.get() == 2);
    assert_eq!(s.get(), 2);
    assert_eq!(s.generation(), Generation(2));
}

#[test]
fn notifier_is_single_flight() {
    let mut n = Notifier::new(0);
    assert_eq!(n.begin(1), Begin::Execute);
    assert_eq!(n.begin(1), Begin::AlreadyExecuting);
    assert_eq!(n.begin(2), Begin::Wait);
    assert!(n.start_run(5, 6));
    assert_eq!(n.invoked_at, 6);
    n.finish(1);
    assert_eq!(n.executing, None);
    // A change made at 4 was observed by the run that started at 6.
    assert_eq!(n.begin(2), Begin::Execute);
    assert!(!n.start_run(4, 7));
    assert_eq!(n.invoked_at, 6);
    n.finish(2);
}

#[test]
fn invalidation_targets_are_listed_once() {
    let mut state = InvalidationState::new();
    state.redraw_when_changed(1);
    state.redraw_when_changed(1);
    state.invalidate_when_changed(1, 9);
    state.invalidate_when_changed(1, 9);
    let mut other = InvalidationState::new();
    other.redraw_when_changed(2);
    other.redraw_when_changed(1);
    state.extend(&mut other);
    let (widgets, windows) = other.invoke();
    assert!(widgets.is_empty() && windows.is_empty());
    let (widgets, mut windows) = state.invoke();
    windows.sort();
    assert_eq!(widgets, vec![(1, 9)]);
    assert_eq!(windows, vec![1, 2]);
    let (widgets, windows) = state.invoke();
    assert!(widgets.is_empty() && windows.is_empty());
}

#[test]
fn nested_batches_flush_once() {
    let mut batch = InvalidationBatchGuard::new();
    let mut pending = InvalidationState::new();
    pending.redraw_when_changed(3);
    assert!(!batch.take_invalidations(&mut pending));
    batch.enter();
    batch.enter();
    assert!(batch.take_invalidations(&mut pending));
    let mut more = InvalidationState::new();
    more.invalidate_when_changed(4, 5);
    assert!(batch.take_invalidations(&mut more));
    assert!(batch.invoke().is_none());
    assert!(batch.leave().is_none());
    let flushed = batch.leave().expect("outermost batch flushes");
    assert_eq!(flushed, (vec![(4, 5)], vec![3]));
    assert_eq!(batch.nesting, 0);
}

#[test]
fn validation_message_and_merge() {
    let invalid = Validation::Invalid(String::from("too short"));
    assert_eq!(invalid.message("hint"), "too short");
    assert_eq!(Validation::Valid.message("hint"), "hint");
    assert_eq!(Validation::Unchecked.message("hint"), "hint");
    assert!(invalid.is_error());
    assert!(!Validation::Valid.is_error());
    assert_eq!(Validation::Valid.and(&Validation::Valid), Validation::Valid);
    assert_eq!(Validation::Valid.and(&invalid), invalid);
    assert_eq!(invalid.and(&Validation::Unchecked), invalid);
    assert_eq!(Validation::Unchecked.and(&Validation::Valid), Validation::Unchecked);
    assert_eq!(Validation::default(), Validation::Unchecked);
}

#[test]
fn tracked_checks_count_failures() {
    let mut invalid = apply_change(0, CountChange::Increment);
    let mut tracker = ValidationTracker::new(Generation(0));
    assert!(tracker.invalid);
    assert_eq!(invalid, 1);
    // Unchanged input in the initial phase shows nothing, but counts.
    let (shown, change) =
        tracker.evaluate(ValidationsState::Initial, Some(String::from("empty")), Generation(0));
    assert_eq!(shown, Validation::Unchecked);
    assert_eq!(change, CountChange::Unchanged);
    assert!(!all_valid(invalid));
    assert_eq!(checked_phase(ValidationsState::Initial), ValidationsState::Checked);
    assert_eq!(checked_phase(ValidationsState::Disabled), ValidationsState::Disabled);
    let (shown, change) =
        tracker.evaluate(ValidationsState::Checked, Some(String::from("empty")), Generation(0));
    assert_eq!(shown, Validation::Invalid(String::from("empty")));
    assert_eq!(change, CountChange::Unchanged);
    let (shown, change) = tracker.evaluate(ValidationsState::Checked, None, Generation(1));
    assert_eq!(shown, Validation::Valid);
    assert_eq!(change, CountChange::Decrement);
    invalid = apply_change(invalid, change);
    assert!(all_valid(invalid));
    // Resetting clears what is shown and restarts the initial phase.
    let (shown, change) =
        tracker.evaluate(ValidationsState::Resetting, Some(String::from("x")), Generation(2));
    assert_eq!(shown, Validation::Unchecked);
    assert_eq!(change, CountChange::Increment);
    assert_eq!(tracker.initial_generation, Generation(2));
    let (shown, change) =
        tracker.evaluate(ValidationsState::Initial, Some(String::from("x")), Generation(3));
    assert_eq!(shown, Validation::Invalid(String::from("x")));
    assert_eq!(change, CountChange::Unchanged);
}

#[test]
fn conditional_check_is_ignored_while_off() {
    let mut invalid = 1;
    let mut tracker = ValidationTracker::new(Generation(0));
    let (shown, change) = tracker.evaluate_when(
        false,
        false,
        ValidationsState::Checked,
        Some(String::from("bad")),
        Generation(1),
    );
    assert_eq!(shown, Validation::Unchecked);
    assert_eq!(change, CountChange::Decrement);
    invalid = apply_change(invalid, change);
    assert!(all_valid(invalid));
    let (shown, change) = tracker.evaluate_when(
        false,
        true,
        ValidationsState::Checked,
        Some(String::from("bad")),
        Generation(1),
    );
    assert_eq!(shown, Validation::Invalid(String::from("bad")));
    assert_eq!(change, CountChange::Increment);
}

#[test]
fn conditional_check_while_on_follows_the_phase() {
    let mut tracker = ValidationTracker::new(Generation(4));
    let bad = || Some(String::from("bad"));
    let (shown, _) = tracker.evaluate_when(true, false, ValidationsState::Initial, bad(), Generation(4));
    assert_eq!(shown, Validation::Unchecked);
    let (shown, _) = tracker.evaluate_when(true, false, ValidationsState::Resetting, bad(), Generation(6));
    assert_eq!(shown, Validation::Unchecked);
    assert_eq!(tracker.initial_generation, Generation(6));
    let (shown, _) = tracker.evaluate_when(true, false, ValidationsState::Initial, bad(), Generation(6));
    assert_eq!(shown, Validation::Unchecked);
    let (shown, _) = tracker.evaluate_when(true, false, ValidationsState::Initial, bad(), Generation(7));
    assert_eq!(shown, Validation::Invalid(String::from("bad")));
    assert_eq!(tracker.initial_generation, Generation(6));
}

#[test]
fn debounce_schedules() {
    assert!(schedules_timer(true, DebounceMode::Every, DelayState::NoTimer));
    assert!(!schedules_timer(true, DebounceMode::Every, DelayState::Running));
    assert!(schedules_timer(true, DebounceMode::Every, DelayState::Complete));
    assert!(schedules_timer(true, DebounceMode::TrailingDelay, DelayState::Running));
    assert!(!schedules_timer(false, DebounceMode::TrailingDelay, DelayState::NoTimer));
}

#[test]
fn parse_usize_cases() {
    assert_eq!(parse_usize("0"), Some(0));
    assert_eq!(parse_usize("+42"), Some(42));
    assert_eq!(parse_usize("007"), Some(7));
    assert_eq!(parse_usize(""), None);
    assert_eq!(parse_usize("+"), None);
    assert_eq!(parse_usize("-1"), None);
    assert_eq!(parse_usize("12a"), None);
    assert_eq!(parse_usize(" 1"), None);
    assert_eq!(parse_usize(&usize::MAX.to_string()), Some(usize::MAX));
    assert_eq!(parse_usize(&format!("{}0", usize::MAX)), None);
    for n in [0_usize, 9, 10, 1234, usize::MAX] {
        assert_eq!(parse_usize(&n.to_string()), n.to_string().parse().ok());
    }
}

#[test]
fn usize_text_is_decimal() {
    assert_eq!(usize_text(0), "0");
    assert_eq!(usize_text(1234), "1234");
    assert_eq!(usize_text(usize::MAX), usize::MAX.to_string());
}

#[test]
fn conversions_that_decline_change_nothing() {
    let mut target = State::new(1_u8);
    assert!(!apply_conversion(&mut target, None));
    assert!(!apply_conversion(&mut target, Some(1)));
    assert_eq!(target.generation(), Generation(0));
    assert!(apply_conversion(&mut target, Some(2)));
    assert_eq!(target.get(), 2);
    let seeded = seed_linked(Some(CheckboxState::from_bool(true)));
    assert_eq!(seeded.get(), CheckboxState::Checked);
}

#[test]
fn reader_wait_steps() {
    let mut s = State::new(1);
    s.add_reader();
    let seen = s.generation();
    assert_eq!(s.wait_step(seen, 2), WaitStep::Wait);
    assert!(!s.has_updated(seen));
    s.set(2);
    assert!(s.has_updated(seen));
    assert_eq!(s.wait_step(seen, 2), WaitStep::Updated);
    assert_eq!(s.wait_step(s.generation(), 1), WaitStep::Disconnected);
    assert!(s.cleanup());
    assert!(!s.cleanup());
    assert_eq!(s.wait_step(s.generation(), 5), WaitStep::Disconnected);
    s.remove_reader();
    assert_eq!(s.readers(), 0);
}

#[test]
fn handle_sets_combine() {
    let mut set = HandleSet::new();
    assert!(set.is_empty());
    set.add_assign(HandleSet::single(1));
    set.add_assign(HandleSet::single(2));
    assert_eq!(set.into_vec(), vec![2, 1]);
    let mut set = HandleSet::from_vec(vec![1, 2]);
    set.add_assign(HandleSet::from_vec(vec![3]));
    set.add_assign(HandleSet::single(4));
    set.add_assign(HandleSet::new());
    assert_eq!(set.into_vec(), vec![1, 2, 3, 4]);
    let mut set = HandleSet::single(0);
    set.add_assign(HandleSet::from_vec(vec![5, 6]));
    assert_eq!(set.into_vec(), vec![5, 6, 0]);
}

#[test]
fn theme_mode_inverts() {
    assert_eq!(ThemeMode::Light.inverse(), ThemeMode::Dark);
    assert_eq!(ThemeMode::Dark.inverse(), ThemeMode::Light);
    let mut mode = ThemeMode::default();
    assert_eq!(mode, ThemeMode::Dark);
    mode.toggle();
    assert_eq!(mode, ThemeMode::Light);
}

#[test]
fn checkbox_state_conversions() {
    assert_eq!(CheckboxState::from_bool(true), CheckboxState::Checked);
    assert_eq!(CheckboxState::from_option(None), CheckboxState::Indeterminant);
    assert_eq!(CheckboxState::Unchecked.to_option(), Some(false));
    assert_eq!(CheckboxState::Indeterminant.to_bool(), Err(CheckboxToBoolError));
    assert_eq!(CheckboxState::Checked.to_bool(), Ok(true));
    assert_eq!(CheckboxState::Indeterminant.toggled(), CheckboxState::Checked);
    assert_eq!(CheckboxState::Checked.toggled(), CheckboxState::Unchecked);
}
