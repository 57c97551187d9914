use xfs_mgr::errors::{
    WFS_ERR_INVALID_DATA, WFS_ERR_INVALID_HWND, WFS_ERR_INVALID_POINTER, WFS_ERR_INVALID_TIMER,
    WFS_SUCCESS,
};
use xfs_mgr::outptr::OutPtr;
use xfs_mgr::timer::{TimerEntry, TimerTable};

#[test]
fn supp_test_timer() {
    let mut timers = TimerTable::new();
    let mut timer_id = OutPtr::new();
    let result = timers.set_timer(1, 100, 100, &mut timer_id);
    assert_eq!(result, WFS_SUCCESS);
    assert_ne!(timer_id.value, 0);

    let result = timers.kill_timer(timer_id.value as u16);
    assert_eq!(result, WFS_SUCCESS);

    let result = timers.kill_timer(timer_id.value as u16);
    assert_eq!(result, WFS_ERR_INVALID_TIMER);
}

#[test]
fn test_timer_tick() {
    let mut timers = TimerTable::new();
    let value: u64 = 100;
    let mut timer_id = OutPtr::new();
    let result = timers.set_timer(1, value, 1, &mut timer_id);
    assert_eq!(result, WFS_SUCCESS);
    assert_ne!(timer_id.value, 0);

    let fired = timers.fire_timer(timer_id.value as u16);
    assert_eq!(fired, Some(TimerEntry { hwnd: 1, context: value }));

    let result = timers.kill_timer(timer_id.value as u16);
    assert_eq!(result, WFS_ERR_INVALID_TIMER, "Timer must be automatically deallocated");
}

#[test]
fn test_timer_api() {
    let mut timers = TimerTable::new();
    let context: u64 = 94324234;
    let mut timer_id = OutPtr::new();
    assert_eq!(timers.set_timer(1, context, 100, &mut timer_id), WFS_SUCCESS);
    assert_ne!(timer_id.value, 0);

    assert_eq!(timers.kill_timer(timer_id.value as u16), WFS_SUCCESS);
    assert_eq!(timers.kill_timer(timer_id.value as u16), WFS_ERR_INVALID_TIMER);
}

#[test]
fn timer_fire_delivers_context_exactly_once() {
    let mut timers = TimerTable::new();
    let mut timer_id = OutPtr::new();
    assert_eq!(timers.set_timer(5, 42, 1, &mut timer_id), WFS_SUCCESS);
    assert_ne!(timer_id.value, 0);

    let fired = timers.fire_timer(timer_id.value as u16);
    assert_eq!(fired, Some(TimerEntry { hwnd: 5, context: 42 }));
    assert_eq!(timers.fire_timer(timer_id.value as u16), None);
    assert_eq!(timers.kill_timer(timer_id.value as u16), WFS_ERR_INVALID_TIMER);
}

#[test]
fn timer_slot_not_reclaimed_while_claimed() {
    let mut timers = TimerTable::new();
    let mut first = OutPtr::new();
    let mut second = OutPtr::new();
    assert_eq!(timers.set_timer(1, 10, 50, &mut first), WFS_SUCCESS);
    assert_eq!(timers.set_timer(1, 20, 50, &mut second), WFS_SUCCESS);
    assert_ne!(first.value, second.value);

    assert_eq!(timers.kill_timer(first.value as u16), WFS_SUCCESS);
    let mut third = OutPtr::new();
    assert_eq!(timers.set_timer(1, 30, 50, &mut third), WFS_SUCCESS);
    assert_eq!(third.value, first.value);
}

#[test]
fn timer_argument_checks() {
    let mut timers = TimerTable::new();
    let mut timer_id = OutPtr::new();
    assert_eq!(timers.set_timer(0, 1, 100, &mut timer_id), WFS_ERR_INVALID_HWND);
    assert_eq!(timers.set_timer(1, 1, 100, &mut OutPtr::null()), WFS_ERR_INVALID_POINTER);
    assert_eq!(timers.set_timer(1, 1, 0, &mut timer_id), WFS_ERR_INVALID_DATA);
    assert_eq!(timers.kill_timer(0), WFS_ERR_INVALID_TIMER);
    assert_eq!(timers.kill_timer(9999), WFS_ERR_INVALID_TIMER);
}
