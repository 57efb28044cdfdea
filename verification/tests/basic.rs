use space_boss_battles::utils::{milliseconds_between, FpsCounter, GameLoopTimer, TimeManager, TimeMilliseconds, Timer, TARGET_FPS};

#[test]
fn timer_checks_elapsed_time() {
    let mut timer = Timer::new();
    assert!(!timer.check(&TimeMilliseconds(999), 1000));
    assert!(timer.check(&TimeMilliseconds(1000), 1000));
    assert_eq!(timer.milliseconds(&TimeMilliseconds(1500)), 500);
}

#[test]
fn timer_from_time_counts_from_that_time() {
    let mut timer = Timer::new_from_time(&TimeMilliseconds(200));
    assert_eq!(timer.milliseconds(&TimeMilliseconds(250)), 50);
    assert!(!timer.check(&TimeMilliseconds(499), 300));
    assert!(timer.check(&TimeMilliseconds(500), 300));
    // Firing reset the timer to 500.
    assert_eq!(timer.milliseconds(&TimeMilliseconds(600)), 100);
    timer.reset(&TimeMilliseconds(700));
    assert_eq!(timer.milliseconds(&TimeMilliseconds(700)), 0);
}

#[test]
fn timer_with_zero_interval_always_fires() {
    let mut timer = Timer::new();
    assert!(timer.check(&TimeMilliseconds(0), 0));
    assert!(timer.check(&TimeMilliseconds(0), 0));
}

#[test]
fn fps_counter_counts_frames_of_one_second() {
    let mut counter = FpsCounter::new();
    assert_eq!(counter.fps(), 0);
    for _ in 0..TARGET_FPS {
        counter.frame();
    }
    assert!(!counter.update(&TimeMilliseconds(999)));
    assert_eq!(counter.fps(), 0);
    assert!(counter.update(&TimeMilliseconds(1000)));
    assert_eq!(counter.fps(), 60);
    // Counting starts again from zero.
    counter.frame();
    assert!(counter.update(&TimeMilliseconds(2000)));
    assert_eq!(counter.fps(), 1);
}

#[test]
fn game_loop_timer_updates_logic_at_interval() {
    let mut timer = GameLoopTimer::new(16);
    assert!(!timer.update_logic());
    timer.update(&TimeMilliseconds(15));
    assert!(!timer.update_logic());
    timer.update(&TimeMilliseconds(16));
    assert!(timer.update_logic());
    timer.update(&TimeMilliseconds(20));
    assert!(!timer.update_logic());
    timer.update(&TimeMilliseconds(32));
    assert!(timer.update_logic());
}

#[test]
fn game_time_stays_while_logic_is_stopped() {
    let mut manager = TimeManager::new();
    assert_eq!(manager.current_time().0, 0);
    assert_eq!(manager.game_time_manager().time().0, 0);
    manager.update_time(false);
    assert_eq!(manager.game_time_manager().time().0, 0);
    // The first running update only starts the run.
    manager.update_time(true);
    assert_eq!(manager.game_time_manager().time().0, 0);
    manager.update_time(false);
    let paused = manager.game_time_manager().time().0;
    manager.update_time(false);
    assert_eq!(manager.game_time_manager().time().0, paused);
}

#[test]
fn time_manager_counts_milliseconds_from_clock_readings() {
    let mut manager = TimeManager::new_at(5_000_000);
    manager.update_at(7_500_000, false);
    assert_eq!(manager.current_time().0, 2);
    // The first running update starts the run at 10 ms.
    manager.update_at(15_000_000, true);
    assert_eq!(manager.current_time().0, 10);
    assert_eq!(manager.game_time_manager().time().0, 0);
    manager.update_at(45_000_000, true);
    assert_eq!(manager.game_time_manager().time().0, 30);
    // Pausing keeps 30 ms; the next run continues from there.
    manager.update_at(60_000_000, false);
    assert_eq!(manager.game_time_manager().time().0, 30);
    manager.update_at(100_000_000, true);
    manager.update_at(104_000_000, true);
    assert_eq!(manager.game_time_manager().time().0, 34);
    assert_eq!(milliseconds_between(10, 5), 0);
}
