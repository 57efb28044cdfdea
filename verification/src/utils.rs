//! Miscellaneous utilities: timers, fps counting and game time.

use vstd::prelude::*;

verus! {

/// Calls `time::precise_time_ns`, which reads the high-resolution clock in
/// nanoseconds. Nothing is stated of the result: it depends on the moment of
/// the call.
#[verifier::external_body]
fn precise_time_ns() -> u64 {
    time::precise_time_ns()
}

/// Whole milliseconds from clock reading `earlier` to clock reading `later`,
/// both in nanoseconds, kept in a `u32` as the game keeps its times (the
/// higher bits are dropped). A reading before `earlier` gives no time.
pub open spec fn elapsed_milliseconds(earlier: u64, later: u64) -> u32 {
    if earlier <= later {
        ((later - earlier) / 1_000_000) as u32
    } else {
        0
    }
}

/// Whole milliseconds from clock reading `earlier` to clock reading `later`;
/// see `elapsed_milliseconds`.
pub fn milliseconds_between(earlier: u64, later: u64) -> (milliseconds: u32)
    ensures
        milliseconds == elapsed_milliseconds(earlier, later),
{
    if earlier <= later {
        ((later - earlier) / 1_000_000) as u32
    } else {
        0
    }
}

/// `a + b` wrapped around at `u32::MAX`, as `u32::wrapping_add` computes it.
pub open spec fn wrapped_sum(a: u32, b: u32) -> u32 {
    if a + b > u32::MAX {
        (a + b - 0x1_0000_0000) as u32
    } else {
        (a + b) as u32
    }
}

/// Frames per second that the game logic is designed for.
pub const TARGET_FPS: u32 = 60;

/// Wrapper type for time as milliseconds.
#[derive(Clone, Copy)]
pub struct TimeMilliseconds(pub u32);

impl TimeMilliseconds {
    /// Private version of `Clone` trait's clone method.
    pub(crate) fn clone(&self) -> (res: TimeMilliseconds)
        ensures
            res.0 == self.0,
        no_unwind
    {
        TimeMilliseconds(self.0)
    }
}

/// Check time between updates.
#[derive(Clone, Copy)]
pub struct Timer {
    update_time: TimeMilliseconds,
}

impl Timer {
    /// Time of the last reset.
    pub closed spec fn reset_time(&self) -> u32 {
        self.update_time.0
    }

    /// Create new `Timer` initialized to zero milliseconds.
    pub fn new() -> (timer: Timer)
        ensures
            timer.reset_time() == 0,
    {
        Timer { update_time: TimeMilliseconds(0) }
    }

    /// Create `Timer` from argument `time`.
    pub fn new_from_time(time: &TimeMilliseconds) -> (timer: Timer)
        ensures
            timer.reset_time() == time.0,
    {
        Timer { update_time: time.clone() }
    }

    /// Resets the timer if time between timer and argument `current_time` is equal or greater than
    /// argument `timer_reset_milliseconds`.
    pub fn check(&mut self, current_time: &TimeMilliseconds, timer_reset_milliseconds: u32) -> (res: bool)
        requires
            old(self).reset_time() <= current_time.0,
        ensures
            res == (current_time.0 - old(self).reset_time() >= timer_reset_milliseconds),
            final(self).reset_time() == if res { current_time.0 } else { old(self).reset_time() },
        no_unwind
    {
        if self.milliseconds(current_time) >= timer_reset_milliseconds {
            self.reset(current_time);
            return true;
        }
        false
    }

    /// How much time has elapsed since last timer reset.
    pub fn milliseconds(&self, current_time: &TimeMilliseconds) -> (res: u32)
        requires
            self.reset_time() <= current_time.0,
        ensures
            res == current_time.0 - self.reset_time(),
        no_unwind
    {
        current_time.0 - self.update_time.0
    }

    /// Resets timer to time in argument `current_time`.
    pub fn reset(&mut self, current_time: &TimeMilliseconds)
        ensures
            final(self).reset_time() == current_time.0,
        no_unwind
    {
        self.update_time = current_time.clone();
    }
}

/// Fps counter.
pub struct FpsCounter {
    frame_count: u32,
    update_time: Timer,
    fps: u32,
}

impl FpsCounter {
    /// Frames counted since the last fps update.
    pub closed spec fn frame_count(&self) -> u32 {
        self.frame_count
    }

    /// Fps value of the last update.
    pub closed spec fn spec_fps(&self) -> u32 {
        self.fps
    }

    /// Time of the last fps update.
    pub closed spec fn last_update(&self) -> u32 {
        self.update_time.reset_time()
    }

    /// Create new `FpsCounter`.
    pub fn new() -> (counter: FpsCounter)
        ensures
            counter.frame_count() == 0,
            counter.spec_fps() == 0,
            counter.last_update() == 0,
    {
        FpsCounter { frame_count: 0, update_time: Timer::new(), fps: 0 }
    }

    /// Add one frame to frame count.
    pub fn frame(&mut self)
        requires
            old(self).frame_count() < u32::MAX,
        ensures
            final(self).frame_count() == old(self).frame_count() + 1,
            final(self).spec_fps() == old(self).spec_fps(),
            final(self).last_update() == old(self).last_update(),
    {
        self.frame_count += 1;
    }

    /// Update fps count if there is one second from previous update.
    ///
    /// Returns true if the update happened: the frames counted since the
    /// previous update become the fps value and counting starts again from zero.
    pub fn update(&mut self, current_time: &TimeMilliseconds) -> (updated: bool)
        requires
            old(self).last_update() <= current_time.0,
        ensures
            updated == (current_time.0 - old(self).last_update() >= 1000),
            updated ==> final(self).spec_fps() == old(self).frame_count()
                && final(self).frame_count() == 0
                && final(self).last_update() == current_time.0,
            !updated ==> *final(self) == *old(self),
    {
        if self.update_time.check(current_time, 1000) {
            self.fps = self.frame_count;
            self.frame_count = 0;
            true
        } else {
            false
        }
    }

    /// Get current fps value
    pub fn fps(&self) -> (fps: u32)
        ensures
            fps == self.spec_fps(),
    {
        self.fps
    }
}

/// Handle timing of logic updates.
pub struct GameLoopTimer {
    logic_update_time_milliseconds: u32,
    update_logic: bool,
    update_timer: Timer,
}

impl GameLoopTimer {
    /// Time between logic updates.
    pub closed spec fn interval(&self) -> u32 {
        self.logic_update_time_milliseconds
    }

    /// Value returned by `update_logic`.
    pub closed spec fn spec_update_logic(&self) -> bool {
        self.update_logic
    }

    /// Time of the last logic update.
    pub closed spec fn last_update(&self) -> u32 {
        self.update_timer.reset_time()
    }

    /// Create new `GameLoopTimer`.
    ///
    /// Argument `logic_update_time_milliseconds` is time between logic updates
    /// in milliseconds.
    pub fn new(logic_update_time_milliseconds: u32) -> (timer: GameLoopTimer)
        ensures
            timer.interval() == logic_update_time_milliseconds,
            !timer.spec_update_logic(),
            timer.last_update() == 0,
    {
        GameLoopTimer { logic_update_time_milliseconds, update_logic: false, update_timer: Timer::new() }
    }

    /// Set `update_logic` field true if time between logic updates is equal or more than field's `logic_update_time_milliseconds` value.
    pub fn update(&mut self, current_time: &TimeMilliseconds)
        requires
            old(self).last_update() <= current_time.0,
        ensures
            final(self).interval() == old(self).interval(),
            final(self).spec_update_logic() == (current_time.0 - old(self).last_update() >= old(self).interval()),
            final(self).last_update() == if final(self).spec_update_logic() { current_time.0 } else { old(self).last_update() },
    {
        let time = self.update_timer.milliseconds(current_time);
        if time >= self.logic_update_time_milliseconds {
            self.update_logic = true;
            self.update_timer.reset(current_time);
        } else {
            self.update_logic = false;
        }
    }

    /// If this is true, the logic should be updated.
    pub fn update_logic(&self) -> (res: bool)
        ensures
            res == self.spec_update_logic(),
    {
        self.update_logic
    }
}

/// Game logic specific time, so pausing the game will not have effect on game logic.
///
/// The game time advances only while the game logic is running: when the logic
/// stops, the time reached is kept, and when it runs again the time continues
/// from there.
pub struct GameTimeManager {
    current_game_time: TimeMilliseconds,
    previous_game_time: TimeMilliseconds,
    logic_update_start: Option<u64>,
}

impl GameTimeManager {
    /// Current game time.
    pub closed spec fn game_time(&self) -> u32 {
        self.current_game_time.0
    }

    /// Game time reached when the logic last stopped.
    pub closed spec fn paused_game_time(&self) -> u32 {
        self.previous_game_time.0
    }

    /// Is the logic running since an earlier update.
    pub closed spec fn running(&self) -> bool {
        self.logic_update_start is Some
    }

    /// Clock reading, in nanoseconds, at which the current run of the logic
    /// started.
    pub closed spec fn run_start(&self) -> u64 {
        self.logic_update_start->Some_0
    }

    /// Creates new `GameTimeManager`.
    fn new() -> (manager: GameTimeManager)
        ensures
            manager.game_time() == 0,
            manager.paused_game_time() == 0,
            !manager.running(),
    {
        GameTimeManager {
            current_game_time: TimeMilliseconds(0),
            previous_game_time: TimeMilliseconds(0),
            logic_update_start: None,
        }
    }

    /// Get current game time.
    pub fn time(&self) -> (time: &TimeMilliseconds)
        ensures
            time.0 == self.game_time(),
    {
        &self.current_game_time
    }

    /// Updates game time.
    ///
    /// While the logic runs, the game time is the game time of the last pause
    /// plus the milliseconds from the start of the run to `current_time`.
    fn update(&mut self, current_time: u64, game_logic_running: bool)
        ensures
            game_time_after(*old(self), *final(self), current_time, game_logic_running),
    {
        if game_logic_running {
            match self.logic_update_start {
                Some(logic_start) => {
                    let milliseconds = milliseconds_between(logic_start, current_time);
                    self.current_game_time = TimeMilliseconds(self.previous_game_time.0.wrapping_add(milliseconds));
                },
                None => {
                    self.logic_update_start = Some(current_time);
                },
            }
        } else {
            if self.logic_update_start.is_some() {
                self.previous_game_time = self.current_game_time.clone();
                self.logic_update_start = None;
            }
        }
    }
}

/// Game time `after` follows from game time `before` by an update at clock
/// reading `now` (nanoseconds): while the logic keeps running, the game time is
/// the game time of the last pause plus the milliseconds since the run
/// started; a run that starts keeps the game time and starts at `now`; when
/// the logic stops, the game time reached is kept as the paused game time.
pub open spec fn game_time_after(before: GameTimeManager, after: GameTimeManager, now: u64, running: bool) -> bool {
    &&& after.running() == running
    &&& after.paused_game_time() == if !running && before.running() {
        before.game_time()
    } else {
        before.paused_game_time()
    }
    &&& after.game_time() == if running && before.running() {
        wrapped_sum(before.paused_game_time(), elapsed_milliseconds(before.run_start(), now))
    } else {
        before.game_time()
    }
    &&& running ==> after.run_start() == if before.running() { before.run_start() } else { now }
}

/// Provides current time for game's components.
pub struct TimeManager {
    current_time: TimeMilliseconds,
    start_time: u64,
    game_time: GameTimeManager,
}

impl TimeManager {
    /// Current time in milliseconds from the creation of the `TimeManager`.
    pub closed spec fn spec_current_time(&self) -> u32 {
        self.current_time.0
    }

    /// The game time.
    pub closed spec fn spec_game_time(&self) -> GameTimeManager {
        self.game_time
    }

    /// Clock reading, in nanoseconds, at the creation of the `TimeManager`.
    pub closed spec fn start_time(&self) -> u64 {
        self.start_time
    }

    /// Create new `TimeManager`, started now.
    pub fn new() -> (manager: TimeManager)
        ensures
            manager.spec_current_time() == 0,
            manager.spec_game_time().game_time() == 0,
            manager.spec_game_time().paused_game_time() == 0,
            !manager.spec_game_time().running(),
    {
        TimeManager::new_at(precise_time_ns())
    }

    /// Create new `TimeManager` started at clock reading `start_time`
    /// (nanoseconds).
    pub fn new_at(start_time: u64) -> (manager: TimeManager)
        ensures
            manager.spec_current_time() == 0,
            manager.start_time() == start_time,
            manager.spec_game_time().game_time() == 0,
            manager.spec_game_time().paused_game_time() == 0,
            !manager.spec_game_time().running(),
    {
        TimeManager { current_time: TimeMilliseconds(0), start_time, game_time: GameTimeManager::new() }
    }

    /// Get current time.
    pub fn current_time(&self) -> (time: &TimeMilliseconds)
        ensures
            time.0 == self.spec_current_time(),
    {
        &self.current_time
    }

    /// Get game time manager.
    pub fn game_time_manager(&self) -> (manager: &GameTimeManager)
        ensures
            *manager == self.spec_game_time(),
    {
        &self.game_time
    }

    /// Updates `TimeManager`'s current time and `GameTimeManager`'s time
    /// from the clock.
    ///
    /// Returns the clock reading, in nanoseconds, that the update used.
    pub fn update_time(&mut self, game_logic_running: bool) -> (now: u64)
        ensures
            final(self).start_time() == old(self).start_time(),
            final(self).spec_current_time() == elapsed_milliseconds(old(self).start_time(), now),
            game_time_after(old(self).spec_game_time(), final(self).spec_game_time(), now, game_logic_running),
    {
        let now = precise_time_ns();
        self.update_at(now, game_logic_running);
        now
    }

    /// Updates `TimeManager`'s current time and `GameTimeManager`'s time to
    /// clock reading `now` (nanoseconds): the current time is the milliseconds
    /// since the creation of the `TimeManager`.
    pub fn update_at(&mut self, now: u64, game_logic_running: bool)
        ensures
            final(self).start_time() == old(self).start_time(),
            final(self).spec_current_time() == elapsed_milliseconds(old(self).start_time(), now),
            game_time_after(old(self).spec_game_time(), final(self).spec_game_time(), now, game_logic_running),
    {
        self.current_time = TimeMilliseconds(milliseconds_between(self.start_time, now));
        self.game_time.update(now, game_logic_running);
    }
}

} // verus!
