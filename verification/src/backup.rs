//! The per-instance backup scheduler, as an explicit state machine.
//!
//! The runtime runs one backup task per instance: it forwards control
//! instructions from a channel and a timer tick once a second, and copies
//! the world directory whenever the scheduler here says so. While paused,
//! the scheduler reacts to nothing but `Resume`. The tick counter counts
//! seconds while the instance runs; when it reaches the configured period
//! a backup is due and the count starts over.

use vstd::prelude::*;

verus! {

/// What the control channel can carry.
#[derive(Clone, Copy, Debug, PartialEq, Eq, Structural)]
pub enum BackupInstruction {
    /// Change the backup period, or switch periodic backups off.
    SetPeriod(Option<u32>),
    /// Take a backup immediately.
    BackupNow,
    /// Stop reacting to anything but `Resume`.
    Pause,
    /// React to instructions and ticks again.
    Resume,
}

/// The scheduler's state: the configured period, whether it is paused,
/// and how many counted seconds have passed since the last backup.
pub struct BackupScheduler {
    period: Option<u32>,
    paused: bool,
    counter: u32,
}

impl BackupScheduler {
    /// The configured period, in seconds between backups.
    pub closed spec fn spec_period(&self) -> Option<u32> {
        self.period
    }

    /// Whether the scheduler is paused.
    pub closed spec fn spec_paused(&self) -> bool {
        self.paused
    }

    /// Seconds counted since the last backup.
    pub closed spec fn spec_counter(&self) -> int {
        self.counter as int
    }

    /// A fresh scheduler with the period the instance was restored with.
    pub fn new(period: Option<u32>) -> (r: BackupScheduler)
        ensures
            r.spec_period() == period,
            !r.spec_paused(),
            r.spec_counter() == 0,
    {
        BackupScheduler { period, paused: false, counter: 0 }
    }

    /// React to one control instruction. Returns whether a backup must be
    /// taken right now. While paused, only `Resume` has any effect.
    pub fn handle_instruction(&mut self, ins: BackupInstruction) -> (r: bool)
        ensures
            old(self).spec_paused() ==> {
                &&& r == false
                &&& (if ins == BackupInstruction::Resume {
                    &&& !final(self).spec_paused()
                    &&& final(self).spec_period() == old(self).spec_period()
                    &&& final(self).spec_counter() == old(self).spec_counter()
                } else {
                    *final(self) == *old(self)
                })
            },
            !old(self).spec_paused() ==> match ins {
                BackupInstruction::SetPeriod(p) => {
                    &&& r == false
                    &&& final(self).spec_period() == p
                    &&& !final(self).spec_paused()
                    &&& final(self).spec_counter() == old(self).spec_counter()
                },
                BackupInstruction::BackupNow => {
                    &&& r == true
                    &&& *final(self) == *old(self)
                },
                BackupInstruction::Pause => {
                    &&& r == false
                    &&& final(self).spec_paused()
                    &&& final(self).spec_period() == old(self).spec_period()
                    &&& final(self).spec_counter() == old(self).spec_counter()
                },
                BackupInstruction::Resume => {
                    &&& r == false
                    &&& *final(self) == *old(self)
                },
            },
    {
        if self.paused {
            if matches!(ins, BackupInstruction::Resume) {
                self.paused = false;
            }
            return false;
        }
        match ins {
            BackupInstruction::SetPeriod(p) => {
                self.period = p;
                false
            },
            BackupInstruction::BackupNow => true,
            BackupInstruction::Pause => {
                self.paused = true;
                false
            },
            BackupInstruction::Resume => false,
        }
    }

    /// One second passed. Counts only while a period is set, the
    /// scheduler is not paused and the instance is running; when the count
    /// reaches the period, a backup is due and the count restarts. The
    /// count saturates rather than wraps.
    pub fn tick(&mut self, instance_running: bool) -> (r: bool)
        ensures
            final(self).spec_period() == old(self).spec_period(),
            final(self).spec_paused() == old(self).spec_paused(),
            match old(self).spec_period() {
                Some(p) => {
                    if old(self).spec_paused() || !instance_running {
                        r == false && final(self).spec_counter() == old(self).spec_counter()
                    } else {
                        ({
                            let counted = if old(self).spec_counter() + 1 <= u32::MAX as int {
                                old(self).spec_counter() + 1
                            } else {
                                u32::MAX as int
                            };
                            &&& r == (counted >= p)
                            &&& (r ==> final(self).spec_counter() == 0)
                            &&& (!r ==> final(self).spec_counter() == counted)
                        })
                    }
                },
                None => r == false && final(self).spec_counter() == old(self).spec_counter(),
            },
    {
        let p = match self.period {
            Some(p) => p,
            None => {
                return false;
            },
        };
        if self.paused || !instance_running {
            return false;
        }
        let counted: u32 = if self.counter == u32::MAX {
            u32::MAX
        } else {
            self.counter + 1
        };
        if counted >= p {
            self.counter = 0;
            true
        } else {
            self.counter = counted;
            false
        }
    }
}

} // verus!
