//! The entry points user robot code implements, as the kernel's
//! competition phases call them.

use vstd::prelude::*;

verus! {

/// What a robot routine reports when it fails.
#[derive(Clone, Debug, PartialEq, Eq)]
pub struct RobotError {
    /// A description of what went wrong.
    pub message: String,
}

/// Robot code that runs without the async executor spun up: one routine
/// per competition phase, each doing nothing unless overridden.
pub trait SyncRobot {
    /// Runs during the operator control period. This routine may be
    /// called more than once.
    fn opcontrol(&mut self) -> Result<(), RobotError> {
        Ok(())
    }

    /// Runs during the autonomous period.
    fn auto(&mut self) -> Result<(), RobotError> {
        Ok(())
    }

    /// Runs continuously during the disabled period.
    fn disabled(&mut self) -> Result<(), RobotError> {
        Ok(())
    }

    /// Runs once when the competition system is initialized.
    fn comp_init(&mut self) -> Result<(), RobotError> {
        Ok(())
    }
}

} // verus!
