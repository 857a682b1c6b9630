use vstd::prelude::*;

verus! {

/// One tri-axial accelerometer reading.
///
/// `x`, `y`, `z` are accelerations in thousandths of m/s^2, `timestamp` is the
/// sensor's own clock in milliseconds, `wifi` the signal strength (0 when the
/// sensor sent none) and `temp` the temperature in thousandths of a degree
/// (0 when the sensor sent none).
#[derive(Clone, Copy, Debug, PartialEq, Eq, Structural)]
pub struct SensorData {
    pub x: i32,
    pub y: i32,
    pub z: i32,
    pub timestamp: i64,
    pub wifi: i32,
    pub temp: i32,
}

/// One of the three axes of a reading.
#[derive(Clone, Copy, Debug, PartialEq, Eq, Structural)]
pub enum Axis {
    X,
    Y,
    Z,
}

impl SensorData {
    /// The acceleration along `axis`, as a mathematical integer.
    pub open spec fn along(self, axis: Axis) -> int {
        match axis {
            Axis::X => self.x as int,
            Axis::Y => self.y as int,
            Axis::Z => self.z as int,
        }
    }

    /// The acceleration along `axis`.
    pub fn component(&self, axis: Axis) -> (v: i32)
        ensures
            v as int == self.along(axis),
    {
        match axis {
            Axis::X => self.x,
            Axis::Y => self.y,
            Axis::Z => self.z,
        }
    }
}

/// A live reading together with what the engine made of it.
#[derive(Clone, Debug)]
pub struct EnrichedData {
    pub raw: SensorData,
    pub g_force: u64,
    pub alert: bool,
    pub diagnosis: String,
}

/// How many events of one severity the history holds.
#[derive(Clone, Debug)]
pub struct RiskReport {
    pub severity: String,
    pub count: Option<i64>,
}

/// What an operator asks for.
#[derive(Clone, Copy, Debug, PartialEq, Eq, Structural)]
pub enum CommandAction {
    CancelAlert,
    ConfirmFall,
    ResetSystem,
}

/// A decoded operator frame: the action's wire name, not yet recognized.
#[derive(Clone, Debug)]
pub struct ClientCommand {
    pub action: String,
}

/// The action that a wire name stands for, if it is one of the three.
pub open spec fn recognize(action: Seq<char>) -> Option<CommandAction> {
    if action == "CANCEL_ALERT"@ {
        Some(CommandAction::CancelAlert)
    } else if action == "CONFIRM_FALL"@ {
        Some(CommandAction::ConfirmFall)
    } else if action == "RESET_SYSTEM"@ {
        Some(CommandAction::ResetSystem)
    } else {
        None
    }
}

impl ClientCommand {
    /// The recognized action, or `None` for any other wire name.
    pub fn recognized(&self) -> (r: Option<CommandAction>)
        ensures
            r == recognize(self.action@),
    {
        if self.action.eq(&"CANCEL_ALERT".to_owned()) {
            Some(CommandAction::CancelAlert)
        } else if self.action.eq(&"CONFIRM_FALL".to_owned()) {
            Some(CommandAction::ConfirmFall)
        } else if self.action.eq(&"RESET_SYSTEM".to_owned()) {
            Some(CommandAction::ResetSystem)
        } else {
            None
        }
    }
}

} // verus!
