//! Run configuration: which arm variant is being calibrated, and how the six
//! logical joints map onto actuator families and bus identifiers.
//!
//! The puppet arm mixes two actuator families (joints 0 and 1 are the larger
//! family, joints 2 to 5 the smaller); the master arm uses the smaller family
//! throughout. The composition is fixed configuration, not derived state.

use vstd::prelude::*;

verus! {

/// Command-line selection for a calibration run: the serial port and which
/// one arm to configure.
pub struct Cli {
    /// Serial port on which the servos are connected.
    pub port: String,
    /// Set when configuring the puppet arm.
    pub puppet: bool,
    /// Set when configuring the master arm.
    pub master: bool,
}

/// The two arm variants that can be calibrated.
#[derive(Clone, Copy, PartialEq, Eq, Structural, Debug)]
pub enum ArmVariant {
    Puppet,
    Master,
}

/// A malformed command-line selection, fatal before any transport traffic.
#[derive(Clone, Copy, PartialEq, Eq, Structural, Debug)]
pub enum ConfigError {
    /// Both arms were selected; only one can be configured per run.
    BothArmsSelected,
    /// Neither arm was selected.
    NoArmSelected,
}

/// The two actuator families found on these arms.
#[derive(Clone, Copy, PartialEq, Eq, Structural, Debug)]
pub enum Family {
    Xl330,
    Xl430,
}

/// The actuator family driving a joint: on the puppet arm the first two
/// joints are the larger family, everything else the smaller.
pub open spec fn spec_joint_family(variant: ArmVariant, joint: int) -> Family {
    if variant is Puppet && joint < 2 {
        Family::Xl430
    } else {
        Family::Xl330
    }
}

impl Cli {
    /// Decide the arm variant from the command-line flags: exactly one of
    /// puppet and master must be chosen.
    pub fn arm_variant(&self) -> (r: Result<ArmVariant, ConfigError>)
        ensures
            self.puppet && !self.master ==> r == Ok::<ArmVariant, ConfigError>(ArmVariant::Puppet),
            self.master && !self.puppet ==> r == Ok::<ArmVariant, ConfigError>(ArmVariant::Master),
            self.puppet && self.master ==> r == Err::<ArmVariant, ConfigError>(
                ConfigError::BothArmsSelected,
            ),
            !self.puppet && !self.master ==> r == Err::<ArmVariant, ConfigError>(
                ConfigError::NoArmSelected,
            ),
    {
        if self.puppet && self.master {
            Err(ConfigError::BothArmsSelected)
        } else if self.puppet {
            Ok(ArmVariant::Puppet)
        } else if self.master {
            Ok(ArmVariant::Master)
        } else {
            Err(ConfigError::NoArmSelected)
        }
    }
}

/// Look up the actuator family of one joint on one arm variant.
pub fn joint_family(variant: ArmVariant, joint: usize) -> (f: Family)
    requires
        joint < 6,
    ensures
        f == spec_joint_family(variant, joint as int),
{
    match variant {
        ArmVariant::Puppet => if joint < 2 {
            Family::Xl430
        } else {
            Family::Xl330
        },
        ArmVariant::Master => Family::Xl330,
    }
}

/// The bus identifier of a joint: actuators are numbered 1 to 6 in joint
/// order.
pub fn actuator_id(joint: usize) -> (id: u8)
    requires
        joint < 6,
    ensures
        id as int == joint + 1,
{
    (joint as u8) + 1
}

} // verus!
