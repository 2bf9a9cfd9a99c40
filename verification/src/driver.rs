//! What the simulation driver decides: whether a robot configuration is
//! admissible, how much fuel a run is worth, and which features an
//! application variant carries.

use vstd::prelude::*;

verus! {

/// An RGB colour of the robot's shell.
#[derive(Clone, Copy, Debug, PartialEq, Eq, Structural)]
pub struct Color {
    pub r: u8,
    pub g: u8,
    pub b: u8,
}

/// The robot configuration a guest's setup entry point returns.  All
/// lengths are in micrometres; the named ranges of `validate_configuration`
/// are in millimetres.
#[derive(Clone, Debug)]
pub struct Configuration {
    pub name: String,
    pub color_main: Color,
    pub color_secondary: Color,
    /// Distance between the two wheels, micrometres.
    pub width_axle: u32,
    /// Body length ahead of the axle, micrometres.
    pub length_front: u32,
    /// Body length behind the axle, micrometres.
    pub length_back: u32,
    /// Ground clearance of the rear skid, micrometres.
    pub clearing_back: u32,
    /// Wheel diameter, micrometres.
    pub wheel_diameter: u32,
    pub gear_ratio_num: u32,
    pub gear_ratio_den: u32,
    /// Spacing between neighbouring line sensors, micrometres.
    pub front_sensors_spacing: u32,
    /// Height of the line sensors over the ground, micrometres.
    pub front_sensors_height: u32,
}

/// The configuration option a rejected setup stumbled on.
#[derive(Clone, Copy, Debug, PartialEq, Eq, Structural)]
pub enum ConfigError {
    WidthAxle,
    LengthFront,
    LengthBack,
    ClearingBack,
    WheelDiameter,
    GearRatioNum,
    GearRatioDen,
    FrontSensorsSpacing,
    FrontSensorsHeight,
}

/// The admissible ranges, checked option by option: widths and lengths in
/// their millimetre windows, the gear ratio within `[1, 100]` on both
/// sides, and the rear clearance and sensor height below the wheel radius.
pub open spec fn spec_config_error(c: Configuration) -> Option<ConfigError> {
    if !(100_000 <= c.width_axle <= 200_000) {
        Some(ConfigError::WidthAxle)
    } else if !(100_000 <= c.length_front <= 300_000) {
        Some(ConfigError::LengthFront)
    } else if !(10_000 <= c.length_back <= 50_000) {
        Some(ConfigError::LengthBack)
    } else if !(20_000 <= c.wheel_diameter <= 40_000) {
        Some(ConfigError::WheelDiameter)
    } else if !(1_000 <= c.clearing_back && c.clearing_back <= c.wheel_diameter / 2) {
        Some(ConfigError::ClearingBack)
    } else if !(1 <= c.gear_ratio_num <= 100) {
        Some(ConfigError::GearRatioNum)
    } else if !(1 <= c.gear_ratio_den <= 100) {
        Some(ConfigError::GearRatioDen)
    } else if !(1_000 <= c.front_sensors_spacing <= 15_000) {
        Some(ConfigError::FrontSensorsSpacing)
    } else if !(1_000 <= c.front_sensors_height && c.front_sensors_height <= c.wheel_diameter
        / 2) {
        Some(ConfigError::FrontSensorsHeight)
    } else {
        None
    }
}

/// Checks a configuration against the admissible ranges; `Ok` exactly when
/// every option is in range, else the first option out of range.
pub fn validate_configuration(c: &Configuration) -> (r: Result<(), ConfigError>)
    ensures
        r is Ok <==> spec_config_error(*c) is None,
        r matches Err(e) ==> spec_config_error(*c) == Some(e),
{
    if !(100_000 <= c.width_axle && c.width_axle <= 200_000) {
        Err(ConfigError::WidthAxle)
    } else if !(100_000 <= c.length_front && c.length_front <= 300_000) {
        Err(ConfigError::LengthFront)
    } else if !(10_000 <= c.length_back && c.length_back <= 50_000) {
        Err(ConfigError::LengthBack)
    } else if !(20_000 <= c.wheel_diameter && c.wheel_diameter <= 40_000) {
        Err(ConfigError::WheelDiameter)
    } else if !(1_000 <= c.clearing_back && c.clearing_back <= c.wheel_diameter / 2) {
        Err(ConfigError::ClearingBack)
    } else if !(1 <= c.gear_ratio_num && c.gear_ratio_num <= 100) {
        Err(ConfigError::GearRatioNum)
    } else if !(1 <= c.gear_ratio_den && c.gear_ratio_den <= 100) {
        Err(ConfigError::GearRatioDen)
    } else if !(1_000 <= c.front_sensors_spacing && c.front_sensors_spacing <= 15_000) {
        Err(ConfigError::FrontSensorsSpacing)
    } else if !(1_000 <= c.front_sensors_height && c.front_sensors_height <= c.wheel_diameter
        / 2) {
        Err(ConfigError::FrontSensorsHeight)
    } else {
        Ok(())
    }
}

/// Fuel units per microsecond of simulated time.
pub const FUEL_PER_US: u64 = 10_000;

/// Fuel the driver grants before any simulated time has been earned.
pub const FUEL_BASE: u64 = 1_000_000;

/// The fuel budget a run of `time_us` microseconds is worth: a fixed
/// linear schedule, so longer runs always hold at least the budget of
/// shorter ones.
pub fn fuel_for_time_us(time_us: u32) -> (fuel: u64)
    ensures
        fuel == FUEL_PER_US * time_us + FUEL_BASE,
{
    FUEL_PER_US * (time_us as u64) + FUEL_BASE
}

/// Why a run was cut short.
#[derive(Clone, Copy, Debug, PartialEq, Eq, Structural)]
pub enum TrapReason {
    /// The guest spent its whole fuel budget; the only non-recoverable
    /// event a guest can cause.
    FuelExhausted,
    /// The guest faulted in its own code.
    GuestFault,
}

/// What kind of application is being put together.
pub enum AppType {
    /// A headless simulation of one configured robot.
    Simulator(Configuration),
    /// An interactive test bench for one configured robot.
    Test(Configuration),
    /// A replay viewer with no physics of its own.
    Visualizer,
}

impl AppType {
    /// Whether this application steps physics.
    pub fn has_physics(&self) -> (r: bool)
        ensures
            r == !(self is Visualizer),
    {
        match self {
            AppType::Simulator(_) => true,
            AppType::Test(_) => true,
            AppType::Visualizer => false,
        }
    }

    /// Whether this application draws to a window.
    pub fn has_visualization(&self) -> (r: bool)
        ensures
            r == !(self is Simulator),
    {
        match self {
            AppType::Simulator(_) => false,
            AppType::Test(_) => true,
            AppType::Visualizer => true,
        }
    }

    /// The configuration this application runs, if it runs one.
    pub fn get_configuration(&self) -> (r: Option<&Configuration>)
        ensures
            self is Simulator ==> (r matches Some(c) && *c == self->Simulator_0),
            self is Test ==> (r matches Some(c) && *c == self->Test_0),
            self is Visualizer ==> r is None,
    {
        match self {
            AppType::Simulator(config) => Some(config),
            AppType::Test(config) => Some(config),
            AppType::Visualizer => None,
        }
    }
}

/// A configuration parked where the application can reach it.
pub struct BotConfigWrapper {
    pub config: Configuration,
}

impl BotConfigWrapper {
    /// Wraps a configuration.
    pub fn new(config: Configuration) -> (w: BotConfigWrapper)
        ensures
            w.config == config,
    {
        BotConfigWrapper { config }
    }
}

/// One robot's replay layer: which configuration it was run with and which
/// slot of the viewer it occupies.
pub struct BotVisualization {
    pub config: Configuration,
    pub bot_number: usize,
}

impl BotVisualization {
    /// A replay layer for one robot.
    pub fn new(config: Configuration, bot_number: usize) -> (v: BotVisualization)
        ensures
            v.config == config,
            v.bot_number == bot_number,
    {
        BotVisualization { config, bot_number }
    }
}

} // verus!
