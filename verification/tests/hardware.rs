use logbot::consts::{Sensors, I2C_SENSOR_ADDRESS};
use logbot::directions::{MotorDirection, SpinDirection, VehicleDirection};
use logbot::error::{DemoError, LogbotError, VehicleError, VehicleSensorError};
use logbot::interfaces::{Drive, Lift, SensorRead, Spin, ToSensorChannel};
use logbot::logbot::Logbot;
use logbot::pwm::{control_byte, polarity, PwmConfig, Side};
use logbot::speed::Speed;
use logbot::vehicle::{conclude, TryDefault, Vehicle};

fn speed(units: i64) -> Speed {
    Speed::new(units).unwrap()
}

/// A motor that writes down what it is told, and fails on demand.
#[derive(Debug, Default)]
struct Motor {
    told: Vec<Option<MotorDirection>>,
    broken: bool,
}

impl Drive for Motor {
    type Direction = MotorDirection;
    type Error = &'static str;

    fn drive(&mut self, direction: MotorDirection) -> Result<Option<MotorDirection>, &'static str> {
        if self.broken {
            return Err("stalled");
        }
        self.told.push(Some(direction));
        Ok(None)
    }

    fn stop(&mut self) -> Result<Option<MotorDirection>, &'static str> {
        if self.broken {
            return Err("stalled");
        }
        self.told.push(None);
        Ok(None)
    }
}

impl TryDefault for Motor {
    type Error = &'static str;

    fn try_default() -> Result<Self, &'static str> {
        Ok(Motor::default())
    }
}

/// A motor that cannot be made.
#[derive(Debug)]
struct Missing;

impl Drive for Missing {
    type Direction = MotorDirection;
    type Error = &'static str;

    fn drive(&mut self, _: MotorDirection) -> Result<Option<MotorDirection>, &'static str> {
        Err("missing")
    }

    fn stop(&mut self) -> Result<Option<MotorDirection>, &'static str> {
        Err("missing")
    }
}

impl TryDefault for Missing {
    type Error = u8;

    fn try_default() -> Result<Self, u8> {
        Err(3)
    }
}

/// Sensors that answer with the channel they were asked for.
struct Echo;

impl SensorRead for Echo {
    type Output = u8;
    type Error = &'static str;

    fn read<C: ToSensorChannel>(&mut self, sensor: C) -> Result<u8, &'static str> {
        Ok(sensor.to_channel())
    }
}

/// A lift that remembers where it is.
struct Platform {
    up: bool,
}

impl Lift for Platform {
    type Error = &'static str;

    fn up(&mut self, _: Speed) -> Result<(), &'static str> {
        self.up = true;
        Ok(())
    }

    fn down(&mut self, _: Speed) -> Result<(), &'static str> {
        self.up = false;
        Ok(())
    }

    fn is_up(&self) -> bool {
        self.up
    }

    fn is_down(&self) -> bool {
        !self.up
    }
}

#[test]
fn sensors_name_their_channels() {
    assert_eq!(Sensors::Left.to_channel(), 0);
    assert_eq!(Sensors::Right.to_channel(), 1);
    assert_eq!(control_byte(Sensors::Left.to_channel()), 0x40);
    assert_eq!(control_byte(Sensors::Right.to_channel()), 0x41);
    assert_eq!(control_byte(3), 0x43);
    assert_eq!(I2C_SENSOR_ADDRESS, 0x48);
}

#[test]
fn a_vehicle_drives_both_motors_and_remembers_the_direction() {
    let mut vehicle = Vehicle::new(Motor::default(), Motor::default());
    assert_eq!(vehicle.state(), None);
    let ahead = VehicleDirection::forward(speed(300_000));
    assert_eq!(vehicle.drive(ahead).unwrap(), None);
    assert_eq!(vehicle.state(), Some(ahead));
    let spin = SpinDirection::Left(speed(200_000));
    assert_eq!(vehicle.spin(spin).unwrap(), Some(ahead));
    assert_eq!(vehicle.state(), Some(VehicleDirection::spin_left(speed(200_000))));
    assert_eq!(
        vehicle.stop().unwrap(),
        Some(VehicleDirection::spin_left(speed(200_000)))
    );
    assert_eq!(vehicle.state(), None);
    assert_eq!(vehicle.stop().unwrap(), None);
}

#[test]
fn a_vehicle_tells_which_motor_failed() {
    let broken = || Motor { told: Vec::new(), broken: true };
    let ahead = VehicleDirection::forward(speed(300_000));

    let mut vehicle = Vehicle::new(broken(), Motor::default());
    assert!(matches!(vehicle.drive(ahead), Err(VehicleError::Left("stalled"))));
    assert!(matches!(vehicle.stop(), Err(VehicleError::Left("stalled"))));
    assert_eq!(vehicle.state(), None);

    let mut vehicle = Vehicle::new(Motor::default(), broken());
    assert!(matches!(vehicle.drive(ahead), Err(VehicleError::Right("stalled"))));
    assert!(matches!(
        vehicle.spin(SpinDirection::Right(speed(1))),
        Err(VehicleError::Right("stalled"))
    ));
    assert_eq!(vehicle.state(), None);
}

#[test]
fn a_vehicle_is_made_from_the_settings_of_its_motors() {
    let vehicle: Vehicle<Motor, Motor> = Vehicle::try_default().unwrap();
    assert_eq!(vehicle.state(), None);
    assert!(matches!(
        Vehicle::<Missing, Motor>::try_default(),
        Err(VehicleError::Left(3))
    ));
    assert!(matches!(
        Vehicle::<Motor, Missing>::try_default(),
        Err(VehicleError::Right(3))
    ));
}

#[test]
fn the_robot_offers_every_capability() {
    let vehicle = Vehicle::new(Motor::default(), Motor::default());
    let mut robot = Logbot::new(vehicle, Echo, Platform { up: false });
    let ahead = VehicleDirection::forward(speed(300_000));
    assert_eq!(robot.drive(ahead).unwrap(), None);
    assert_eq!(robot.spin(SpinDirection::Right(speed(5))).unwrap(), Some(ahead));
    assert!(robot.stop().unwrap().is_some());
    assert_eq!(robot.read(Sensors::Left), Ok(0));
    assert_eq!(robot.read(Sensors::Right), Ok(1));
    assert!(robot.is_down());
    assert_eq!(robot.up(Speed::half()), Ok(()));
    assert!(robot.is_up());
    assert_eq!(robot.down(Speed::half()), Ok(()));
    assert!(robot.is_down() && !robot.is_up());
}

#[test]
fn failures_keep_their_component() {
    let vehicle: VehicleSensorError<u8, char> = VehicleSensorError::Vehicle(4);
    let sensor: VehicleSensorError<u8, char> = VehicleSensorError::Sensor('s');
    assert_eq!(DemoError::<u8, char, bool>::from(vehicle), DemoError::Vehicle(4));
    assert_eq!(DemoError::<u8, char, bool>::from(sensor), DemoError::Sensor('s'));
    assert_ne!(
        LogbotError::<u8, u8, u8>::Vehicle(1),
        LogbotError::<u8, u8, u8>::Lift(1)
    );
}

#[test]
fn the_two_sides_are_wired_with_opposite_polarity() {
    let forward = MotorDirection::Forward(speed(300_000));
    let backward = MotorDirection::Backward(speed(300_000));
    assert!(polarity(Side::Right, forward));
    assert!(!polarity(Side::Right, backward));
    assert!(!polarity(Side::Left, forward));
    assert!(polarity(Side::Left, backward));
}

#[test]
fn the_pulse_width_follows_side_direction_and_speed() {
    let config = PwmConfig::default();
    assert_eq!(
        config,
        PwmConfig {
            period: 20_000_000,
            stop_pulse_width: 1_500_000,
            pulse_width_range: 500_000,
        }
    );
    let forward = |units| MotorDirection::Forward(speed(units));
    let backward = |units| MotorDirection::Backward(speed(units));
    assert_eq!(config.pulse_width(Side::Left, forward(1_000_000)), 1_000_000);
    assert_eq!(config.pulse_width(Side::Left, forward(500_000)), 1_250_000);
    assert_eq!(config.pulse_width(Side::Left, backward(500_000)), 1_750_000);
    assert_eq!(config.pulse_width(Side::Right, forward(500_000)), 1_750_000);
    assert_eq!(config.pulse_width(Side::Right, backward(1_000_000)), 1_000_000);
    assert_eq!(config.pulse_width(Side::Right, backward(100_000)), 1_450_000);
    for side in [Side::Left, Side::Right] {
        assert_eq!(config.pulse_width(side, forward(0)), 1_500_000);
        assert_eq!(config.pulse_width(side, backward(0)), 1_500_000);
        // one millionth of the range is less than a nanosecond
        assert_eq!(config.pulse_width(side, forward(1)), 1_500_000);
    }
}

#[test]
fn the_first_failure_is_the_failure_of_the_vehicle() {
    let noted = Some(VehicleDirection::forward(speed(300_000)));
    let fine = || Ok::<Option<MotorDirection>, &'static str>(None);
    let failed = |why| Err::<Option<MotorDirection>, &'static str>(why);
    assert!(matches!(conclude(noted, fine(), Some(fine())), Ok(n) if n == noted));
    assert!(matches!(
        conclude(noted, fine(), Some(failed("right"))),
        Err(VehicleError::Right("right"))
    ));
    assert!(matches!(
        conclude(noted, failed("left"), None::<Result<Option<MotorDirection>, &'static str>>),
        Err(VehicleError::Left("left"))
    ));
    assert!(matches!(
        conclude(noted, failed("left"), Some(failed("right"))),
        Err(VehicleError::Left("left"))
    ));
    assert!(matches!(
        conclude(None, fine(), None::<Result<Option<MotorDirection>, &'static str>>),
        Ok(None)
    ));
}

/// A motor that shares what it is told, so that it can be looked at after
/// it was handed to a vehicle.
#[derive(Debug, Default, Clone)]
struct Recording {
    told: std::rc::Rc<std::cell::RefCell<Vec<Option<MotorDirection>>>>,
}

impl Drive for Recording {
    type Direction = MotorDirection;
    type Error = &'static str;

    fn drive(&mut self, direction: MotorDirection) -> Result<Option<MotorDirection>, &'static str> {
        self.told.borrow_mut().push(Some(direction));
        Ok(None)
    }

    fn stop(&mut self) -> Result<Option<MotorDirection>, &'static str> {
        self.told.borrow_mut().push(None);
        Ok(None)
    }
}

#[test]
fn a_motor_that_fails_keeps_the_other_from_being_told() {
    let right = Recording::default();
    let mut vehicle = Vehicle::new(Motor { told: Vec::new(), broken: true }, right.clone());
    assert!(vehicle.drive(VehicleDirection::forward(speed(1))).is_err());
    assert!(vehicle.stop().is_err());
    assert!(vehicle.spin(SpinDirection::Left(speed(1))).is_err());
    assert!(right.told.borrow().is_empty());
}

#[test]
fn both_motors_are_told_their_part_in_order() {
    let left = Recording::default();
    let right = Recording::default();
    let vehicle = Vehicle::new(left.clone(), right.clone());
    let mut robot = Logbot::new(vehicle, Echo, Platform { up: false });
    robot.spin(SpinDirection::Left(speed(5))).unwrap();
    robot
        .drive(VehicleDirection::new(
            MotorDirection::Forward(speed(7)),
            MotorDirection::Backward(speed(9)),
        ))
        .unwrap();
    robot.stop().unwrap();
    assert_eq!(
        left.told.borrow().clone(),
        vec![
            Some(MotorDirection::Backward(speed(5))),
            Some(MotorDirection::Forward(speed(7))),
            None
        ]
    );
    assert_eq!(
        right.told.borrow().clone(),
        vec![
            Some(MotorDirection::Forward(speed(5))),
            Some(MotorDirection::Backward(speed(9))),
            None
        ]
    );
}
