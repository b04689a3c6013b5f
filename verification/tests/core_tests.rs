use repitile_core::config::Configuration;
use repitile_core::profile::{Humidity, Light, Profile, ProfileError, Temps};
use repitile_core::regulator::{RecordingRegulator, ThresholdRegulator};
use repitile_core::sensor::{ConstantSensor, FaultySensor, Measurement, ReadError};
use repitile_core::{aggregate, CommReq, CommandAction, Core, CurrentConditions};

fn test_config() -> Configuration {
    Configuration::from_parts(5, String::from("default.toml")).unwrap()
}

fn test_profile(name: &str, tmin: i32, tmax: i32, hmin: i32, hmax: i32) -> Profile {
    Profile::from_parts(
        String::from(name),
        Temps { min: tmin, max: tmax },
        Humidity { min: hmin, max: hmax },
        Light { on: 3600, off: 7200 },
    )
    .unwrap()
}

#[test]
fn three_sensors_one_tick_publishes_means() {
    let mut core: Core<ConstantSensor, RecordingRegulator> =
        Core::new(test_config(), Profile::new());
    core.add_sensor(ConstantSensor::new(20, 40));
    core.add_sensor(ConstantSensor::new(22, 42));
    core.add_sensor(ConstantSensor::new(24, 44));
    core.add_regulator(RecordingRegulator::new());
    core.tick(100);
    let c = core.conditions();
    assert_eq!(c.temp, 22);
    assert_eq!(c.humidity, 42);
    assert_eq!(c.time, 100);
    assert!(!c.light);
}

#[test]
fn tick_shows_published_snapshot_to_every_regulator() {
    let mut core: Core<ConstantSensor, RecordingRegulator> =
        Core::new(test_config(), Profile::new());
    core.add_sensor(ConstantSensor::new(30, 60));
    core.add_regulator(RecordingRegulator::new());
    core.add_regulator(RecordingRegulator::new());
    core.tick(7);
    let expected = CurrentConditions {
        light: false,
        temp: 30,
        humidity: 60,
        time: 7,
    };
    assert_eq!(core.conditions(), expected);
    for reg in &core.regulators {
        assert_eq!(reg.conditions_log.len(), 1);
        assert_eq!(reg.conditions_log[0], expected);
        assert!(reg.profiles_log.is_empty());
    }
}

#[test]
fn failing_sensor_keeps_initial_snapshot() {
    let mut core: Core<FaultySensor, RecordingRegulator> =
        Core::new(test_config(), Profile::new());
    core.add_sensor(FaultySensor::new());
    core.add_regulator(RecordingRegulator::new());
    for round in 0..5 {
        core.tick(1000 + round);
        let c = core.conditions();
        assert_eq!(c.temp, 0);
        assert_eq!(c.humidity, 0);
        assert_eq!(c.time, 0);
        assert!(!c.light);
    }
    assert_eq!(core.regulators[0].conditions_log.len(), 5);
}

#[test]
fn aggregate_takes_integer_mean_of_successes_only() {
    let prev = CurrentConditions {
        light: true,
        temp: 99,
        humidity: 99,
        time: 1,
    };
    let readings: Vec<Result<Measurement, ReadError>> = vec![
        Ok(Measurement {
            temperature: 10,
            humidity: 20,
        }),
        Err(ReadError),
        Ok(Measurement {
            temperature: 21,
            humidity: 41,
        }),
    ];
    let c = aggregate(&prev, &readings, 55);
    // (10 + 21) / 2 and (20 + 41) / 2, truncated
    assert_eq!(c.temp, 15);
    assert_eq!(c.humidity, 30);
    assert_eq!(c.time, 55);
    assert!(c.light);
}

#[test]
fn aggregate_truncates_towards_zero() {
    let prev = CurrentConditions {
        light: false,
        temp: 0,
        humidity: 0,
        time: 0,
    };
    let readings: Vec<Result<Measurement, ReadError>> = vec![
        Ok(Measurement {
            temperature: 1,
            humidity: 1,
        }),
        Ok(Measurement {
            temperature: 2,
            humidity: 4,
        }),
    ];
    let c = aggregate(&prev, &readings, 9);
    assert_eq!(c.temp, 1);
    assert_eq!(c.humidity, 2);
}

#[test]
fn aggregate_with_no_success_retains_previous_snapshot() {
    let prev = CurrentConditions {
        light: true,
        temp: 23,
        humidity: 61,
        time: 17,
    };
    let all_failed: Vec<Result<Measurement, ReadError>> = vec![Err(ReadError), Err(ReadError)];
    assert_eq!(aggregate(&prev, &all_failed, 99), prev);
    let none: Vec<Result<Measurement, ReadError>> = Vec::new();
    assert_eq!(aggregate(&prev, &none, 99), prev);
}

#[test]
fn aggregate_handles_the_largest_readings() {
    let prev = CurrentConditions {
        light: false,
        temp: 0,
        humidity: 0,
        time: 0,
    };
    let readings: Vec<Result<Measurement, ReadError>> = vec![
        Ok(Measurement {
            temperature: u32::MAX,
            humidity: u32::MAX,
        }),
        Ok(Measurement {
            temperature: u32::MAX,
            humidity: u32::MAX - 1,
        }),
    ];
    let c = aggregate(&prev, &readings, 1);
    assert_eq!(c.temp, u32::MAX);
    assert_eq!(c.humidity, u32::MAX - 1);
}

#[test]
fn tick_without_sensors_keeps_the_snapshot() {
    let mut core: Core<ConstantSensor, RecordingRegulator> =
        Core::new(test_config(), Profile::new());
    core.add_regulator(RecordingRegulator::new());
    core.tick(42);
    assert_eq!(
        core.conditions(),
        CurrentConditions {
            light: false,
            temp: 0,
            humidity: 0,
            time: 0,
        }
    );
    // The regulators are still shown the (unchanged) snapshot.
    assert_eq!(core.regulators[0].conditions_log.len(), 1);
}

#[test]
fn open_profile_success_notifies_each_regulator_once() {
    let mut core: Core<ConstantSensor, RecordingRegulator> =
        Core::new(test_config(), Profile::new());
    core.add_regulator(RecordingRegulator::new());
    core.add_regulator(RecordingRegulator::new());
    let new_profile = test_profile("Gecko", 20, 28, 40, 80);
    let resp = core.apply_profile_load(Ok(new_profile.duplicate()));
    assert_eq!(resp, CommReq::Success);
    assert_eq!(*core.profile(), new_profile);
    for reg in &core.regulators {
        assert_eq!(reg.profiles_log.len(), 1);
        assert_eq!(reg.profiles_log[0], new_profile);
        assert!(reg.conditions_log.is_empty());
    }
}

#[test]
fn open_profile_failure_leaves_state_unchanged() {
    let mut core: Core<ConstantSensor, RecordingRegulator> =
        Core::new(test_config(), Profile::new());
    core.add_regulator(RecordingRegulator::new());
    let before = core.profile().duplicate();
    let resp = core.apply_profile_load(Err(ProfileError::LoadError));
    assert_eq!(resp, CommReq::Failure);
    assert_eq!(*core.profile(), before);
    assert!(core.regulators[0].profiles_log.is_empty());
}

#[test]
fn open_config_replaces_both_when_both_load() {
    let mut core: Core<ConstantSensor, RecordingRegulator> =
        Core::new(test_config(), Profile::new());
    core.add_regulator(RecordingRegulator::new());
    let new_config = Configuration::from_parts(30, String::from("gecko.toml")).unwrap();
    let new_profile = test_profile("Gecko", 20, 28, 40, 80);
    let resp = core.apply_config_load(Ok(new_config.clone()), Ok(new_profile.duplicate()));
    assert_eq!(resp, CommReq::Success);
    assert_eq!(*core.configuration(), new_config);
    assert_eq!(*core.profile(), new_profile);
    assert_eq!(core.regulators[0].profiles_log.len(), 1);
    assert_eq!(core.regulators[0].profiles_log[0], new_profile);
}

#[test]
fn open_config_with_missing_profile_changes_nothing() {
    let mut core: Core<ConstantSensor, RecordingRegulator> =
        Core::new(test_config(), Profile::new());
    core.add_regulator(RecordingRegulator::new());
    let config_before = core.configuration().clone();
    let profile_before = core.profile().duplicate();
    let new_config = Configuration::from_parts(30, String::from("gecko.toml")).unwrap();
    let resp = core.apply_config_load(Ok(new_config), Err(ProfileError::LoadError));
    assert_eq!(resp, CommReq::Failure);
    assert_eq!(*core.configuration(), config_before);
    assert_eq!(*core.profile(), profile_before);
    assert!(core.regulators[0].profiles_log.is_empty());
}

#[test]
fn open_config_with_bad_config_changes_nothing() {
    let mut core: Core<ConstantSensor, RecordingRegulator> =
        Core::new(test_config(), Profile::new());
    let config_before = core.configuration().clone();
    let resp =
        core.apply_config_load(Err(ProfileError::LoadError), Err(ProfileError::LoadError));
    assert_eq!(resp, CommReq::Failure);
    assert_eq!(*core.configuration(), config_before);
}

#[test]
fn missing_profile_yields_err_and_queries_still_answer() {
    let mut core: Core<ConstantSensor, RecordingRegulator> =
        Core::new(test_config(), Profile::new());
    core.add_sensor(ConstantSensor::new(26, 70));
    core.tick(3);
    let action = core.plan_command(CommReq::OpenProfile(String::from("missing.toml")));
    assert_eq!(
        action,
        CommandAction::LoadProfile(String::from("missing.toml"))
    );
    // The loader finds no such file; the core is told so.
    let resp = core.apply_profile_load(Err(ProfileError::LoadError));
    assert_eq!(resp, CommReq::Failure);
    let query = core.plan_command(CommReq::GetTemp);
    assert_eq!(query, CommandAction::Reply(CommReq::SendTemp(26)));
}

#[test]
fn plan_command_answers_queries_and_ignores_responses() {
    let mut core: Core<ConstantSensor, RecordingRegulator> =
        Core::new(test_config(), Profile::new());
    core.add_sensor(ConstantSensor::new(31, 55));
    core.tick(1);
    assert_eq!(
        core.plan_command(CommReq::GetTemp),
        CommandAction::Reply(CommReq::SendTemp(31))
    );
    assert_eq!(
        core.plan_command(CommReq::GetHumid),
        CommandAction::Reply(CommReq::SendHumid(55))
    );
    assert_eq!(
        core.plan_command(CommReq::OpenConfig(String::from("c.toml"))),
        CommandAction::LoadConfig(String::from("c.toml"))
    );
    assert_eq!(core.plan_command(CommReq::SendTemp(1)), CommandAction::Ignore);
    assert_eq!(core.plan_command(CommReq::SendHumid(2)), CommandAction::Ignore);
    assert_eq!(core.plan_command(CommReq::Success), CommandAction::Ignore);
    assert_eq!(core.plan_command(CommReq::Failure), CommandAction::Ignore);
}

#[test]
fn refresh_time_keeps_readings() {
    let mut core: Core<ConstantSensor, RecordingRegulator> =
        Core::new(test_config(), Profile::new());
    core.add_sensor(ConstantSensor::new(28, 45));
    core.tick(4);
    core.refresh_time();
    let c = core.conditions();
    assert_eq!(c.temp, 28);
    assert_eq!(c.humidity, 45);
    assert!(!c.light);
}

#[test]
fn threshold_regulator_decides_on_each_tick() {
    let mut core: Core<ConstantSensor, ThresholdRegulator> =
        Core::new(test_config(), Profile::new());
    core.add_sensor(ConstantSensor::new(20, 40));
    // The default profile wants at least 25 degrees.
    core.add_regulator(ThresholdRegulator::new(
        Profile::new().temp_range().min,
    ));
    core.tick(1);
    assert!(core.regulators[0].active);
    core.sensors[0].measurement.temperature = 27;
    core.tick(2);
    assert!(!core.regulators[0].active);
}

#[test]
fn threshold_regulator_follows_profile_changes() {
    let mut core: Core<ConstantSensor, ThresholdRegulator> =
        Core::new(test_config(), Profile::new());
    core.add_sensor(ConstantSensor::new(21, 40));
    core.add_regulator(ThresholdRegulator::new(
        Profile::new().temp_range().min,
    ));
    core.tick(1);
    assert!(core.regulators[0].active);
    // A cooler profile is installed: 21 degrees is now enough.
    let cooler = test_profile("Cool", 18, 24, 30, 80);
    assert_eq!(core.apply_profile_load(Ok(cooler)), CommReq::Success);
    assert_eq!(core.regulators[0].minimum, 18);
    core.tick(2);
    assert!(!core.regulators[0].active);
}

#[test]
fn core_starts_with_zeroed_snapshot() {
    let core: Core<ConstantSensor, RecordingRegulator> =
        Core::new(test_config(), Profile::new());
    assert_eq!(
        core.conditions(),
        CurrentConditions {
            light: false,
            temp: 0,
            humidity: 0,
            time: 0,
        }
    );
    assert_eq!(core.profile().temp_range(), &Temps { max: 30, min: 25 });
}
