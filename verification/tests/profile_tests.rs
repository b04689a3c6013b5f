use repitile_core::config::Configuration;
use repitile_core::profile::{Humidity, Light, Profile, ProfileError, Temps};

#[test]
fn default_profile_values() {
    let p = Profile::new();
    assert_eq!(p.name, "Default Reptile");
    assert_eq!(p.temp_range(), &Temps { max: 30, min: 25 });
    assert_eq!(p.humidity_range(), &Humidity { max: 100, min: 30 });
    assert_eq!(p.light_schedule(), &Light { on: 0, off: 43200 });
    assert_eq!(Profile::default(), p);
}

#[test]
fn from_parts_accepts_well_formed_values() {
    let p = Profile::from_parts(
        String::from("Iguana"),
        Temps { min: 22, max: 33 },
        Humidity { min: 50, max: 90 },
        Light { on: 21600, off: 64800 },
    )
    .unwrap();
    assert_eq!(p.name, "Iguana");
    assert_eq!(p.temps, Temps { min: 22, max: 33 });
    assert_eq!(p.humidity, Humidity { min: 50, max: 90 });
    assert_eq!(p.light, Light { on: 21600, off: 64800 });
}

#[test]
fn from_parts_rejects_inverted_temperature_range() {
    let r = Profile::from_parts(
        String::from("Bad"),
        Temps { min: 31, max: 30 },
        Humidity { min: 30, max: 100 },
        Light { on: 0, off: 43200 },
    );
    assert_eq!(r.unwrap_err(), ProfileError::DeserializationError);
}

#[test]
fn from_parts_rejects_inverted_humidity_range() {
    let r = Profile::from_parts(
        String::from("Bad"),
        Temps { min: 25, max: 30 },
        Humidity { min: 101, max: 100 },
        Light { on: 0, off: 43200 },
    );
    assert_eq!(r.unwrap_err(), ProfileError::DeserializationError);
}

#[test]
fn from_parts_rejects_times_past_one_day() {
    let r = Profile::from_parts(
        String::from("Bad"),
        Temps { min: 25, max: 30 },
        Humidity { min: 30, max: 100 },
        Light { on: 86400, off: 43200 },
    );
    assert_eq!(r.unwrap_err(), ProfileError::DeserializationError);
}

#[test]
fn duplicate_returns_an_equal_profile() {
    let p = Profile::from_parts(
        String::from("Skink"),
        Temps { min: 20, max: 26 },
        Humidity { min: 40, max: 70 },
        Light { on: 100, off: 200 },
    )
    .unwrap();
    assert_eq!(p.duplicate(), p);
}

#[test]
fn light_schedule_within_one_day() {
    let l = Light { on: 3600, off: 7200 };
    assert!(!l.is_on_at(3599));
    assert!(l.is_on_at(3600));
    assert!(l.is_on_at(7199));
    assert!(!l.is_on_at(7200));
}

#[test]
fn light_schedule_wrapping_past_midnight() {
    let l = Light { on: 64800, off: 21600 };
    assert!(l.is_on_at(64800));
    assert!(l.is_on_at(86399));
    assert!(l.is_on_at(0));
    assert!(l.is_on_at(21599));
    assert!(!l.is_on_at(21600));
    assert!(!l.is_on_at(64799));
}

#[test]
fn empty_light_window_is_always_off() {
    let l = Light { on: 100, off: 100 };
    assert!(!l.is_on_at(99));
    assert!(!l.is_on_at(100));
    assert!(!l.is_on_at(101));
}

#[test]
fn configuration_requires_positive_delay() {
    let r = Configuration::from_parts(0, String::from("p.toml"));
    assert_eq!(r.unwrap_err(), ProfileError::DeserializationError);
    let c = Configuration::from_parts(60, String::from("p.toml")).unwrap();
    assert_eq!(c.time_delay, 60);
    assert_eq!(c.default_profile, "p.toml");
    assert!(c.is_valid());
    let zero = Configuration {
        time_delay: 0,
        default_profile: String::new(),
    };
    assert!(!zero.is_valid());
}
