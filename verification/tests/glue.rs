use brewmeister::api::content_type;
use brewmeister::comm;
use brewmeister::config::{Config, CONFIG_FILE, DEFAULT_DEVICE_PATH};
use brewmeister::db::{
    brew_of, recipe_from_rows, rows_of_steps, to_signed, to_unsigned, Brew, Recipe, Step,
};
use brewmeister::devices::mock::{
    Course, Mock, INITIAL_TARGET_BITS, INITIAL_TEMPERATURE_BITS, TIME_CONSTANT_SECS,
};
use brewmeister::error::AppError;
use brewmeister::models;
use brewmeister::temperature::Temperature;

fn t(value: f32) -> Temperature {
    Temperature::from_bits(value.to_bits())
}

#[test]
fn default_configuration() {
    assert_eq!(DEFAULT_DEVICE_PATH, "/dev/ttyACM0");
    assert_eq!(CONFIG_FILE, "brewmeister.toml");
    assert_eq!(
        Config::default(),
        Config { device: "/dev/ttyACM0".to_string(), database: None }
    );
}

#[test]
fn configuration_without_device_uses_the_default() {
    assert_eq!(
        Config::new(None, None),
        Config { device: "/dev/ttyACM0".to_string(), database: None }
    );
    assert_eq!(
        Config::new(None, Some("sqlite:brews.db".to_string())),
        Config { device: "/dev/ttyACM0".to_string(), database: Some("sqlite:brews.db".to_string()) }
    );
}

#[test]
fn configuration_with_device_keeps_it() {
    assert_eq!(
        Config::new(Some("/dev/ttyUSB0".to_string()), None),
        Config { device: "/dev/ttyUSB0".to_string(), database: None }
    );
    assert_eq!(Config::new(Some(String::new()), None).device, "");
}

#[test]
fn content_types() {
    assert_eq!(content_type("css"), Some("text/css"));
    assert_eq!(content_type("html"), Some("text/html; charset=utf-8"));
    assert_eq!(content_type("js"), Some("application/javascript"));
    assert_eq!(content_type("wasm"), Some("application/wasm"));
}

#[test]
fn unknown_extensions_have_no_content_type() {
    assert_eq!(content_type(""), None);
    assert_eq!(content_type("png"), None);
    assert_eq!(content_type("CSS"), None);
    assert_eq!(content_type("htm"), None);
    assert_eq!(content_type("html "), None);
    assert_eq!(content_type(".js"), None);
}

#[test]
fn sign_reinterpretation() {
    assert_eq!(to_unsigned(0), 0);
    assert_eq!(to_unsigned(60), 60);
    assert_eq!(to_unsigned(i64::MAX), i64::MAX as u64);
    assert_eq!(to_unsigned(-1), u64::MAX);
    assert_eq!(to_unsigned(i64::MIN), 1u64 << 63);
    assert_eq!(to_signed(0), 0);
    assert_eq!(to_signed(60), 60);
    assert_eq!(to_signed(u64::MAX), -1);
    assert_eq!(to_signed(1u64 << 63), i64::MIN);
    assert_eq!(to_signed((1u64 << 63) - 1), i64::MAX);
    for n in [0i64, 1, -1, 42, -42, i64::MAX, i64::MIN, i64::MIN + 1] {
        assert_eq!(to_unsigned(n), n as u64);
        assert_eq!(to_signed(to_unsigned(n)), n);
    }
    for n in [0u64, 1, 42, u64::MAX, 1 << 63, (1 << 63) + 1] {
        assert_eq!(to_signed(n), n as i64);
        assert_eq!(to_unsigned(to_signed(n)), n);
    }
}

#[test]
fn recipe_row_becomes_recipe_without_steps() {
    let row = Recipe { id: 4, title: "Pale".to_string(), description: "A pale ale".to_string() };
    assert_eq!(
        models::Recipe::from(row),
        models::Recipe {
            id: models::RecipeId(4),
            name: "Pale".to_string(),
            description: "A pale ale".to_string(),
            steps: vec![]
        }
    );
}

#[test]
fn step_row_becomes_step() {
    let row = Step { position: 3, target_temperature: t(65.0), duration: 3600 };
    assert_eq!(
        models::Step::from(row),
        models::Step { description: String::new(), target_temperature: t(65.0), duration: 3600 }
    );
    let negative = Step { position: 0, target_temperature: t(65.0), duration: -1 };
    assert_eq!(models::Step::from(negative).duration, u64::MAX);
}

#[test]
fn recipe_is_put_together_from_rows_in_order() {
    let row = Recipe { id: 4, title: "Pale".to_string(), description: "A pale ale".to_string() };
    let steps = vec![
        Step { position: 0, target_temperature: t(65.0), duration: 60 },
        Step { position: 1, target_temperature: t(78.0), duration: 10 },
        Step { position: 2, target_temperature: t(99.0), duration: 0 },
    ];
    assert_eq!(
        recipe_from_rows(row, steps),
        models::Recipe {
            id: models::RecipeId(4),
            name: "Pale".to_string(),
            description: "A pale ale".to_string(),
            steps: vec![
                models::Step {
                    description: String::new(),
                    target_temperature: t(65.0),
                    duration: 60
                },
                models::Step {
                    description: String::new(),
                    target_temperature: t(78.0),
                    duration: 10
                },
                models::Step {
                    description: String::new(),
                    target_temperature: t(99.0),
                    duration: 0
                },
            ]
        }
    );
    let empty = Recipe { id: 1, title: String::new(), description: String::new() };
    assert!(recipe_from_rows(empty, vec![]).steps.is_empty());
}

#[test]
fn steps_are_stored_at_their_places() {
    let steps = vec![
        models::Step { description: "mash".to_string(), target_temperature: t(65.0), duration: 60 },
        models::Step { description: "out".to_string(), target_temperature: t(78.0), duration: 10 },
    ];
    assert_eq!(
        rows_of_steps(&steps),
        vec![
            Step { position: 0, target_temperature: t(65.0), duration: 60 },
            Step { position: 1, target_temperature: t(78.0), duration: 10 },
        ]
    );
    assert_eq!(rows_of_steps(&vec![]), vec![]);
    let long = vec![models::Step {
        description: String::new(),
        target_temperature: t(20.0),
        duration: u64::MAX,
    }];
    assert_eq!(rows_of_steps(&long)[0].duration, -1);
}

#[test]
fn brew_names_its_recipe() {
    let recipe = models::Recipe {
        id: models::RecipeId(12),
        name: String::new(),
        description: String::new(),
        steps: vec![],
    };
    assert_eq!(brew_of(&recipe), models::NewBrew { id: models::RecipeId(12) });
    assert_eq!(Brew { recipe_id: 12 }.recipe_id, 12);
}

#[test]
fn new_mock_is_at_nineteen_degrees_with_a_target_of_twenty() {
    assert_eq!(INITIAL_TARGET_BITS, 20.0f32.to_bits());
    assert_eq!(INITIAL_TEMPERATURE_BITS, 19.0f32.to_bits());
    assert_eq!(TIME_CONSTANT_SECS, 5);
    let mock = Mock::new(1000);
    assert_eq!(
        mock.course(1000),
        Course { from: t(19.0), towards: t(20.0), elapsed_millis: 0 }
    );
    assert_eq!(
        mock.course(3500),
        Course { from: t(19.0), towards: t(20.0), elapsed_millis: 2500 }
    );
}

#[test]
fn mock_clock_does_not_run_backwards() {
    let mock = Mock::new(1000);
    assert_eq!(mock.course(999).elapsed_millis, 0);
    assert_eq!(mock.course(0).elapsed_millis, 0);
    assert_eq!(Mock::new(0).course(u64::MAX).elapsed_millis, u64::MAX);
}

#[test]
fn mock_reports_its_temperature_and_target() {
    let mock = Mock::new(0);
    assert_eq!(
        mock.read(t(19.5)),
        models::Device {
            current_temperature: Some(t(19.5)),
            target_temperature: Some(t(20.0)),
            stirrer_on: false,
            heater_on: false,
            serial_problem: false
        }
    );
}

#[test]
fn mock_starts_anew_from_where_it_was() {
    let mut mock = Mock::new(0);
    mock.set_temperature(t(65.0), t(19.75), 4000);
    assert_eq!(
        mock.course(4000),
        Course { from: t(19.75), towards: t(65.0), elapsed_millis: 0 }
    );
    assert_eq!(
        mock.course(10_000),
        Course { from: t(19.75), towards: t(65.0), elapsed_millis: 6000 }
    );
    assert_eq!(mock.read(t(30.0)).target_temperature, Some(t(65.0)));
}

#[test]
fn protocol_errors_in_words() {
    assert_eq!(comm::Error::Nack.message(), "Received NACK");
    assert_eq!(comm::Error::UnexpectedData.message(), "Received unexpected data");
    assert_eq!(comm::Error::TokioIo.message(), "Tokio I/O error");
    assert_eq!(comm::Error::TokioSerial.message(), "Tokio Serial error");
    assert_eq!(comm::Error::Timeout.message(), "Serial I/O timeout");
}

#[test]
fn application_errors_in_words() {
    assert_eq!(AppError::BrewOngoing.message(), "Brew is ongoing");
    assert_eq!(
        AppError::CommError(comm::Error::Nack).message(),
        "Serial communication error: Received NACK"
    );
    assert_eq!(
        AppError::CommError(comm::Error::Timeout).message(),
        "Serial communication error: Serial I/O timeout"
    );
    assert_eq!(AppError::AddrParseError.message(), "Address parse failed");
    assert_eq!(AppError::ConfigurationError.message(), "Could not read configuration");
    assert_eq!(AppError::RecvError.message(), "Internal error");
    assert_eq!(AppError::InvalidHeader.message(), "Invalid header");
    assert_eq!(AppError::IoError.message(), "IO error");
    assert_eq!(AppError::ParseError.message(), "JSON parse error");
    assert_eq!(AppError::SqlError.message(), "Database problem");
    assert_eq!(AppError::SystemTimeError.message(), "System time error");
}
