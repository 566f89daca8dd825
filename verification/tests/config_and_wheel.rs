use mouse2joy::config::{load_config, Config, ConfigSource, DEFAULT_SENSITIVITY};
use mouse2joy::errors::Mouse2JoyError;
use mouse2joy::wheel::{
    wheel_axis_config, wheel_buttons, wheel_name, BTN_SELECT, BTN_START, BTN_TL, BTN_TL2, BTN_TR,
    BTN_TR2,
};

#[test]
fn loaded_configuration_is_used_as_is() {
    let conf = load_config(ConfigSource::Loaded(Config { sensitivity: 7 }));
    assert_eq!(conf.sensitivity, 7);
}

#[test]
fn missing_configuration_falls_back_to_default() {
    let conf = load_config(ConfigSource::Missing);
    assert_eq!(conf.sensitivity, DEFAULT_SENSITIVITY);
}

#[test]
fn unloadable_configuration_falls_back_to_default() {
    let conf = load_config(ConfigSource::Invalid);
    assert_eq!(conf.sensitivity, DEFAULT_SENSITIVITY);
}

#[test]
fn default_configuration_sensitivity() {
    assert_eq!(Config::default().sensitivity, DEFAULT_SENSITIVITY);
}

#[test]
fn wheel_axis_is_a_900_degree_range_without_deadzone() {
    let axis = wheel_axis_config();
    assert_eq!(axis.value, 0);
    assert_eq!(axis.min, -4500);
    assert_eq!(axis.max, 4500);
    assert_eq!(axis.fuzz, 0);
    assert_eq!(axis.flat, 0);
    assert_eq!(axis.resolution, 0);
}

#[test]
fn wheel_registers_under_its_fixed_name() {
    assert_eq!(wheel_name(), "mouse2joy");
}

#[test]
fn wheel_declares_six_reserved_buttons() {
    let buttons = wheel_buttons();
    assert_eq!(buttons, vec![BTN_SELECT, BTN_START, BTN_TL, BTN_TR, BTN_TL2, BTN_TR2]);
    assert_eq!(buttons, vec![314, 315, 310, 311, 312, 313]);
}

#[test]
fn error_messages_name_the_failure() {
    assert_eq!(
        Mouse2JoyError::NoMouseError.message(),
        "Failed to find a mouse device.  Make sure you are running the application with root priviledges."
    );
    assert_eq!(Mouse2JoyError::FailedToReadInput.message(), "Failed to read a mouse input");
}
