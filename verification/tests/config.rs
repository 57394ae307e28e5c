use target_tester::config::Config;
use target_tester::config::Interface;
use target_tester::config::Speed;

#[test]
fn a_config_of_target_and_interface_has_defaults() {
    let config = Config::new(Interface::SWD, "STM32F105");
    assert_eq!(config.interface, Interface::SWD);
    assert_eq!(config.target, "STM32F105");
    assert_eq!(config.vector_table_offset, 0);
    assert!(matches!(config.target_description, None));
    assert!(matches!(config.speed, Speed::Auto));
}

#[test]
fn the_default_speed_is_auto() {
    assert_eq!(Speed::default(), Speed::Auto);
}

#[test]
fn the_clock_of_each_speed() {
    assert_eq!(Speed::Auto.khz(), Some(4000));
    assert_eq!(Speed::KHz(1800).khz(), Some(1800));
    assert_eq!(Speed::KHz(0).khz(), Some(0));
    assert_eq!(Speed::KHz(u16::MAX).khz(), Some(65535));
    assert_eq!(Speed::Adaptive.khz(), None);
}
