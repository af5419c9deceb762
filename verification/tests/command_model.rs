use razer_control::args::{
    AcState, BreathingParams, LogoParams, OnOff, PowerParams, StarlightParams, WaveParams,
};
use razer_control::error::ErrorKind;

#[test]
fn wave_direction_one_succeeds() {
    let w = WaveParams::new(1).unwrap();
    assert_eq!(w.direction, 1);
    let w0 = WaveParams::new(0).unwrap();
    assert_eq!(w0.direction, 0);
}

#[test]
fn wave_direction_two_is_rejected() {
    let r = WaveParams::new(2);
    assert_eq!(r, Err(ErrorKind::InvalidArgument(String::from("direction"))));
}

#[test]
fn breathing_kind_domain() {
    let ok = BreathingParams::new(2, 1, 2, 3, 4, 5, 6).unwrap();
    assert_eq!(ok.kind, 2);
    assert_eq!(ok.red1, 1);
    assert_eq!(ok.blue2, 6);
    let r = BreathingParams::new(3, 1, 2, 3, 4, 5, 6);
    assert_eq!(r, Err(ErrorKind::InvalidArgument(String::from("kind"))));
}

#[test]
fn starlight_kind_domain() {
    let ok = StarlightParams::new(0, 128, 1, 2, 3, 4, 5, 6).unwrap();
    assert_eq!(ok.kind, 0);
    assert_eq!(ok.speed, 128);
    let r = StarlightParams::new(3, 128, 1, 2, 3, 4, 5, 6);
    assert_eq!(r, Err(ErrorKind::InvalidArgument(String::from("kind"))));
}

#[test]
fn power_level_domain() {
    let ok = PowerParams::new(AcState::Ac, 4, Some(3), Some(2)).unwrap();
    assert_eq!(ok.pwr, 4);
    assert_eq!(ok.cpu_mode, Some(3));
    assert_eq!(ok.gpu_mode, Some(2));
    let r = PowerParams::new(AcState::Ac, 5, None, None);
    assert_eq!(r, Err(ErrorKind::InvalidArgument(String::from("pwr"))));
}

#[test]
fn power_boost_domains() {
    let r = PowerParams::new(AcState::Bat, 0, Some(4), None);
    assert_eq!(r, Err(ErrorKind::InvalidArgument(String::from("cpu_mode"))));
    let r = PowerParams::new(AcState::Bat, 0, Some(3), Some(3));
    assert_eq!(r, Err(ErrorKind::InvalidArgument(String::from("gpu_mode"))));
    let ok = PowerParams::new(AcState::Bat, 0, None, None).unwrap();
    assert_eq!(ok.cpu_mode, None);
    assert_eq!(ok.gpu_mode, None);
}

#[test]
fn logo_mode_domain() {
    let ok = LogoParams::new(AcState::Ac, 2).unwrap();
    assert_eq!(ok.logo_state, 2);
    let r = LogoParams::new(AcState::Ac, 3);
    assert_eq!(r, Err(ErrorKind::InvalidArgument(String::from("logo_state"))));
    let r = LogoParams::new(AcState::Ac, -1);
    assert_eq!(r, Err(ErrorKind::InvalidArgument(String::from("logo_state"))));
}

#[test]
fn on_off_is_on() {
    assert!(OnOff::On.is_on());
    assert!(!OnOff::Off.is_on());
}
