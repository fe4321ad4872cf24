use amdgpu_fan::amdgpu::{FileRead, GpuError, Hwmon, Pwm, Temperature};
use amdgpu_fan::regulator::{Action, ControlLoop, Event, Phase};
use std::io::{Error, ErrorKind};

fn device() -> Hwmon {
    Hwmon::new("/sys/h", FileRead::Text("0\n".to_string()), FileRead::Text("255\n".to_string())).unwrap()
}

fn fresh() -> ControlLoop {
    ControlLoop::new(device(), 500)
}

fn io(message: &str) -> Error {
    Error::new(ErrorKind::Other, message.to_string())
}

fn expect_write(control: &mut ControlLoop, path: &str, contents: &str) {
    match control.action() {
        Action::Write(write) => {
            assert_eq!(write.path, path);
            assert_eq!(write.contents, contents);
        }
        other => panic!("expected a write, got {:?}", other),
    }
}

fn expect_manual(control: &mut ControlLoop) {
    expect_write(control, "/sys/h/pwm1_enable", "1");
}

fn expect_automatic(control: &mut ControlLoop) {
    expect_write(control, "/sys/h/pwm1_enable", "2");
}

fn expect_read(control: &mut ControlLoop) {
    match control.action() {
        Action::Read(path) => assert_eq!(path, "/sys/h/temp1_input"),
        other => panic!("expected a read, got {:?}", other),
    }
}

/// A loop that has switched to manual control and begun its first round.
fn sampling() -> ControlLoop {
    let control = fresh().step(Event::Written(Ok(()))).step(Event::Cancellation(false));
    assert!(matches!(control.phase(), Phase::Sampling));
    control
}

#[test]
fn loop_begins_with_the_switch_to_manual_control() {
    let mut control = fresh();
    assert!(matches!(control.phase(), Phase::Idle));
    expect_manual(&mut control);
    expect_manual(&mut control);
    assert!(matches!(control.phase(), Phase::Idle));
    assert!(control.into_outcome().is_none());
}

#[test]
fn loop_cancelled_before_its_first_round() {
    let mut control = fresh();
    expect_manual(&mut control);
    let mut control = control.step(Event::Written(Ok(())));
    assert!(matches!(control.phase(), Phase::ManualEngaged));
    assert!(matches!(control.action(), Action::CheckCancellation));
    let mut control = control.step(Event::Cancellation(true));
    assert!(matches!(control.phase(), Phase::Restoring(Ok(()))));
    expect_automatic(&mut control);
    let mut control = control.step(Event::Written(Ok(())));
    assert!(matches!(control.phase(), Phase::Terminated(Ok(()))));
    assert!(matches!(control.action(), Action::Stop));
    assert!(matches!(control.into_outcome(), Some(Ok(()))));
}

#[test]
fn one_round_of_the_loop() {
    let mut control = sampling();
    expect_read(&mut control);
    let mut control = control.step(Event::Read(FileRead::Text("42000\n".to_string())));
    assert!(matches!(control.phase(), Phase::Computing(Temperature(42000))));
    match control.action() {
        Action::Compute { temperature, min, max } => {
            assert_eq!(temperature, Temperature(42000));
            assert_eq!(min, Pwm(0));
            assert_eq!(max, Pwm(255));
        }
        other => panic!("expected a computation, got {:?}", other),
    }
    let mut control = control.step(Event::Computed(Ok(Pwm(97))));
    assert!(matches!(control.phase(), Phase::Actuating(Pwm(97))));
    expect_write(&mut control, "/sys/h/pwm1", "97\n");
    let mut control = control.step(Event::Written(Ok(())));
    assert!(matches!(control.phase(), Phase::Sleeping));
    assert!(matches!(control.action(), Action::Sleep(500)));
    let mut control = control.step(Event::Cancellation(false));
    assert!(matches!(control.phase(), Phase::Sampling));
    expect_read(&mut control);
    assert!(control.into_outcome().is_none());
}

#[test]
fn loop_cancelled_after_a_round() {
    let control = sampling()
        .step(Event::Read(FileRead::Text("30000".to_string())))
        .step(Event::Computed(Ok(Pwm(12))))
        .step(Event::Written(Ok(())));
    assert!(matches!(control.phase(), Phase::Sleeping));
    let mut control = control.step(Event::Cancellation(true));
    assert!(matches!(control.phase(), Phase::Restoring(Ok(()))));
    expect_automatic(&mut control);
    let control = control.step(Event::Written(Ok(())));
    assert!(matches!(control.into_outcome(), Some(Ok(()))));
}

#[test]
fn failed_read_is_reported_after_the_hand_back() {
    let mut control = sampling().step(Event::Read(FileRead::Failed(io("sensor gone"))));
    match control.phase() {
        Phase::Restoring(Err(GpuError::Io(cause))) => assert_eq!(cause.to_string(), "sensor gone"),
        other => panic!("expected the hand-back, got {:?}", other),
    }
    expect_automatic(&mut control);
    let mut control = control.step(Event::Written(Ok(())));
    assert!(matches!(control.action(), Action::Stop));
    let mut control = control.step(Event::Written(Ok(())));
    assert!(matches!(control.action(), Action::Stop));
    match control.into_outcome() {
        Some(Err(GpuError::Io(cause))) => assert_eq!(cause.to_string(), "sensor gone"),
        other => panic!("expected the error of the read, got {:?}", other),
    }
}

#[test]
fn temperature_that_is_no_number_ends_the_loop() {
    let mut control = sampling().step(Event::Read(FileRead::Text("abc".to_string())));
    expect_automatic(&mut control);
    let control = control.step(Event::Written(Ok(())));
    match control.into_outcome() {
        Some(Err(GpuError::Parse(path, contents))) => {
            assert_eq!(path, "/sys/h/temp1_input");
            assert_eq!(contents.as_deref(), Some("abc"));
        }
        other => panic!("expected a parse error, got {:?}", other),
    }
    let control = sampling().step(Event::Read(FileRead::Text(String::new()))).step(Event::Written(Ok(())));
    match control.into_outcome() {
        Some(Err(GpuError::Parse(path, contents))) => {
            assert_eq!(path, "/sys/h/temp1_input");
            assert_eq!(contents, None);
        }
        other => panic!("expected a parse error, got {:?}", other),
    }
}

#[test]
fn missing_temperature_file_ends_the_loop() {
    let mut control = sampling().step(Event::Read(FileRead::Missing));
    assert!(matches!(control.phase(), Phase::Restoring(Err(GpuError::Parse(_, None)))));
    expect_automatic(&mut control);
    let control = control.step(Event::Written(Ok(())));
    match control.into_outcome() {
        Some(Err(GpuError::Parse(path, contents))) => {
            assert_eq!(path, "/sys/h/temp1_input");
            assert_eq!(contents, None);
        }
        other => panic!("expected a parse error, got {:?}", other),
    }
}

#[test]
fn fan_speed_that_cannot_be_computed_ends_the_loop() {
    let bits = f64::NAN.to_bits();
    let invalid = GpuError::InvalidFanSpeed { min: Pwm(0), max: Pwm(255), percentage_bits: bits };
    let mut control = sampling().step(Event::Read(FileRead::Text("50000\n".to_string()))).step(Event::Computed(Err(invalid)));
    assert!(matches!(control.phase(), Phase::Restoring(Err(GpuError::InvalidFanSpeed { .. }))));
    expect_automatic(&mut control);
    let control = control.step(Event::Written(Ok(())));
    match control.into_outcome() {
        Some(Err(GpuError::InvalidFanSpeed { min, max, percentage_bits })) => {
            assert_eq!(min, Pwm(0));
            assert_eq!(max, Pwm(255));
            assert_eq!(percentage_bits, bits);
            assert!(f64::from_bits(percentage_bits).is_nan());
        }
        other => panic!("expected an invalid fan speed, got {:?}", other),
    }
}

#[test]
fn failed_write_of_the_fan_speed_ends_the_loop() {
    let mut control = sampling()
        .step(Event::Read(FileRead::Text("50000\n".to_string())))
        .step(Event::Computed(Ok(Pwm(200))))
        .step(Event::Written(Err(io("fan stuck"))));
    expect_automatic(&mut control);
    let control = control.step(Event::Written(Ok(())));
    match control.into_outcome() {
        Some(Err(GpuError::Io(cause))) => assert_eq!(cause.to_string(), "fan stuck"),
        other => panic!("expected the error of the write, got {:?}", other),
    }
}

#[test]
fn failed_switch_to_manual_control_ends_the_loop() {
    let mut control = fresh().step(Event::Written(Err(io("read-only"))));
    assert!(matches!(control.phase(), Phase::Restoring(Err(GpuError::Io(_)))));
    expect_automatic(&mut control);
    let mut control = control.step(Event::Written(Err(io("still read-only"))));
    assert!(matches!(control.action(), Action::Stop));
    match control.into_outcome() {
        Some(Err(GpuError::Io(cause))) => assert_eq!(cause.to_string(), "read-only"),
        other => panic!("expected the error of the switch, got {:?}", other),
    }
}

#[test]
fn failed_hand_back_does_not_change_the_outcome() {
    let control = fresh()
        .step(Event::Written(Ok(())))
        .step(Event::Cancellation(true))
        .step(Event::Written(Err(io("hand-back failed"))));
    assert!(matches!(control.into_outcome(), Some(Ok(()))));

    let control = sampling()
        .step(Event::Read(FileRead::Failed(io("first"))))
        .step(Event::Written(Err(io("second"))));
    match control.into_outcome() {
        Some(Err(GpuError::Io(cause))) => assert_eq!(cause.to_string(), "first"),
        other => panic!("expected the first error, got {:?}", other),
    }
}

#[test]
fn event_that_answers_no_action_changes_nothing() {
    let control = fresh().step(Event::Cancellation(true));
    assert!(matches!(control.phase(), Phase::Idle));
    let control = control.step(Event::Read(FileRead::Text("1".to_string())));
    assert!(matches!(control.phase(), Phase::Idle));
    let control = control.step(Event::Computed(Ok(Pwm(1))));
    assert!(matches!(control.phase(), Phase::Idle));

    let control = control.step(Event::Written(Ok(()))).step(Event::Written(Ok(())));
    assert!(matches!(control.phase(), Phase::ManualEngaged));

    let control = sampling().step(Event::Written(Err(io("stray"))));
    assert!(matches!(control.phase(), Phase::Sampling));
    let control = control.step(Event::Cancellation(true));
    assert!(matches!(control.phase(), Phase::Sampling));

    let control = control.step(Event::Read(FileRead::Text("1000".to_string()))).step(Event::Read(FileRead::Text("2000".to_string())));
    assert!(matches!(control.phase(), Phase::Computing(Temperature(1000))));
    let control = control.step(Event::Written(Ok(())));
    assert!(matches!(control.phase(), Phase::Computing(Temperature(1000))));

    let control = control.step(Event::Computed(Ok(Pwm(3)))).step(Event::Computed(Ok(Pwm(4))));
    assert!(matches!(control.phase(), Phase::Actuating(Pwm(3))));
    let control = control.step(Event::Cancellation(true));
    assert!(matches!(control.phase(), Phase::Actuating(Pwm(3))));

    let control = control.step(Event::Written(Ok(()))).step(Event::Written(Ok(())));
    assert!(matches!(control.phase(), Phase::Sleeping));

    let control = control.step(Event::Cancellation(true)).step(Event::Cancellation(false));
    assert!(matches!(control.phase(), Phase::Restoring(Ok(()))));
    let control = control.step(Event::Read(FileRead::Failed(io("stray"))));
    assert!(matches!(control.phase(), Phase::Restoring(Ok(()))));
}

#[test]
fn ended_loop_stays_ended() {
    let control = fresh()
        .step(Event::Written(Ok(())))
        .step(Event::Cancellation(true))
        .step(Event::Written(Ok(())))
        .step(Event::Written(Err(io("late"))))
        .step(Event::Cancellation(false))
        .step(Event::Read(FileRead::Text("1".to_string())))
        .step(Event::Computed(Ok(Pwm(1))));
    assert!(matches!(control.phase(), Phase::Terminated(Ok(()))));
    assert!(matches!(control.into_outcome(), Some(Ok(()))));
}

#[test]
fn hand_back_is_asked_for_exactly_once_in_a_run() {
    let mut control = fresh();
    let mut manual = 0;
    let mut automatic = 0;
    let mut reads = 0;
    let mut rounds = 0;
    loop {
        let event = match control.action() {
            Action::Write(write) => {
                if write.contents == "1" && write.path.ends_with("pwm1_enable") {
                    manual += 1;
                } else if write.contents == "2" && write.path.ends_with("pwm1_enable") {
                    assert_eq!(manual, 1);
                    automatic += 1;
                }
                Event::Written(Ok(()))
            }
            Action::Read(_) => {
                reads += 1;
                assert_eq!(automatic, 0);
                Event::Read(FileRead::Text(format!("{}\n", 40000 + reads)))
            }
            Action::Compute { temperature, min, max } => {
                assert_eq!(temperature, Temperature(40000 + reads));
                Event::Computed(Ok(Pwm((min.as_raw() + max.as_raw()) / 2)))
            }
            Action::CheckCancellation => Event::Cancellation(false),
            Action::Sleep(millis) => {
                assert_eq!(millis, 500);
                rounds += 1;
                Event::Cancellation(rounds == 3)
            }
            Action::Stop => break,
        };
        control = control.step(event);
    }
    assert_eq!(manual, 1);
    assert_eq!(automatic, 1);
    assert_eq!(reads, 3);
    assert!(matches!(control.into_outcome(), Some(Ok(()))));
}
