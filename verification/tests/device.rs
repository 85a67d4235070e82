use rmk::event::PointingSetCpiEvent;
use rmk::pointing::device::{
    InitState, InitStep, MotionData, PointingDevice, PointingDriverError, MAX_INIT_RETRIES,
};

struct DummyDriver {
    motion_pending: bool,
    motion: MotionData,
    init_called: bool,
    fails_init: bool,
    read_called: bool,
}

impl DummyDriver {
    fn init(&mut self) -> Result<(), PointingDriverError> {
        self.init_called = true;
        if self.fails_init {
            Err(PointingDriverError::InitFailed)
        } else {
            Ok(())
        }
    }

    fn read_motion(&mut self) -> Result<MotionData, PointingDriverError> {
        self.read_called = true;
        Ok(self.motion)
    }
}

fn device(init_state: InitState, poll_interval_ms: u64) -> PointingDevice {
    PointingDevice {
        init_state,
        poll_interval: poll_interval_ms * 1000,
        id: 1,
        report_interval: 1000,
        last_poll: 0,
        last_report: 0,
        accumulated_x: 0,
        accumulated_y: 0,
    }
}

fn try_init(device: &mut PointingDevice, driver: &mut DummyDriver) -> bool {
    match device.begin_init() {
        InitStep::Settled(ready) => ready,
        InitStep::RunSensorInit => {
            let ok = driver.init().is_ok();
            device.finish_init(ok)
        }
    }
}

fn poll_once(device: &mut PointingDevice, driver: &mut DummyDriver) {
    if device.reads_motion(driver.motion_pending) {
        let read = driver.read_motion();
        device.apply_motion(read);
    }
}

#[test]
fn test_try_init_retries_and_fails() {
    let mut driver = DummyDriver {
        motion_pending: true,
        motion: MotionData { dx: 10, dy: -5 },
        init_called: false,
        fails_init: true,
        read_called: false,
    };
    let mut device = device(InitState::Pending, 1);

    let mut result = false;
    for i in 0..MAX_INIT_RETRIES {
        result = try_init(&mut device, &mut driver);

        if i + 1 < MAX_INIT_RETRIES {
            assert_eq!(device.init_state, InitState::Initializing(i + 1));
            assert!(!result, "Init should not succeed yet on attempt {}", i + 1);
        } else {
            assert_eq!(device.init_state, InitState::Failed);
            assert!(!result, "Init should fail after max retries");
        }
    }
    assert!(!result);
    assert_eq!(device.init_state, InitState::Failed);
}

#[test]
fn test_try_init_sets_state() {
    let mut driver = DummyDriver {
        motion_pending: true,
        motion: MotionData { dx: 10, dy: -5 },
        init_called: false,
        fails_init: false,
        read_called: false,
    };
    let mut device = device(InitState::Pending, 1);

    let result = try_init(&mut device, &mut driver);
    assert!(result, "Init should succeed");
    assert_eq!(device.init_state, InitState::Ready);
    assert!(driver.init_called, "Driver init should be called");
}

#[test]
fn test_poll_once_accumulate_motion() {
    let mut driver = DummyDriver {
        motion_pending: true,
        motion: MotionData { dx: 10, dy: -5 },
        init_called: false,
        fails_init: false,
        read_called: false,
    };
    let mut device = device(InitState::Pending, 1);

    let inited = try_init(&mut device, &mut driver);
    assert!(inited);
    assert_eq!(device.init_state, InitState::Ready);
    assert!(driver.init_called);

    poll_once(&mut device, &mut driver);
    assert_eq!(device.accumulated_x, 10);
    assert_eq!(device.accumulated_y, -5);
}

#[test]
fn test_polling_without_motion_pin_generates_event() {
    let mut driver = DummyDriver {
        motion_pending: true,
        motion: MotionData { dx: 3, dy: -2 },
        read_called: false,
        init_called: true,
        fails_init: false,
    };
    let mut device = device(InitState::Ready, 1);

    // The clock moves on by what the device asks to wait.
    let mut now = 5_000u64;
    device.start_clocks(now);
    let event = loop {
        let poll = device.poll_delay(now);
        match device.report_delay(now) {
            Some(report) if report <= poll => {
                now += report;
                if let Some(event) = device.report_due(now) {
                    break event;
                }
            }
            _ => {
                now += poll;
                poll_once(&mut device, &mut driver);
                device.polled(now);
            }
        }
    };

    let axes = &event.axes;
    assert_eq!(axes[0].value, 3);
    assert_eq!(axes[1].value, -2);

    assert!(driver.read_called);
}

#[test]
fn test_polling_with_motion_pin_generates_event() {
    let mut driver = DummyDriver {
        motion_pending: true,
        motion: MotionData { dx: 10, dy: -5 },
        init_called: false,
        fails_init: false,
        read_called: false,
    };
    let mut device = device(InitState::Pending, 10000);
    assert!(try_init(&mut device, &mut driver));

    let start = 5_000u64;
    let mut now = start;
    device.start_clocks(now);
    // The motion pin goes low after half a second, long before the next poll is due.
    assert!(device.poll_delay(now) > 500_000);
    now += 500_000;
    poll_once(&mut device, &mut driver);
    now += device.report_delay(now).unwrap();
    let event = device.report_due(now).unwrap();

    let axes = &event.axes;
    assert_eq!(axes[0].value, 10);
    assert_eq!(axes[1].value, -5);
    let duration_ms = (now - start) / 1000;
    assert!(
        duration_ms <= 1000,
        "the event took too long: {}ms. Expected to be ~500ms due to motion pin triggering.",
        duration_ms
    );

    assert!(driver.read_called);
}

#[test]
fn only_ready_sensors_with_a_sample_are_read() {
    assert!(device(InitState::Ready, 1).reads_motion(true));
    assert!(!device(InitState::Ready, 1).reads_motion(false));
    assert!(!device(InitState::Pending, 1).reads_motion(true));
    assert!(!device(InitState::Failed, 1).reads_motion(true));
}

#[test]
fn failed_reads_add_no_motion() {
    let mut device = device(InitState::Ready, 1);
    device.apply_motion(Ok(MotionData { dx: 7, dy: 9 }));
    device.apply_motion(Err(PointingDriverError::Spi));
    assert_eq!((device.accumulated_x, device.accumulated_y), (7, 9));
}

#[test]
fn a_report_takes_the_motion() {
    let mut device = device(InitState::Ready, 1);
    assert!(device.take_report_event().is_none());
    device.apply_motion(Ok(MotionData { dx: -4, dy: 0 }));
    let event = device.take_report_event().unwrap();
    assert_eq!(event.device_id, 1);
    assert_eq!(event.axes[0].value, -4);
    assert!(device.take_report_event().is_none());
}

#[test]
fn settled_devices_are_not_initialised_again() {
    assert_eq!(device(InitState::Ready, 1).begin_init(), InitStep::Settled(true));
    assert_eq!(device(InitState::Failed, 1).begin_init(), InitStep::Settled(false));
}

#[test]
fn resolution_changes_concern_one_device() {
    let device = device(InitState::Ready, 1);
    assert_eq!(device.on_pointing_set_cpi_event(PointingSetCpiEvent { device_id: 1, cpi: 800 }), Some(800));
    assert_eq!(device.on_pointing_set_cpi_event(PointingSetCpiEvent { device_id: 2, cpi: 800 }), None);
}

#[test]
fn default_motion_is_none() {
    assert_eq!(MotionData::default(), MotionData { dx: 0, dy: 0 });
}
