use veml6075::{
    Call, DynamicSetting, Error, IntegrationTime, Mode, RawMeasurement, Reply, ScriptError,
    ScriptedBus, Transport, Veml6075,
};

fn done() -> Reply {
    Reply { ok: true, response: [0, 0] }
}

fn data(response: [u8; 2]) -> Reply {
    Reply { ok: true, response }
}

fn refuse() -> Reply {
    Reply { ok: false, response: [0xEE, 0xEE] }
}

fn config_write(value: u8, result: Result<(), ScriptError>) -> Call {
    Call::Write { address: 0x10, bytes: vec![0x00, value, 0x00], result }
}

fn register_read(register: u8, response: [u8; 2], result: Result<(), ScriptError>) -> Call {
    Call::WriteRead { address: 0x10, request: vec![register], response, result }
}

#[test]
fn scripted_bus_answers_in_order_and_keeps_the_calls() {
    let mut bus = ScriptedBus::new(vec![done(), refuse(), data([0x12, 0x34]), refuse()]);
    assert!(bus.calls().is_empty());

    assert_eq!(bus.write(0x22, &[1, 2, 3]), Ok(()));
    assert_eq!(bus.write(0x23, &[]), Err(ScriptError::Refused));
    let mut response = [0xAA, 0xBB];
    assert_eq!(bus.write_read(0x24, &[9], &mut response), Ok(()));
    assert_eq!(response, [0x12, 0x34]);
    let mut untouched = [0xAA, 0xBB];
    assert_eq!(bus.write_read(0x25, &[8, 7], &mut untouched), Err(ScriptError::Refused));
    assert_eq!(untouched, [0xAA, 0xBB]);

    assert_eq!(
        bus.calls(),
        &vec![
            Call::Write { address: 0x22, bytes: vec![1, 2, 3], result: Ok(()) },
            Call::Write { address: 0x23, bytes: vec![], result: Err(ScriptError::Refused) },
            Call::WriteRead {
                address: 0x24,
                request: vec![9],
                response: [0x12, 0x34],
                result: Ok(()),
            },
            Call::WriteRead {
                address: 0x25,
                request: vec![8, 7],
                response: [0xAA, 0xBB],
                result: Err(ScriptError::Refused),
            },
        ]
    );
}

#[test]
fn scripted_bus_fails_when_the_script_is_used_up() {
    let mut bus = ScriptedBus::new(vec![done()]);
    assert_eq!(bus.write(0x10, &[0]), Ok(()));
    assert_eq!(bus.write(0x10, &[1]), Err(ScriptError::Exhausted));
    let mut response = [5, 6];
    assert_eq!(bus.write_read(0x10, &[2], &mut response), Err(ScriptError::Exhausted));
    assert_eq!(response, [5, 6]);
    assert_eq!(bus.calls().len(), 3);

    let mut empty = ScriptedBus::new(Vec::new());
    assert_eq!(empty.write(0x10, &[0]), Err(ScriptError::Exhausted));
}

#[test]
fn driver_sends_nothing_until_asked() {
    let dev = Veml6075::new(ScriptedBus::new(vec![done()]));
    let bus = dev.destroy();
    assert!(bus.calls().is_empty());
}

#[test]
fn driver_keeps_traffic_that_was_there_before() {
    let mut bus = ScriptedBus::new(vec![done(), done()]);
    assert_eq!(bus.write(0x55, &[7]), Ok(()));
    let mut dev = Veml6075::new(bus);
    dev.enable().unwrap();
    let bus = dev.destroy();
    assert_eq!(
        bus.calls(),
        &vec![
            Call::Write { address: 0x55, bytes: vec![7], result: Ok(()) },
            config_write(0x00, Ok(())),
        ]
    );
}

#[test]
fn every_setting_is_one_configuration_write() {
    let mut dev = Veml6075::new(ScriptedBus::new(vec![done(); 6]));
    dev.enable().unwrap();
    dev.set_mode(Mode::ActiveForce).unwrap();
    dev.set_integration_time(IntegrationTime::Ms200).unwrap();
    dev.set_dynamic_setting(DynamicSetting::High).unwrap();
    dev.trigger_measurement().unwrap();
    dev.disable().unwrap();
    let bus = dev.destroy();
    assert_eq!(
        bus.calls(),
        &vec![
            config_write(0b0000_0000, Ok(())),
            config_write(0b0000_0100, Ok(())),
            config_write(0b0010_0100, Ok(())),
            config_write(0b0010_1100, Ok(())),
            config_write(0b0010_1110, Ok(())),
            config_write(0b0010_1101, Ok(())),
        ]
    );
}

#[test]
fn integration_time_codes_on_the_wire() {
    let times = [
        (IntegrationTime::Ms50, 0b0000_0001),
        (IntegrationTime::Ms100, 0b0001_0001),
        (IntegrationTime::Ms200, 0b0010_0001),
        (IntegrationTime::Ms400, 0b0011_0001),
        (IntegrationTime::Ms800, 0b0100_0001),
    ];
    for (it, byte) in times {
        let mut dev = Veml6075::new(ScriptedBus::new(vec![done()]));
        dev.set_integration_time(it).unwrap();
        assert_eq!(dev.destroy().calls(), &vec![config_write(byte, Ok(()))]);
    }
}

#[test]
fn refused_write_is_sent_but_not_taken_as_shadow() {
    let mut dev = Veml6075::new(ScriptedBus::new(vec![refuse(), done(), refuse(), done()]));
    assert!(matches!(dev.enable(), Err(Error::I2C(ScriptError::Refused))));
    dev.set_mode(Mode::ActiveForce).unwrap();
    assert!(matches!(dev.trigger_measurement(), Err(Error::I2C(ScriptError::Refused))));
    dev.set_dynamic_setting(DynamicSetting::High).unwrap();
    assert!(matches!(dev.disable(), Err(Error::I2C(ScriptError::Exhausted))));
    let bus = dev.destroy();
    assert_eq!(
        bus.calls(),
        &vec![
            config_write(0b0000_0000, Err(ScriptError::Refused)),
            config_write(0b0000_0101, Ok(())),
            config_write(0b0000_0111, Err(ScriptError::Refused)),
            config_write(0b0000_1101, Ok(())),
            config_write(0b0000_1101, Err(ScriptError::Exhausted)),
        ]
    );
}

#[test]
fn each_register_read_is_one_write_read() {
    let mut dev = Veml6075::new(ScriptedBus::new(vec![data([0xCD, 0xAB]); 5]));
    assert_eq!(dev.read_uva().unwrap(), 0xABCD);
    assert_eq!(dev.read_uvb().unwrap(), 0xABCD);
    assert_eq!(dev.read_uvcomp1().unwrap(), 0xABCD);
    assert_eq!(dev.read_uvcomp2().unwrap(), 0xABCD);
    assert_eq!(dev.read_device_id().unwrap(), 0xABCD);
    let bus = dev.destroy();
    assert_eq!(
        bus.calls(),
        &vec![
            register_read(0x07, [0xCD, 0xAB], Ok(())),
            register_read(0x09, [0xCD, 0xAB], Ok(())),
            register_read(0x0A, [0xCD, 0xAB], Ok(())),
            register_read(0x0B, [0xCD, 0xAB], Ok(())),
            register_read(0x0C, [0xCD, 0xAB], Ok(())),
        ]
    );
}

#[test]
fn read_all_reads_the_four_channels_in_order() {
    let script = vec![data([0x34, 0x12]), data([0x78, 0x56]), data([0xBC, 0x9A]), data([0xF0, 0xDE])];
    let mut dev = Veml6075::new(ScriptedBus::new(script));
    assert_eq!(
        dev.read_all().unwrap(),
        RawMeasurement { uva: 0x1234, uvb: 0x5678, uvcomp1: 0x9ABC, uvcomp2: 0xDEF0 }
    );
    let bus = dev.destroy();
    assert_eq!(
        bus.calls(),
        &vec![
            register_read(0x07, [0x34, 0x12], Ok(())),
            register_read(0x09, [0x78, 0x56], Ok(())),
            register_read(0x0A, [0xBC, 0x9A], Ok(())),
            register_read(0x0B, [0xF0, 0xDE], Ok(())),
        ]
    );
}

#[test]
fn read_all_makes_no_call_after_the_first_failure() {
    for failing in 0..4usize {
        let mut script = vec![data([1, 0]); 4];
        script[failing] = refuse();
        let mut dev = Veml6075::new(ScriptedBus::new(script));
        assert!(matches!(dev.read_all(), Err(Error::I2C(ScriptError::Refused))));
        let bus = dev.destroy();
        assert_eq!(bus.calls().len(), failing + 1);
        let registers = [0x07, 0x09, 0x0A, 0x0B];
        for (i, call) in bus.calls().iter().enumerate() {
            let result = if i == failing { Err(ScriptError::Refused) } else { Ok(()) };
            let response = if i == failing { [0, 0] } else { [1, 0] };
            assert_eq!(call, &register_read(registers[i], response, result));
        }
    }
}
