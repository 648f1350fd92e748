use sdl3_gamepad::cstr::to_c_string;
use sdl3_gamepad::error::{AddMappingError, IntegerOrSdlError};
use sdl3_gamepad::gamepad::{effect_length, sensor_data_length, GamepadSubsystem, MappingStatus};

fn subsystem() -> GamepadSubsystem<u8> {
    GamepadSubsystem::new(7u8)
}

fn err() -> String {
    String::from("SDL failed")
}

#[test]
fn num_gamepads_counts_or_fails() {
    assert_eq!(subsystem().num_gamepads(Some(3), err()), Ok(3));
    assert_eq!(subsystem().num_gamepads(Some(0), err()), Ok(0));
    assert_eq!(subsystem().num_gamepads(None, err()), Err(err()));
}

#[test]
fn open_keeps_handle_and_subsystem() {
    let s = subsystem();
    let g = s.open(Some(0xdead_usize), err()).ok().unwrap();
    assert_eq!(*g.raw(), 0xdead);
    let _ = g.subsystem();
    match s.open::<usize>(None, err()) {
        Err(IntegerOrSdlError::SdlError(m)) => assert_eq!(m, err()),
        _ => panic!("a null handle opens nothing"),
    }
}

#[test]
fn name_for_index_needs_a_name() {
    assert_eq!(subsystem().name_for_index(Some(String::from("Pad")), err()), Ok(String::from("Pad")));
    assert_eq!(subsystem().name_for_index(None, err()), Err(IntegerOrSdlError::SdlError(err())));
}

#[test]
fn add_mapping_statuses() {
    let s = subsystem();
    assert_eq!(s.add_mapping(Ok(1), err()).unwrap(), MappingStatus::Added);
    assert_eq!(s.add_mapping(Ok(0), err()).unwrap(), MappingStatus::Updated);
    match s.add_mapping(Ok(-1), err()) {
        Err(AddMappingError::SdlError(m)) => assert_eq!(m, err()),
        _ => panic!("-1 is an SDL error"),
    }
    match s.add_mapping(Ok(2), err()) {
        Err(AddMappingError::SdlError(_)) => {}
        _ => panic!("2 is an SDL error"),
    }
}

#[test]
fn add_mapping_rejects_nul() {
    let nul = to_c_string("030000005e0400008e02000014010000,X360\0").unwrap_err();
    match subsystem().add_mapping(Err(nul), err()) {
        Err(AddMappingError::InvalidMapping(e)) => assert_eq!(e.nul_position(), 37),
        _ => panic!("a nul byte is an invalid mapping"),
    }
}

#[test]
fn load_mappings_results() {
    let s = subsystem();
    assert_eq!(s.load_mappings(Ok(12), err()).unwrap(), 12);
    assert_eq!(s.load_mappings(Ok(0), err()).unwrap(), 0);
    match s.load_mappings(Ok(-1), err()) {
        Err(AddMappingError::SdlError(m)) => assert_eq!(m, err()),
        _ => panic!("-1 is an SDL error"),
    }
    match s.load_mappings(Err(String::from("no such file")), err()) {
        Err(AddMappingError::InvalidFilePath(p)) => assert_eq!(p, "no such file"),
        _ => panic!("a file that does not open is an invalid path"),
    }
}

#[test]
fn load_mappings_from_read_results() {
    let s = subsystem();
    assert_eq!(s.load_mappings_from_read(Ok(4), err()).unwrap(), 4);
    match s.load_mappings_from_read(Err(String::from("broken pipe")), err()) {
        Err(AddMappingError::ReadError(m)) => assert_eq!(m, "broken pipe"),
        _ => panic!("a failed read is a read error"),
    }
    match s.load_mappings_from_read(Ok(-1), err()) {
        Err(AddMappingError::SdlError(_)) => {}
        _ => panic!("-1 is an SDL error"),
    }
}

#[test]
fn load_mappings_from_rw_results() {
    let s = subsystem();
    assert_eq!(s.load_mappings_from_rw(3, err()).unwrap(), 3);
    assert_eq!(s.load_mappings_from_rw(-2, err()).unwrap(), -2);
    assert!(matches!(s.load_mappings_from_rw(-1, err()), Err(AddMappingError::SdlError(_))));
}

#[test]
fn mapping_for_guid_results() {
    let s = subsystem();
    assert_eq!(s.mapping_for_guid(Some(String::from("m")), err()), Ok(String::from("m")));
    assert_eq!(s.mapping_for_guid(None, err()), Err(err()));
}

#[test]
fn gamepad_status_methods() {
    let mut g = subsystem().open(Some(1u32), err()).ok().unwrap();
    assert_eq!(g.set_rumble(true, err()), Ok(()));
    assert_eq!(g.set_rumble(false, err()), Err(IntegerOrSdlError::SdlError(err())));
    assert_eq!(g.set_rumble_triggers(true, err()), Ok(()));
    assert_eq!(g.set_rumble_triggers(false, err()), Err(IntegerOrSdlError::SdlError(err())));
    assert_eq!(g.set_led(true, err()), Ok(()));
    assert_eq!(g.set_led(false, err()), Err(IntegerOrSdlError::SdlError(err())));
    assert_eq!(g.send_effect(true, err()), Ok(()));
    assert_eq!(g.send_effect(false, err()), Err(err()));
    assert_eq!(g.sensor_set_enabled(true, err()), Ok(()));
    assert_eq!(g.sensor_set_enabled(false, err()), Err(IntegerOrSdlError::SdlError(err())));
    assert_eq!(*g.raw(), 1);
}

#[test]
fn gamepad_name_and_mapping() {
    let g = subsystem().open(Some(()), err()).ok().unwrap();
    assert_eq!(g.name(Some(String::from("DualSense"))), "DualSense");
    assert_eq!(g.name(None), "");
    assert_eq!(g.mapping(Some(String::from("a:b0"))), "a:b0");
    assert_eq!(g.mapping(None), "");
}

#[test]
fn effect_length_is_byte_count() {
    assert_eq!(effect_length(&[1, 2, 3]), 3);
    assert_eq!(effect_length(&[]), 0);
}

#[test]
fn sensor_data_results() {
    let g = subsystem().open(Some(5i64), err()).ok().unwrap();
    assert_eq!(g.sensor_get_data(true, err()), Ok(()));
    assert_eq!(g.sensor_get_data(false, err()), Err(IntegerOrSdlError::SdlError(err())));
}

#[test]
fn mapping_status_values_are_sdl_codes() {
    assert_eq!(MappingStatus::Added as i32, 1);
    assert_eq!(MappingStatus::Updated as i32, 0);
}

#[test]
fn sensor_data_length_fits_or_is_refused() {
    assert_eq!(sensor_data_length(3), Some(3));
    assert_eq!(sensor_data_length(0), Some(0));
    assert_eq!(sensor_data_length(i32::MAX as usize), Some(i32::MAX));
    assert_eq!(sensor_data_length(i32::MAX as usize + 1), None);
}
