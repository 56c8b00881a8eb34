use sdm72_lib::protocol::{gate_settings_write, KPPA, Password, SystemType};

fn words_of_code(code: u16) -> Vec<u16> {
    let bits = (code as f32).to_bits();
    vec![(bits >> 16) as u16, (bits & 0xFFFF) as u16]
}

#[test]
fn grant_required_mirrors_the_state() {
    assert!(KPPA::NotAuthorized.grant_required());
    assert!(!KPPA::Authorized.grant_required());
}

#[test]
fn gate_blocks_writes_while_not_authorized() {
    let words = SystemType::Type1P2W.encode_for_write_registers();
    assert_eq!(gate_settings_write(&KPPA::NotAuthorized, words), None);
}

#[test]
fn gate_releases_writes_while_authorized() {
    let words = SystemType::Type1P2W.encode_for_write_registers();
    assert_eq!(
        gate_settings_write(&KPPA::Authorized, words.clone()),
        Some(words)
    );
}

#[test]
fn authorization_gate_scenario() {
    // the device owns the authorization state and a stored password
    let device_password: u16 = 1000;
    let mut device_gate_code: u16 = 0;

    // the caller reads the state and finds it closed
    let state = KPPA::decode_from_holding_registers(&words_of_code(device_gate_code)).unwrap();
    assert_eq!(state, KPPA::NotAuthorized);

    // a mutating write routed through the authorization check is never attempted
    let words = SystemType::Type1P2W.encode_for_write_registers();
    assert_eq!(gate_settings_write(&state, words.clone()), None);

    // the caller writes the correct password to the authorization register;
    // the device grants access when the written words carry its password
    assert!(state.grant_required());
    let written = KPPA::encode_for_write_registers(Password::try_from(device_password).unwrap());
    if written == Password(device_password).encode_for_write_registers() {
        device_gate_code = 1;
    }

    // the next state read finds authorization granted, and the write is released
    let state = KPPA::decode_from_holding_registers(&words_of_code(device_gate_code)).unwrap();
    assert_eq!(state, KPPA::Authorized);
    assert_eq!(gate_settings_write(&state, words.clone()), Some(words));
}

#[test]
fn wrong_password_leaves_the_gate_closed() {
    let device_password: u16 = 1000;
    let mut device_gate_code: u16 = 0;

    // a failed grant is only observable by re-reading the state
    let written = KPPA::encode_for_write_registers(Password::try_from(42).unwrap());
    if written == Password(device_password).encode_for_write_registers() {
        device_gate_code = 1;
    }
    let state = KPPA::decode_from_holding_registers(&words_of_code(device_gate_code)).unwrap();
    assert_eq!(state, KPPA::NotAuthorized);
}
