use sdm72_lib::protocol::BaudRate;
use sdm72_lib::rtu::{check_rtu_delay, minimum_rtu_delay};

#[test]
fn rtu_delay() {
    assert_eq!(minimum_rtu_delay(&BaudRate::B1200) / 1000, 32);
    assert_eq!(minimum_rtu_delay(&BaudRate::B2400) / 1000, 16);
    assert_eq!(minimum_rtu_delay(&BaudRate::B4800) / 1000, 8);
    assert_eq!(minimum_rtu_delay(&BaudRate::B9600) / 1000, 4);
    assert_eq!(minimum_rtu_delay(&BaudRate::B19200) / 1000, 2);
}

#[test]
fn rtu_delay_exact_microseconds() {
    assert_eq!(minimum_rtu_delay(&BaudRate::B1200), 32_000);
    assert_eq!(minimum_rtu_delay(&BaudRate::B19200), 2_000);
}

#[test]
fn rtu_delay_clamps_low_requests() {
    // below the floor: the floor is substituted
    assert_eq!(check_rtu_delay(1_000, &BaudRate::B9600), 4_000);
    assert_eq!(check_rtu_delay(0, &BaudRate::B1200), 32_000);
    // at or above the floor: the request passes through unchanged
    assert_eq!(check_rtu_delay(4_000, &BaudRate::B9600), 4_000);
    assert_eq!(check_rtu_delay(50_000, &BaudRate::B9600), 50_000);
}
