//! The device surface: ports, sensors, and the addressable LED strip's
//! buffer bookkeeping.

use pros::addrled::{AdiAddrLed, AddrLedError, MAX_LED_LENGTH};
use pros::sensors::{DistanceSensor, GpsError, GpsSensor};
use pros::smart_device::{PortError, SmartPort};

#[test]
fn distance_sensor_accepts_real_ports() {
    let sensor = DistanceSensor::new(5).unwrap();
    assert_eq!(sensor.port, 5);
    assert_eq!(DistanceSensor::new(21).unwrap().port, 21);
}

#[test]
fn distance_sensor_rejects_bad_ports() {
    assert_eq!(DistanceSensor::new(0), Err(PortError::PortOutOfRange));
    assert_eq!(DistanceSensor::new(22), Err(PortError::PortOutOfRange));
}

#[test]
fn gps_sensor_port_validation() {
    assert_eq!(GpsSensor::new(3).unwrap().port, 3);
    assert_eq!(GpsSensor::new(0), Err(GpsError::Port(PortError::PortOutOfRange)));
}

#[test]
fn smart_port_wraps_its_index() {
    let port = SmartPort(7);
    assert_eq!(port.0, 7);
}

#[test]
fn addrled_new_validates_port_and_length() {
    let led = AdiAddrLed::new(1, vec![1, 2, 3]).unwrap();
    assert_eq!(led.port(), 1);
    assert_eq!(led.buffer(), &vec![1, 2, 3]);

    assert_eq!(
        AdiAddrLed::new(9, vec![1]),
        Err(AddrLedError::Adi(PortError::PortOutOfRange))
    );
    let too_long = vec![0u32; MAX_LED_LENGTH + 1];
    assert_eq!(AdiAddrLed::new(2, too_long), Err(AddrLedError::InvalidBufferAccess));
}

#[test]
fn addrled_set_all_and_clear_all() {
    let mut led = AdiAddrLed::new(2, vec![1, 2, 3, 4]).unwrap();
    led.set_all(0x00FF00).unwrap();
    assert_eq!(led.buffer(), &vec![0x00FF00; 4]);
    led.clear_all().unwrap();
    assert_eq!(led.buffer(), &vec![0; 4]);
}

#[test]
fn addrled_set_buffer_replaces_and_checks_length() {
    let mut led = AdiAddrLed::new(3, vec![9, 9]).unwrap();
    led.set_buffer(vec![5, 6, 7]).unwrap();
    assert_eq!(led.buffer(), &vec![5, 6, 7]);

    let too_long = vec![0u32; MAX_LED_LENGTH + 1];
    assert_eq!(led.set_buffer(too_long), Err(AddrLedError::InvalidBufferAccess));
    assert_eq!(led.buffer(), &vec![5, 6, 7]);
}

#[test]
fn addrled_pixel_updates_one_diode() {
    let mut led = AdiAddrLed::new(4, vec![1, 2, 3]).unwrap();
    led.set_pixel(1, 0xAA).unwrap();
    assert_eq!(led.buffer(), &vec![1, 0xAA, 3]);
    led.clear_pixel(0).unwrap();
    assert_eq!(led.buffer(), &vec![0, 0xAA, 3]);

    assert_eq!(led.set_pixel(3, 1), Err(AddrLedError::InvalidBufferAccess));
    assert_eq!(led.clear_pixel(17), Err(AddrLedError::InvalidBufferAccess));
    assert_eq!(led.buffer(), &vec![0, 0xAA, 3]);
}
