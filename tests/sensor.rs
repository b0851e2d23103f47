use cube_handler::sensor::SensorCache;

#[test]
fn sensor_starts_false() {
    assert!(!SensorCache::new().read());
}

#[test]
fn sensor_last_write_wins() {
    let mut c = SensorCache::new();
    c.update(true);
    c.update(false);
    assert!(!c.read());
    c.update(false);
    c.update(true);
    assert!(c.read());
}
