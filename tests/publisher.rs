use scl3300_tiltsensor::angle::AngleSample;
use scl3300_tiltsensor::publisher::SampleSlot;

#[test]
fn second_publish_overwrites_the_first() {
    let mut slot = SampleSlot::new();
    slot.publish(AngleSample::new(100, 200, 300));
    slot.publish(AngleSample::new(-1, -2, -3));
    assert_eq!(slot.poll_latest(), Some(AngleSample::new(-1, -2, -3)));
}

#[test]
fn read_without_new_publish_finds_nothing() {
    let mut slot = SampleSlot::new();
    assert_eq!(slot.poll_latest(), None);
    slot.publish(AngleSample::new(1, 2, 3));
    assert_eq!(slot.poll_latest(), Some(AngleSample::new(1, 2, 3)));
    assert_eq!(slot.poll_latest(), None);
    slot.publish(AngleSample::new(4, 5, 6));
    assert_eq!(slot.poll_latest(), Some(AngleSample::new(4, 5, 6)));
}
