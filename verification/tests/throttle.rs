use sbzdeck::coordinator::{ChangeEvent, RawState};
use sbzdeck::device::{Configuration, EndpointConfiguration};
use sbzdeck::throttle::{SaveThrottle, SAVE_SPACING};
use sbzdeck::value::ParamValue;

#[test]
fn first_trigger_opens_a_window() {
    let mut throttle = SaveThrottle::new();
    assert_eq!(throttle.wake_at(), None);
    assert!(!throttle.poll(0));
    throttle.trigger(0);
    assert_eq!(throttle.wake_at(), Some(5000));
    assert!(!throttle.poll(0));
    assert!(!throttle.poll(4999));
    assert!(throttle.poll(5000));
    assert_eq!(throttle.wake_at(), None);
    assert!(!throttle.poll(5001));
}

#[test]
fn burst_on_an_idle_throttle_saves_once() {
    assert_eq!(SAVE_SPACING, 5000);
    let mut throttle = SaveThrottle::new();
    let mut saves = 0;
    for now in [1000u64, 1001, 1500, 2000, 5999] {
        throttle.trigger(now);
        assert_eq!(throttle.wake_at(), Some(6000));
        if throttle.poll(now) {
            saves += 1;
        }
    }
    assert_eq!(saves, 0);
    assert!(throttle.poll(6000));
    assert!(!throttle.poll(6000));
    assert!(!throttle.poll(20000));
    assert_eq!(throttle.wake_at(), None);
}

#[test]
fn saves_keep_the_spacing() {
    let mut throttle = SaveThrottle::new();
    throttle.trigger(0);
    assert!(throttle.poll(7000));
    // a trigger right after a save waits for the spacing after the save, at least
    throttle.trigger(7001);
    assert_eq!(throttle.wake_at(), Some(12001));
    assert!(!throttle.poll(12000));
    assert!(throttle.poll(12001));
    // a trigger long after a save opens a window of its own
    throttle.trigger(100_000);
    assert_eq!(throttle.wake_at(), Some(105_000));
    throttle.trigger(104_000);
    assert_eq!(throttle.wake_at(), Some(105_000));
    assert!(!throttle.poll(104_999));
    assert!(throttle.poll(105_000));
}

#[test]
fn spacing_saturates_at_the_end_of_time() {
    let mut throttle = SaveThrottle::new();
    throttle.trigger(u64::MAX - 10);
    assert_eq!(throttle.wake_at(), Some(u64::MAX));
    assert!(!throttle.poll(u64::MAX - 1));
    assert!(throttle.poll(u64::MAX));
    throttle.trigger(u64::MAX);
    assert_eq!(throttle.wake_at(), Some(u64::MAX));
    assert!(throttle.poll(u64::MAX));
}

#[test]
fn due_save_holds_the_settings_as_of_the_poll() {
    let mut control = indexmap::IndexMap::new();
    control.insert("SelectOutput".to_string(), ParamValue::U32(0));
    let mut creative = indexmap::IndexMap::new();
    creative.insert("Device Control".to_string(), control);
    let mut state = RawState::new(Some(Configuration {
        endpoint: Some(EndpointConfiguration { volume: None }),
        creative: Some(creative),
    }));
    let mut throttle = SaveThrottle::new();
    assert!(state.save_if_due(&mut throttle, 0).is_none());

    for volume in [1u32, 2, 3] {
        let now = 100 + u64::from(volume);
        let reaction = state.handle_change(ChangeEvent::Volume(volume));
        assert!(reaction.dirty);
        throttle.trigger(now);
        assert!(state.save_if_due(&mut throttle, now).is_none());
    }
    assert!(state.save_if_due(&mut throttle, 101 + SAVE_SPACING - 1).is_none());
    let saved = state.save_if_due(&mut throttle, 101 + SAVE_SPACING).expect("a save");
    assert_eq!(saved.profiles.headphones.volume, Some(3));
    assert_eq!(saved.profiles.speakers.volume, None);
    assert_eq!(saved.profiles.headphones.parameters.len(), 1);
    assert!(state.save_if_due(&mut throttle, SAVE_SPACING * 3).is_none());
}
