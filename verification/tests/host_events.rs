use agon_bus::host::decode_key;
use agon_bus::host::handle_event;
use agon_bus::host::HostAction;
use agon_bus::host::HostEvent;
use agon_bus::host::TICK_NANOS;

#[test]
fn shifted_letter_folds_to_upper_case() {
    assert_eq!(decode_key(b'a', true), Some(b'A'));
    assert_eq!(decode_key(b'a', true), Some(65));
    assert_eq!(decode_key(b'z', true), Some(b'Z'));
}

#[test]
fn unshifted_letter_stays_lower_case() {
    assert_eq!(decode_key(b'a', false), Some(b'a'));
    assert_eq!(decode_key(b'a', false), Some(97));
}

#[test]
fn shifted_low_code_drops_sixteen() {
    // Codes below 'A' lose 16 under shift: '1' becomes '!'.
    assert_eq!(decode_key(b'1', true), Some(b'!'));
}

#[test]
fn non_printable_key_is_not_forwarded() {
    // A function-key style code outside the printable range.
    assert_eq!(decode_key(0xBA, false), None);
    assert_eq!(decode_key(0xBA, true), None);
    assert_eq!(decode_key(31, false), None);
    assert_eq!(decode_key(127, false), None);
}

#[test]
fn printable_range_boundaries() {
    assert_eq!(decode_key(32, false), Some(32));
    assert_eq!(decode_key(126, false), Some(126));
}

#[test]
fn quit_event_shuts_down() {
    assert_eq!(handle_event(HostEvent::Quit), HostAction::Shutdown);
}

#[test]
fn key_down_forwards_decoded_character() {
    let shifted = HostEvent::KeyDown { code: b'a', shifted: true };
    assert_eq!(handle_event(shifted), HostAction::ForwardChar(b'A'));
    let plain = HostEvent::KeyDown { code: b'a', shifted: false };
    assert_eq!(handle_event(plain), HostAction::ForwardChar(b'a'));
}

#[test]
fn non_printable_key_down_is_ignored() {
    let event = HostEvent::KeyDown { code: 0xBA, shifted: false };
    assert_eq!(handle_event(event), HostAction::Ignore);
}

#[test]
fn other_events_are_ignored() {
    assert_eq!(handle_event(HostEvent::Other), HostAction::Ignore);
}

#[test]
fn tick_quantum_is_one_hundred_hertz() {
    assert_eq!(TICK_NANOS, 10_000_000);
    assert_eq!(1_000_000_000 / TICK_NANOS, 100);
}
