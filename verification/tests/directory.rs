use midi_bridge::ports::{filter_matching_port, list_ports, PortDescriptor, CLIENT_NAME, CONNECTION_NAME};

fn two_ports() -> Vec<Result<String, ()>> {
    vec![Ok(String::from("IAC Driver Bus 1")), Ok(String::from("USB MIDI"))]
}

#[test]
fn listed_port_is_found_by_position_and_name() {
    let found = filter_matching_port(&two_ports(), 1, &String::from("USB MIDI"));
    assert_eq!(found, Some(PortDescriptor { index: 1, name: String::from("USB MIDI") }));
}

#[test]
fn first_port_is_found_at_position_zero() {
    let found = filter_matching_port(&two_ports(), 0, &String::from("IAC Driver Bus 1"));
    assert_eq!(found, Some(PortDescriptor { index: 0, name: String::from("IAC Driver Bus 1") }));
}

#[test]
fn name_at_another_position_is_not_found() {
    assert_eq!(filter_matching_port(&two_ports(), 0, &String::from("USB MIDI")), None);
}

#[test]
fn unknown_name_is_not_found() {
    assert_eq!(filter_matching_port(&two_ports(), 1, &String::from("USB MIDI 2")), None);
}

#[test]
fn name_must_match_to_the_letter() {
    assert_eq!(filter_matching_port(&two_ports(), 1, &String::from("usb midi")), None);
    assert_eq!(filter_matching_port(&two_ports(), 1, &String::from("USB MIDI ")), None);
    assert_eq!(filter_matching_port(&two_ports(), 1, &String::new()), None);
}

#[test]
fn position_past_the_end_is_not_found() {
    assert_eq!(filter_matching_port(&two_ports(), 2, &String::from("USB MIDI")), None);
    assert_eq!(filter_matching_port(&two_ports(), usize::MAX, &String::from("USB MIDI")), None);
}

#[test]
fn nothing_is_found_in_an_empty_enumeration() {
    assert_eq!(filter_matching_port(&Vec::new(), 0, &String::from("USB MIDI")), None);
}

#[test]
fn port_with_unreadable_name_is_not_found() {
    let names: Vec<Result<String, ()>> = vec![Err(()), Ok(String::from("USB MIDI"))];
    assert_eq!(filter_matching_port(&names, 0, &String::from("USB MIDI")), None);
    assert_eq!(filter_matching_port(&names, 0, &String::new()), None);
    assert_eq!(
        filter_matching_port(&names, 1, &String::from("USB MIDI")),
        Some(PortDescriptor { index: 1, name: String::from("USB MIDI") })
    );
}

#[test]
fn ports_of_one_name_are_told_apart_by_position() {
    let names: Vec<Result<String, ()>> =
        vec![Ok(String::from("USB MIDI")), Ok(String::from("USB MIDI"))];
    assert_eq!(
        filter_matching_port(&names, 0, &String::from("USB MIDI")),
        Some(PortDescriptor { index: 0, name: String::from("USB MIDI") })
    );
    assert_eq!(
        filter_matching_port(&names, 1, &String::from("USB MIDI")),
        Some(PortDescriptor { index: 1, name: String::from("USB MIDI") })
    );
}

#[test]
fn empty_enumeration_gives_empty_listing() {
    assert_eq!(list_ports(&Vec::new()), Vec::<Result<String, ()>>::new());
}

#[test]
fn listing_keeps_order_and_marks_unreadable_names() {
    let probes = vec![
        Some(String::from("IAC Driver Bus 1")),
        None,
        Some(String::from("USB MIDI")),
        None,
    ];
    assert_eq!(
        list_ports(&probes),
        vec![
            Ok(String::from("IAC Driver Bus 1")),
            Err(()),
            Ok(String::from("USB MIDI")),
            Err(()),
        ]
    );
}

#[test]
fn listing_of_unreadable_names_only_is_all_markers() {
    assert_eq!(list_ports(&vec![None, None]), vec![Err(()), Err(())]);
}

#[test]
fn bridge_registers_under_fixed_names() {
    assert_eq!(CLIENT_NAME, "valand-midi-out");
    assert_eq!(CONNECTION_NAME, "midir-test");
}
