use frame_mirror::interface::{resolve_interface, NetInterface};

fn names(list: &[&str]) -> Vec<String> {
    list.iter().map(|s| s.to_string()).collect()
}

#[test]
fn selectors_name_their_devices() {
    assert_eq!(NetInterface::WIFI.to_string(), "en0");
    assert_eq!(NetInterface::BLUETOOTHPAN.to_string(), "en11");
    assert_eq!(NetInterface::THUNDERBOLT1.to_string(), "en1");
    assert_eq!(NetInterface::THUNDERBOLT2.to_string(), "en2");
    assert_eq!(NetInterface::THUNDERBOLT3.to_string(), "en3");
    assert_eq!(NetInterface::THUNDERBOLT4.to_string(), "en4");
    assert_eq!(NetInterface::TUNDERBOLTBRIDGE.to_string(), "bridge0");
}

#[test]
fn resolves_exact_name() {
    let list = names(&["lo0", "en1", "en0", "bridge0"]);
    assert_eq!(resolve_interface(&NetInterface::WIFI, &list), Some(2));
    assert_eq!(resolve_interface(&NetInterface::TUNDERBOLTBRIDGE, &list), Some(3));
}

#[test]
fn resolution_needs_exact_match() {
    // "en11" must not match "en1", nor "en1" match "en11".
    let list = names(&["en11", "en10", "en"]);
    assert_eq!(resolve_interface(&NetInterface::THUNDERBOLT1, &list), None);
    assert_eq!(resolve_interface(&NetInterface::BLUETOOTHPAN, &list), Some(0));
}

#[test]
fn resolution_takes_first_of_duplicates() {
    let list = names(&["lo", "en0", "en0"]);
    assert_eq!(resolve_interface(&NetInterface::WIFI, &list), Some(1));
}

#[test]
fn resolution_is_repeatable() {
    let list = names(&["en2", "en3", "en4"]);
    let a = resolve_interface(&NetInterface::THUNDERBOLT3, &list);
    let b = resolve_interface(&NetInterface::THUNDERBOLT3, &list);
    assert_eq!(a, Some(1));
    assert_eq!(a, b);
    let x = resolve_interface(&NetInterface::WIFI, &list);
    let y = resolve_interface(&NetInterface::WIFI, &list);
    assert_eq!(x, None);
    assert_eq!(x, y);
}

#[test]
fn resolution_on_empty_list_fails() {
    assert_eq!(resolve_interface(&NetInterface::WIFI, &Vec::new()), None);
}
