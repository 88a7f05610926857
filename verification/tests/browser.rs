use webui::browser::Browser;

#[test]
fn browser_codes_are_fixed() {
    assert_eq!(Browser::NoBrowser.to_id(), 0);
    assert_eq!(Browser::AnyBrowser.to_id(), 1);
    assert_eq!(Browser::Chrome.to_id(), 2);
    assert_eq!(Browser::Firefox.to_id(), 3);
    assert_eq!(Browser::Edge.to_id(), 4);
    assert_eq!(Browser::Safari.to_id(), 5);
    assert_eq!(Browser::Chromium.to_id(), 6);
    assert_eq!(Browser::Opera.to_id(), 7);
    assert_eq!(Browser::Brave.to_id(), 8);
    assert_eq!(Browser::Vivaldi.to_id(), 9);
    assert_eq!(Browser::Epic.to_id(), 10);
    assert_eq!(Browser::Yandex.to_id(), 11);
    assert_eq!(Browser::ChromiumBased.to_id(), 12);
}

#[test]
fn browser_from_codes() {
    assert_eq!(Browser::from_id(0), Browser::NoBrowser);
    assert_eq!(Browser::from_id(1), Browser::AnyBrowser);
    assert_eq!(Browser::from_id(2), Browser::Chrome);
    assert_eq!(Browser::from_id(3), Browser::Firefox);
    assert_eq!(Browser::from_id(4), Browser::Edge);
    assert_eq!(Browser::from_id(5), Browser::Safari);
    assert_eq!(Browser::from_id(6), Browser::Chromium);
    assert_eq!(Browser::from_id(7), Browser::Opera);
    assert_eq!(Browser::from_id(8), Browser::Brave);
    assert_eq!(Browser::from_id(9), Browser::Vivaldi);
    assert_eq!(Browser::from_id(10), Browser::Epic);
    assert_eq!(Browser::from_id(11), Browser::Yandex);
    assert_eq!(Browser::from_id(12), Browser::ChromiumBased);
}

#[test]
fn browser_round_trip_every_variant() {
    let variants = [
        Browser::NoBrowser,
        Browser::AnyBrowser,
        Browser::Chrome,
        Browser::Firefox,
        Browser::Edge,
        Browser::Safari,
        Browser::Chromium,
        Browser::Opera,
        Browser::Brave,
        Browser::Vivaldi,
        Browser::Epic,
        Browser::Yandex,
        Browser::ChromiumBased,
    ];
    for b in variants {
        assert_eq!(Browser::from_id(b.to_id()), b);
    }
}

#[test]
fn code_round_trip_every_code() {
    for id in 0..=12 {
        assert_eq!(Browser::from_id(id).to_id(), id);
    }
}
