use weathr::display::AsciiDisplay;

#[test]
fn test_display_integration_house_rendering() {
    let house = AsciiDisplay::render_house();

    assert!(!house.is_empty(), "House should not be empty");

    assert!(house.len() >= 7, "House should have at least 7 lines");

    let house_str = house.join("\n");
    assert!(house_str.contains("H"), "House should contain chimney");
    assert!(house_str.contains("/\\"), "House should contain roof");
    assert!(house_str.contains("[]"), "House should contain windows");
    assert!(house_str.contains("~~~"), "House should contain ground");
}

#[test]
fn test_display_integration_house_consistency() {
    let house1 = AsciiDisplay::render_house();
    let house2 = AsciiDisplay::render_house();

    assert_eq!(house1, house2, "House rendering should be consistent");
}
