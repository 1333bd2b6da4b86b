use weathr::display::AsciiDisplay;

#[test]
fn test_render_house_not_empty() {
    let house = AsciiDisplay::render_house();
    assert!(!house.is_empty());
}

#[test]
fn test_render_house_contains_structure() {
    let house = AsciiDisplay::render_house();
    let house_str = house.join("\n");
    assert!(house_str.contains("_________H"));
    assert!(house_str.contains("/\\"));
    assert!(house_str.contains("[]"));
    assert!(house_str.contains("~~~"));
}

#[test]
fn test_render_house_is_multiline() {
    let house = AsciiDisplay::render_house();
    assert!(house.len() > 5, "House should have multiple lines");
}
