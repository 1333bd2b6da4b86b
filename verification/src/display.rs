use vstd::prelude::*;

verus! {

/// Static ASCII art for the terminal frame.  The drawing itself (colors,
/// centering, clearing the screen) is terminal I/O and lives outside the
/// library; here is only the fixed picture it draws.
pub struct AsciiDisplay;

impl AsciiDisplay {
    /// The house picture, one line per element, top to bottom.
    pub fn render_house() -> (house: Vec<&'static str>)
        ensures
            house@.len() == 8,
            house@[0]@ == "        `'::."@,
            house@[1]@ == "     _________H ,%%&%,"@,
            house@[2]@ == "    /\\     _   \\%&&%%&%"@,
            house@[3]@ == "   /  \\___/^\\___\\%&%%&&"@,
            house@[4]@ == "   |  | []   [] |%\\Y&%'"@,
            house@[5]@ == "   |  |   .-.   | ||"@,
            house@[6]@ == " ~~@._|@@_|||_@@|~||~~~~~~~~~~~~~"@,
            house@[7]@ == "      `\"\"\") )\"\"\"`"@,
    {
        let mut house: Vec<&'static str> = Vec::new();
        house.push("        `'::.");
        house.push("     _________H ,%%&%,");
        house.push("    /\\     _   \\%&&%%&%");
        house.push("   /  \\___/^\\___\\%&%%&&");
        house.push("   |  | []   [] |%\\Y&%'");
        house.push("   |  |   .-.   | ||");
        house.push(" ~~@._|@@_|||_@@|~||~~~~~~~~~~~~~");
        house.push("      `\"\"\") )\"\"\"`");
        house
    }
}

} // verus!
