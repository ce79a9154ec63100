use omegga::resources::Colorize;

#[test]
fn markup_helpers() {
    assert_eq!(String::from("hi").bold(), "**hi**");
    assert_eq!(String::from("hi").italics(), "*hi*");
    assert_eq!(String::from("hi").red(), "<color=\"f00\">hi</>");
    assert_eq!(String::from("hi").light_gray(), "<color=\"bbb\">hi</>");
    assert_eq!(String::from("hi").hyperlink("http://x"), "[hi](http://x)");
    assert_eq!(String::from("hi").size(-12), "<size=\"-12\">hi</>");
    assert_eq!(String::from("hi").color("123456").bold(), "**<color=\"123456\">hi</>**");
}
