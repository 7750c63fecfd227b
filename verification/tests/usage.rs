use thermalnote::codepage::{code_page_help, code_page_list};
use thermalnote::usage::{help_requested, usage_text, USAGE_INTRO, USAGE_OUTRO};

#[test]
fn the_three_help_flags_are_recognised() {
    assert!(help_requested(Some("-h")));
    assert!(help_requested(Some("-help")));
    assert!(help_requested(Some("--help")));
}

#[test]
fn nothing_else_asks_for_help() {
    assert!(!help_requested(None));
    assert!(!help_requested(Some("")));
    assert!(!help_requested(Some("-")));
    assert!(!help_requested(Some("--")));
    assert!(!help_requested(Some("h")));
    assert!(!help_requested(Some("help")));
    assert!(!help_requested(Some("-H")));
    assert!(!help_requested(Some("--HELP")));
    assert!(!help_requested(Some("--help ")));
    assert!(!help_requested(Some(" --help")));
    assert!(!help_requested(Some("---help")));
    assert!(!help_requested(Some("-hh")));
    assert!(!help_requested(Some("--h")));
    assert!(!help_requested(Some("-?")));
    assert!(!help_requested(Some("--help\u{e9}")));
    assert!(!help_requested(Some("\u{2014}help")));
}

#[test]
fn usage_shows_the_license_and_every_code_page() {
    let license = "Permission is granted to print notes.\nNo warranty.";
    let text = usage_text(license);
    assert!(text.contains(license));
    assert!(text.contains(&code_page_list()));
    assert!(text.contains("> LICENSE <"));
    assert!(text.contains("> CODE PAGES <"));
    assert!(text.ends_with("KZ1048\n"));
}

#[test]
fn usage_is_put_together_in_order() {
    let text = usage_text("LICENSE TEXT");
    let expected = format!("{}LICENSE TEXT{}{}", USAGE_INTRO, USAGE_OUTRO, code_page_help());
    assert_eq!(text, expected);
    let about = text.find("> ABOUT <").unwrap();
    let variables = text.find("> ENVIRONMENT VARIABLES <").unwrap();
    let license = text.find("> LICENSE <").unwrap();
    let body = text.find("LICENSE TEXT").unwrap();
    let pages = text.find("> CODE PAGES <").unwrap();
    let list = text.find("PC437, Katakana").unwrap();
    assert!(about < variables);
    assert!(variables < license);
    assert!(license < body);
    assert!(body < pages);
    assert!(pages < list);
}

#[test]
fn usage_documents_the_four_variables() {
    let text = usage_text("");
    assert!(text.contains("\nVENDOR_ID  - Vendor ID of your thermal printer (hex without 0x prefix)\n"));
    assert!(text.contains("\nPRODUCT_ID - Product ID of your thermal printer (hex without 0x prefix)\n"));
    assert!(text.contains("\nCODEPAGE   - Character encoding for text\n"));
    assert!(text.contains("\nEDITOR     - Path to your preferred text editor\n"));
    assert!(text.starts_with("\n> ABOUT <\n\nthermalnote - "));
}

#[test]
fn an_empty_license_leaves_the_frame() {
    let text = usage_text("");
    assert_eq!(text, format!("{}{}{}", USAGE_INTRO, USAGE_OUTRO, code_page_help()));
    assert!(text.contains("> LICENSE <\n\n\n\n> CODE PAGES <\n"));
}
