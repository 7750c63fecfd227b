//! What the program says about itself when asked.

use crate::codepage::{code_page_help, code_page_help_text, help_heading, joined, table};
use crate::text::{holds, lemma_holds_its_parts, same, text_of};
use vstd::prelude::*;
use vstd::string::StringExecFns;

verus! {

/// `arg` is one of the three spellings that ask for the usage text.
pub open spec fn is_help_flag(arg: Seq<char>) -> bool {
    arg == "-h"@ || arg == "-help"@ || arg == "--help"@
}

/// Whether the first argument of the command line, if there is one, asks for
/// the usage text.
pub fn help_requested(first: Option<&str>) -> (r: bool)
    ensures
        r == (text_of(first) matches Some(arg) && is_help_flag(arg)),
{
    match first {
        Some(arg) => same(arg, "-h") || same(arg, "-help") || same(arg, "--help"),
        None => false,
    }
}

/// What the usage text says before the license.
pub const USAGE_INTRO: &'static str = "
> ABOUT <

thermalnote - https://github.com/sysrqmagician/thermalnote
Utility for printing quick notes using a thermal printer.

> ENVIRONMENT VARIABLES <

VENDOR_ID  - Vendor ID of your thermal printer (hex without 0x prefix)
             Example: 0ed6
PRODUCT_ID - Product ID of your thermal printer (hex without 0x prefix)
             Example: 06a6
CODEPAGE   - Character encoding for text
             Example: PC437 or WPC1252
EDITOR     - Path to your preferred text editor
             Example: /usr/bin/nano or /usr/bin/vim

> LICENSE <

";

/// What the usage text says between the license and the list of encodings.
pub const USAGE_OUTRO: &'static str = "

> CODE PAGES <
";

/// The usage text of a program that is distributed under `license`: the
/// introduction, the license, and the list of encodings.
pub open spec fn usage(license: Seq<char>) -> Seq<char> {
    USAGE_INTRO@ + license + USAGE_OUTRO@ + code_page_help_text()
}

/// Whatever the license says, the usage text shows all of it, and the name
/// of every encoding.
pub proof fn lemma_usage_shows_license_and_list(license: Seq<char>)
    ensures
        holds(usage(license), license),
        holds(usage(license), joined(table())),
{
    lemma_holds_its_parts(USAGE_INTRO@, license, USAGE_OUTRO@ + code_page_help_text());
    assert(USAGE_INTRO@ + license + (USAGE_OUTRO@ + code_page_help_text()) =~= usage(license));
    let front = USAGE_INTRO@ + license + USAGE_OUTRO@ + help_heading() + seq!['\n'];
    lemma_holds_its_parts(front, joined(table()), seq!['\n']);
    assert(front + joined(table()) + seq!['\n'] =~= usage(license));
}

/// The usage text of a program that is distributed under `license`.
pub fn usage_text(license: &str) -> (r: String)
    ensures
        r@ == usage(license@),
{
    let mut out = String::from_str(USAGE_INTRO);
    out.append(license);
    out.append(USAGE_OUTRO);
    let help = code_page_help();
    out.append(help.as_str());
    out
}

} // verus!
