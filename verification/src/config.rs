//! What the environment tells the program to do.

use crate::codepage::{find_code_page, selected, CodePage};
use crate::hex::{hex16, parse_hex_u16};
use crate::text::{holds, lemma_holds_its_parts, text_of};
use vstd::prelude::*;
use vstd::string::StringExecFns;

verus! {

/// The variable that holds the printer's USB vendor id, in base 16.
pub const VENDOR_VARIABLE: &'static str = "VENDOR_ID";

/// The variable that holds the printer's USB product id, in base 16.
pub const PRODUCT_VARIABLE: &'static str = "PRODUCT_ID";

/// The variable that names the character encoding.
pub const CODE_PAGE_VARIABLE: &'static str = "CODEPAGE";

/// The variable that holds the path of the editor.
pub const EDITOR_VARIABLE: &'static str = "EDITOR";

/// Why the environment cannot be used.
#[derive(Clone, Copy, Debug, PartialEq, Eq, Structural)]
pub enum ConfigError {
    /// The vendor id is not set.
    MissingVendor,
    /// The vendor id is not a 16-bit number in base 16.
    InvalidVendor,
    /// The product id is not set.
    MissingProduct,
    /// The product id is not a 16-bit number in base 16.
    InvalidProduct,
    /// No editor is set.
    MissingEditor,
}

impl ConfigError {
    /// The variable that is at fault.
    pub open spec fn variable_name(self) -> Seq<char> {
        match self {
            ConfigError::MissingVendor | ConfigError::InvalidVendor => VENDOR_VARIABLE@,
            ConfigError::MissingProduct | ConfigError::InvalidProduct => PRODUCT_VARIABLE@,
            ConfigError::MissingEditor => EDITOR_VARIABLE@,
        }
    }

    /// The variable is not set at all.
    pub open spec fn is_missing(self) -> bool {
        self == ConfigError::MissingVendor || self == ConfigError::MissingProduct || self
            == ConfigError::MissingEditor
    }

    /// What the user is told: each message names the variable at fault.
    pub open spec fn text(self) -> Seq<char> {
        if self.is_missing() {
            "reading "@ + self.variable_name()
        } else {
            self.variable_name() + " must be a hexadecimal number without a prefix"@
        }
    }

    /// The variable that is at fault.
    pub fn variable(&self) -> (r: &'static str)
        ensures
            r@ == self.variable_name(),
    {
        match self {
            ConfigError::MissingVendor | ConfigError::InvalidVendor => VENDOR_VARIABLE,
            ConfigError::MissingProduct | ConfigError::InvalidProduct => PRODUCT_VARIABLE,
            ConfigError::MissingEditor => EDITOR_VARIABLE,
        }
    }

    /// What the user is told.
    pub fn message(&self) -> (r: String)
        ensures
            r@ == self.text(),
    {
        match self {
            ConfigError::MissingVendor | ConfigError::MissingProduct | ConfigError::MissingEditor => {
                let mut out = String::from_str("reading ");
                out.append(self.variable());
                out
            },
            ConfigError::InvalidVendor | ConfigError::InvalidProduct => {
                let mut out = String::from_str(self.variable());
                out.append(" must be a hexadecimal number without a prefix");
                out
            },
        }
    }
}

/// Every message names the variable that is at fault.
pub proof fn lemma_message_names_variable(error: ConfigError)
    ensures
        holds(error.text(), error.variable_name()),
{
    if error.is_missing() {
        lemma_holds_its_parts("reading "@, error.variable_name(), Seq::empty());
        assert("reading "@ + error.variable_name() + Seq::<char>::empty() =~= error.text());
    } else {
        lemma_holds_its_parts(
            Seq::empty(),
            error.variable_name(),
            " must be a hexadecimal number without a prefix"@,
        );
        assert(Seq::<char>::empty() + error.variable_name()
            + " must be a hexadecimal number without a prefix"@ =~= error.text());
    }
}

/// All that a print run needs to know.
#[derive(Debug, PartialEq, Eq)]
pub struct Settings {
    /// The printer's USB vendor id.
    pub vendor_id: u16,
    /// The printer's USB product id.
    pub product_id: u16,
    /// The encoding in which the note is sent.
    pub code_page: CodePage,
    /// The path of the editor in which the note is written.
    pub editor: String,
}

/// A [`Settings`] as contracts see it.
pub struct SettingsView {
    pub vendor_id: u16,
    pub product_id: u16,
    pub code_page: CodePage,
    pub editor: Seq<char>,
}

impl View for Settings {
    type V = SettingsView;

    open spec fn view(&self) -> SettingsView {
        SettingsView {
            vendor_id: self.vendor_id,
            product_id: self.product_id,
            code_page: self.code_page,
            editor: self.editor@,
        }
    }
}

/// What a usable environment asks for.
#[derive(Debug, PartialEq, Eq)]
pub enum Request {
    /// No known encoding is chosen: show which there are, and stop.
    ListCodePages,
    /// Let the user write a note, and print it.
    Print(Settings),
}

/// A [`Request`] as contracts see it.
pub enum RequestView {
    ListCodePages,
    Print(SettingsView),
}

impl View for Request {
    type V = RequestView;

    open spec fn view(&self) -> RequestView {
        match self {
            Request::ListCodePages => RequestView::ListCodePages,
            Request::Print(settings) => RequestView::Print(settings@),
        }
    }
}

/// What [`read_settings`] makes of its result, for contracts.
pub open spec fn outcome_of(r: Result<Request, ConfigError>) -> Result<RequestView, ConfigError> {
    match r {
        Ok(request) => Ok(request@),
        Err(error) => Err(error),
    }
}

/// What the four variables ask for. They are looked at in this order: the
/// vendor id, the product id, the encoding, the editor. The first one at
/// fault decides; an encoding that is missing or unknown is no fault, and
/// asks for the list of encodings whatever the editor is.
pub open spec fn settings_from(
    vendor: Option<Seq<char>>,
    product: Option<Seq<char>>,
    code_page: Option<Seq<char>>,
    editor: Option<Seq<char>>,
) -> Result<RequestView, ConfigError> {
    if vendor is None {
        Err(ConfigError::MissingVendor)
    } else if hex16(vendor.unwrap()) is None {
        Err(ConfigError::InvalidVendor)
    } else if product is None {
        Err(ConfigError::MissingProduct)
    } else if hex16(product.unwrap()) is None {
        Err(ConfigError::InvalidProduct)
    } else if code_page is None || selected(code_page.unwrap()) is None {
        Ok(RequestView::ListCodePages)
    } else if editor is None {
        Err(ConfigError::MissingEditor)
    } else {
        Ok(
            RequestView::Print(
                SettingsView {
                    vendor_id: hex16(vendor.unwrap()).unwrap(),
                    product_id: hex16(product.unwrap()).unwrap(),
                    code_page: selected(code_page.unwrap()).unwrap(),
                    editor: editor.unwrap(),
                },
            ),
        )
    }
}

/// An identifier that is no 16-bit number in base 16 is refused, and the
/// error is that of its variable: of the vendor id whatever else is set, of
/// the product id where the vendor id is in order.
pub proof fn lemma_bad_identifier_is_refused(
    vendor: Seq<char>,
    product: Seq<char>,
    code_page: Option<Seq<char>>,
    editor: Option<Seq<char>>,
)
    ensures
        hex16(vendor) is None ==> settings_from(Some(vendor), Some(product), code_page, editor)
            == Err::<RequestView, ConfigError>(ConfigError::InvalidVendor),
        hex16(vendor) is Some && hex16(product) is None ==> settings_from(
            Some(vendor),
            Some(product),
            code_page,
            editor,
        ) == Err::<RequestView, ConfigError>(ConfigError::InvalidProduct),
{
}

/// With both identifiers in order, an encoding name that is not set or not
/// known asks for the list of encodings, whatever the editor is.
pub proof fn lemma_unknown_code_page_asks_for_list(
    vendor: Seq<char>,
    product: Seq<char>,
    code_page: Option<Seq<char>>,
    editor: Option<Seq<char>>,
)
    requires
        hex16(vendor) is Some,
        hex16(product) is Some,
        code_page is None || selected(code_page.unwrap()) is None,
    ensures
        settings_from(Some(vendor), Some(product), code_page, editor) == Ok::<
            RequestView,
            ConfigError,
        >(RequestView::ListCodePages),
{
}

/// Decides what the values of the four variables ask for. `None` stands for
/// a variable that is not set.
pub fn read_settings(
    vendor: Option<&str>,
    product: Option<&str>,
    code_page: Option<&str>,
    editor: Option<&str>,
) -> (r: Result<Request, ConfigError>)
    ensures
        outcome_of(r) == settings_from(
            text_of(vendor),
            text_of(product),
            text_of(code_page),
            text_of(editor),
        ),
{
    let vendor_id = match vendor {
        None => {
            return Err(ConfigError::MissingVendor);
        },
        Some(text) => match parse_hex_u16(text) {
            None => {
                return Err(ConfigError::InvalidVendor);
            },
            Some(id) => id,
        },
    };
    let product_id = match product {
        None => {
            return Err(ConfigError::MissingProduct);
        },
        Some(text) => match parse_hex_u16(text) {
            None => {
                return Err(ConfigError::InvalidProduct);
            },
            Some(id) => id,
        },
    };
    let page = match code_page {
        None => {
            return Ok(Request::ListCodePages);
        },
        Some(name) => match find_code_page(name) {
            None => {
                return Ok(Request::ListCodePages);
            },
            Some(page) => page,
        },
    };
    let editor = match editor {
        None => {
            return Err(ConfigError::MissingEditor);
        },
        Some(path) => String::from_str(path),
    };
    Ok(Request::Print(Settings { vendor_id, product_id, code_page: page, editor }))
}

} // verus!
