//! The character encodings that the printer can be told to use.

use crate::text::{
    commas, holds, lemma_commas_of_parts, lemma_commas_of_plain, lemma_holds_in_longer,
    lemma_holds_its_parts, lemma_same_ignoring_case_is_equivalence, same_but_for_case,
    same_ignoring_case, upper,
};
use vstd::prelude::*;
use vstd::string::StringExecFns;

verus! {

/// A character encoding of the printer, named as the printer protocol names it.
#[allow(non_camel_case_types)]
#[derive(Clone, Copy, Debug, PartialEq, Eq, Structural)]
pub enum CodePage {
    PC437,
    Katakana,
    PC850,
    PC860,
    PC863,
    PC865,
    Hiragana,
    PC851,
    PC853,
    PC857,
    PC737,
    ISO8859_7,
    WPC1252,
    PC866,
    PC852,
    PC858,
    PC720,
    WPC775,
    PC855,
    PC861,
    PC862,
    PC864,
    PC869,
    ISO8859_2,
    ISO8859_15,
    PC1098,
    PC1118,
    PC1119,
    PC1125,
    WPC1250,
    WPC1251,
    WPC1253,
    WPC1254,
    WPC1255,
    WPC1256,
    WPC1257,
    WPC1258,
    KZ1048,
}

/// How many encodings there are.
pub const CODE_PAGE_COUNT: usize = 38;

/// Every encoding, in the order in which they are shown to the user.
pub open spec fn table() -> Seq<CodePage> {
    seq![
        CodePage::PC437,
        CodePage::Katakana,
        CodePage::PC850,
        CodePage::PC860,
        CodePage::PC863,
        CodePage::PC865,
        CodePage::Hiragana,
        CodePage::PC851,
        CodePage::PC853,
        CodePage::PC857,
        CodePage::PC737,
        CodePage::ISO8859_7,
        CodePage::WPC1252,
        CodePage::PC866,
        CodePage::PC852,
        CodePage::PC858,
        CodePage::PC720,
        CodePage::WPC775,
        CodePage::PC855,
        CodePage::PC861,
        CodePage::PC862,
        CodePage::PC864,
        CodePage::PC869,
        CodePage::ISO8859_2,
        CodePage::ISO8859_15,
        CodePage::PC1098,
        CodePage::PC1118,
        CodePage::PC1119,
        CodePage::PC1125,
        CodePage::WPC1250,
        CodePage::WPC1251,
        CodePage::WPC1253,
        CodePage::WPC1254,
        CodePage::WPC1255,
        CodePage::WPC1256,
        CodePage::WPC1257,
        CodePage::WPC1258,
        CodePage::KZ1048,
    ]
}

impl CodePage {
    /// The name under which the user selects this encoding.
    pub open spec fn label(self) -> Seq<char> {
        match self {
            CodePage::PC437 => "PC437"@,
            CodePage::Katakana => "Katakana"@,
            CodePage::PC850 => "PC850"@,
            CodePage::PC860 => "PC860"@,
            CodePage::PC863 => "PC863"@,
            CodePage::PC865 => "PC865"@,
            CodePage::Hiragana => "Hiragana"@,
            CodePage::PC851 => "PC851"@,
            CodePage::PC853 => "PC853"@,
            CodePage::PC857 => "PC857"@,
            CodePage::PC737 => "PC737"@,
            CodePage::ISO8859_7 => "ISO8859_7"@,
            CodePage::WPC1252 => "WPC1252"@,
            CodePage::PC866 => "PC866"@,
            CodePage::PC852 => "PC852"@,
            CodePage::PC858 => "PC858"@,
            CodePage::PC720 => "PC720"@,
            CodePage::WPC775 => "WPC775"@,
            CodePage::PC855 => "PC855"@,
            CodePage::PC861 => "PC861"@,
            CodePage::PC862 => "PC862"@,
            CodePage::PC864 => "PC864"@,
            CodePage::PC869 => "PC869"@,
            CodePage::ISO8859_2 => "ISO8859_2"@,
            CodePage::ISO8859_15 => "ISO8859_15"@,
            CodePage::PC1098 => "PC1098"@,
            CodePage::PC1118 => "PC1118"@,
            CodePage::PC1119 => "PC1119"@,
            CodePage::PC1125 => "PC1125"@,
            CodePage::WPC1250 => "WPC1250"@,
            CodePage::WPC1251 => "WPC1251"@,
            CodePage::WPC1253 => "WPC1253"@,
            CodePage::WPC1254 => "WPC1254"@,
            CodePage::WPC1255 => "WPC1255"@,
            CodePage::WPC1256 => "WPC1256"@,
            CodePage::WPC1257 => "WPC1257"@,
            CodePage::WPC1258 => "WPC1258"@,
            CodePage::KZ1048 => "KZ1048"@,
        }
    }

    /// Where this encoding stands in [`table`].
    pub open spec fn position(self) -> int {
        match self {
            CodePage::PC437 => 0,
            CodePage::Katakana => 1,
            CodePage::PC850 => 2,
            CodePage::PC860 => 3,
            CodePage::PC863 => 4,
            CodePage::PC865 => 5,
            CodePage::Hiragana => 6,
            CodePage::PC851 => 7,
            CodePage::PC853 => 8,
            CodePage::PC857 => 9,
            CodePage::PC737 => 10,
            CodePage::ISO8859_7 => 11,
            CodePage::WPC1252 => 12,
            CodePage::PC866 => 13,
            CodePage::PC852 => 14,
            CodePage::PC858 => 15,
            CodePage::PC720 => 16,
            CodePage::WPC775 => 17,
            CodePage::PC855 => 18,
            CodePage::PC861 => 19,
            CodePage::PC862 => 20,
            CodePage::PC864 => 21,
            CodePage::PC869 => 22,
            CodePage::ISO8859_2 => 23,
            CodePage::ISO8859_15 => 24,
            CodePage::PC1098 => 25,
            CodePage::PC1118 => 26,
            CodePage::PC1119 => 27,
            CodePage::PC1125 => 28,
            CodePage::WPC1250 => 29,
            CodePage::WPC1251 => 30,
            CodePage::WPC1253 => 31,
            CodePage::WPC1254 => 32,
            CodePage::WPC1255 => 33,
            CodePage::WPC1256 => 34,
            CodePage::WPC1257 => 35,
            CodePage::WPC1258 => 36,
            CodePage::KZ1048 => 37,
        }
    }

    /// `text` selects this encoding: it is its name, in any mix of cases.
    pub open spec fn answers_to(self, text: Seq<char>) -> bool {
        same_ignoring_case(text, self.label())
    }

    /// The name under which the user selects this encoding.
    pub fn name(&self) -> (r: &'static str)
        ensures
            r@ == self.label(),
    {
        match self {
            CodePage::PC437 => "PC437",
            CodePage::Katakana => "Katakana",
            CodePage::PC850 => "PC850",
            CodePage::PC860 => "PC860",
            CodePage::PC863 => "PC863",
            CodePage::PC865 => "PC865",
            CodePage::Hiragana => "Hiragana",
            CodePage::PC851 => "PC851",
            CodePage::PC853 => "PC853",
            CodePage::PC857 => "PC857",
            CodePage::PC737 => "PC737",
            CodePage::ISO8859_7 => "ISO8859_7",
            CodePage::WPC1252 => "WPC1252",
            CodePage::PC866 => "PC866",
            CodePage::PC852 => "PC852",
            CodePage::PC858 => "PC858",
            CodePage::PC720 => "PC720",
            CodePage::WPC775 => "WPC775",
            CodePage::PC855 => "PC855",
            CodePage::PC861 => "PC861",
            CodePage::PC862 => "PC862",
            CodePage::PC864 => "PC864",
            CodePage::PC869 => "PC869",
            CodePage::ISO8859_2 => "ISO8859_2",
            CodePage::ISO8859_15 => "ISO8859_15",
            CodePage::PC1098 => "PC1098",
            CodePage::PC1118 => "PC1118",
            CodePage::PC1119 => "PC1119",
            CodePage::PC1125 => "PC1125",
            CodePage::WPC1250 => "WPC1250",
            CodePage::WPC1251 => "WPC1251",
            CodePage::WPC1253 => "WPC1253",
            CodePage::WPC1254 => "WPC1254",
            CodePage::WPC1255 => "WPC1255",
            CodePage::WPC1256 => "WPC1256",
            CodePage::WPC1257 => "WPC1257",
            CodePage::WPC1258 => "WPC1258",
            CodePage::KZ1048 => "KZ1048",
        }
    }
}

/// What the names are made of, and that they can be told apart.
proof fn lemma_names()
    ensures
        forall|page: CodePage| vstd::utf8::is_ascii_chars(#[trigger] page.label()),
        forall|page: CodePage| !(#[trigger] page.label()).contains(','),
        forall|a: CodePage, b: CodePage|
            a != b ==> !#[trigger] same_ignoring_case(a.label(), b.label()),
{
    reveal_strlit("PC437");
    reveal_strlit("Katakana");
    reveal_strlit("PC850");
    reveal_strlit("PC860");
    reveal_strlit("PC863");
    reveal_strlit("PC865");
    reveal_strlit("Hiragana");
    reveal_strlit("PC851");
    reveal_strlit("PC853");
    reveal_strlit("PC857");
    reveal_strlit("PC737");
    reveal_strlit("ISO8859_7");
    reveal_strlit("WPC1252");
    reveal_strlit("PC866");
    reveal_strlit("PC852");
    reveal_strlit("PC858");
    reveal_strlit("PC720");
    reveal_strlit("WPC775");
    reveal_strlit("PC855");
    reveal_strlit("PC861");
    reveal_strlit("PC862");
    reveal_strlit("PC864");
    reveal_strlit("PC869");
    reveal_strlit("ISO8859_2");
    reveal_strlit("ISO8859_15");
    reveal_strlit("PC1098");
    reveal_strlit("PC1118");
    reveal_strlit("PC1119");
    reveal_strlit("PC1125");
    reveal_strlit("WPC1250");
    reveal_strlit("WPC1251");
    reveal_strlit("WPC1253");
    reveal_strlit("WPC1254");
    reveal_strlit("WPC1255");
    reveal_strlit("WPC1256");
    reveal_strlit("WPC1257");
    reveal_strlit("WPC1258");
    reveal_strlit("KZ1048");
    assert forall|a: CodePage, b: CodePage| a != b implies !#[trigger] same_ignoring_case(
        a.label(),
        b.label(),
    ) by {
        let x = a.label();
        let y = b.label();
        let n = x.len() as int;
        if same_ignoring_case(x, y) {
            // The first character and the last three tell any two names apart.
            assert(upper(x[0]) == upper(y[0]));
            assert(upper(x[n - 3]) == upper(y[n - 3]));
            assert(upper(x[n - 2]) == upper(y[n - 2]));
            assert(upper(x[n - 1]) == upper(y[n - 1]));
            assert(false);
        }
    }
}

/// Every name is made of ASCII characters and holds no comma.
pub proof fn lemma_labels_are_plain()
    ensures
        forall|page: CodePage| vstd::utf8::is_ascii_chars(#[trigger] page.label()),
        forall|page: CodePage| !(#[trigger] page.label()).contains(','),
{
    lemma_names();
}

/// No two encodings have names that differ only in case.
pub proof fn lemma_names_differ(a: CodePage, b: CodePage)
    requires
        a != b,
    ensures
        !same_ignoring_case(a.label(), b.label()),
{
    lemma_names();
}

/// The table holds each encoding once, at its position.
pub proof fn lemma_table_holds_each_once()
    ensures
        table().len() == CODE_PAGE_COUNT,
        forall|page: CodePage|
            0 <= #[trigger] page.position() < table().len() && table()[page.position()] == page,
        forall|i: int| 0 <= i < table().len() ==> (#[trigger] table()[i]).position() == i,
        table().no_duplicates(),
{
    assert forall|i: int, j: int|
        0 <= i < table().len() && 0 <= j < table().len() && i != j implies table()[i]
        != table()[j] by {
        assert(table()[i].position() == i);
        assert(table()[j].position() == j);
    }
}

/// The encoding that `text` selects: the one whose name it is, in any mix of
/// cases.
pub open spec fn selected(text: Seq<char>) -> Option<CodePage> {
    if exists|page: CodePage| page.answers_to(text) {
        Some(choose|page: CodePage| page.answers_to(text))
    } else {
        None
    }
}

/// Whatever the case of its letters, a name selects its own encoding and no
/// other.
pub proof fn lemma_any_case_selects(page: CodePage, text: Seq<char>)
    requires
        same_ignoring_case(text, page.label()),
    ensures
        selected(text) == Some(page),
{
    assert(page.answers_to(text));
    let found = choose|other: CodePage| other.answers_to(text);
    if found != page {
        lemma_same_ignoring_case_is_equivalence(text, found.label(), text);
        lemma_same_ignoring_case_is_equivalence(found.label(), text, page.label());
        lemma_names_differ(found, page);
    }
}

/// Every encoding, in the order in which they are shown to the user.
pub fn code_pages() -> (r: Vec<CodePage>)
    ensures
        r@ == table(),
{
    let r = vec![
        CodePage::PC437,
        CodePage::Katakana,
        CodePage::PC850,
        CodePage::PC860,
        CodePage::PC863,
        CodePage::PC865,
        CodePage::Hiragana,
        CodePage::PC851,
        CodePage::PC853,
        CodePage::PC857,
        CodePage::PC737,
        CodePage::ISO8859_7,
        CodePage::WPC1252,
        CodePage::PC866,
        CodePage::PC852,
        CodePage::PC858,
        CodePage::PC720,
        CodePage::WPC775,
        CodePage::PC855,
        CodePage::PC861,
        CodePage::PC862,
        CodePage::PC864,
        CodePage::PC869,
        CodePage::ISO8859_2,
        CodePage::ISO8859_15,
        CodePage::PC1098,
        CodePage::PC1118,
        CodePage::PC1119,
        CodePage::PC1125,
        CodePage::WPC1250,
        CodePage::WPC1251,
        CodePage::WPC1253,
        CodePage::WPC1254,
        CodePage::WPC1255,
        CodePage::WPC1256,
        CodePage::WPC1257,
        CodePage::WPC1258,
        CodePage::KZ1048,
    ];
    assert(r@ =~= table());
    r
}

/// Looks an encoding up by its name, whatever the case of the letters.
pub fn find_code_page(name: &str) -> (r: Option<CodePage>)
    ensures
        r == selected(name@),
        forall|page: CodePage| r == Some(page) <==> #[trigger] page.answers_to(name@),
{
    let pages = code_pages();
    let mut i: usize = 0;
    while i < pages.len()
        invariant
            i <= pages.len(),
            pages@ == table(),
            forall|j: int| 0 <= j < i ==> !(#[trigger] table()[j]).answers_to(name@),
        decreases pages.len() - i,
    {
        let page = pages[i];
        proof {
            lemma_labels_are_plain();
        }
        if same_but_for_case(name, page.name()) {
            proof {
                lemma_any_case_selects(page, name@);
                assert forall|other: CodePage| #[trigger] other.answers_to(name@) implies other
                    == page by {
                    lemma_any_case_selects(other, name@);
                }
            }
            return Some(page);
        }
        i = i + 1;
    }
    proof {
        lemma_table_holds_each_once();
        assert forall|page: CodePage| !page.answers_to(name@) by {
            assert(table()[page.position()] == page);
        }
    }
    None
}

/// What stands between two names in a list of them.
pub open spec fn separator() -> Seq<char> {
    seq![',', ' ']
}

/// The names of `pages` in order, with a comma and a space between each two
/// and nothing after the last.
pub open spec fn joined(pages: Seq<CodePage>) -> Seq<char>
    decreases pages.len(),
{
    if pages.len() == 0 {
        Seq::empty()
    } else if pages.len() == 1 {
        pages[0].label()
    } else {
        joined(pages.drop_last()) + separator() + pages.last().label()
    }
}

/// A list of names ends with the last of them: no comma is left over.
pub proof fn lemma_list_ends_with_last_name(pages: Seq<CodePage>)
    requires
        pages.len() > 0,
    ensures
        joined(pages).len() >= pages.last().label().len(),
        joined(pages).subrange(
            joined(pages).len() - pages.last().label().len(),
            joined(pages).len() as int,
        ) == pages.last().label(),
{
    let list = joined(pages);
    let name = pages.last().label();
    assert(list.subrange(list.len() - name.len(), list.len() as int) =~= name);
}

/// A list of names holds the name of each of its encodings.
pub proof fn lemma_list_holds_every_name(pages: Seq<CodePage>, i: int)
    requires
        0 <= i < pages.len(),
    ensures
        holds(joined(pages), pages[i].label()),
    decreases pages.len(),
{
    if pages.len() == 1 {
        lemma_holds_its_parts(Seq::empty(), pages[0].label(), Seq::empty());
        assert(Seq::<char>::empty() + pages[0].label() + Seq::<char>::empty() =~= joined(pages));
    } else if i == pages.len() - 1 {
        let front = joined(pages.drop_last()) + separator();
        lemma_holds_its_parts(front, pages[i].label(), Seq::empty());
        assert(front + pages[i].label() + Seq::<char>::empty() =~= joined(pages));
    } else {
        lemma_list_holds_every_name(pages.drop_last(), i);
        lemma_holds_in_longer(
            joined(pages.drop_last()),
            pages[i].label(),
            separator() + pages.last().label(),
        );
        assert(joined(pages.drop_last()) + (separator() + pages.last().label()) =~= joined(
            pages,
        ));
    }
}

/// A list of names holds one comma less than names: one between each two,
/// none in front and none behind.
pub proof fn lemma_list_is_comma_separated(pages: Seq<CodePage>)
    requires
        pages.len() > 0,
    ensures
        commas(joined(pages)) == pages.len() - 1,
    decreases pages.len(),
{
    lemma_labels_are_plain();
    lemma_commas_of_plain(pages.last().label());
    if pages.len() == 1 {
        assert(pages[0] == pages.last());
    } else {
        lemma_list_is_comma_separated(pages.drop_last());
        lemma_commas_of_parts(joined(pages.drop_last()) + separator(), pages.last().label());
        lemma_commas_of_parts(joined(pages.drop_last()), separator());
        assert(commas(separator()) == 1) by {
            reveal_with_fuel(commas, 3);
            assert(separator().drop_last() =~= seq![',']);
            assert(seq![','].drop_last() =~= Seq::<char>::empty());
        }
    }
}

/// The names of all encodings on one line, in table order.
pub fn code_page_list() -> (r: String)
    ensures
        r@ == joined(table()),
{
    let pages = code_pages();
    let mut out = String::new();
    let mut i: usize = 0;
    while i < pages.len()
        invariant
            i <= pages.len(),
            pages@ == table(),
            out@ == joined(table().take(i as int)),
        decreases pages.len() - i,
    {
        let ghost before = table().take(i as int);
        let ghost after = table().take(i + 1);
        assert(after.drop_last() =~= before);
        assert(after.last() == pages@[i as int]);
        if i > 0 {
            proof {
                reveal_strlit(", ");
                assert(", "@ =~= separator());
            }
            out.append(", ");
        }
        out.append(pages[i].name());
        assert(out@ =~= joined(after));
        i = i + 1;
    }
    assert(table().take(i as int) =~= table());
    out
}

/// The line that introduces the list of names.
pub open spec fn help_heading() -> Seq<char> {
    "CODEPAGE has to be set to one of the following values:"@
}

/// What is shown to a user who has not chosen one of the encodings: the
/// heading and the list of names, each on a line of its own.
pub open spec fn code_page_help_text() -> Seq<char> {
    help_heading() + seq!['\n'] + joined(table()) + seq!['\n']
}

/// The text that tells the user which encodings there are.
pub fn code_page_help() -> (r: String)
    ensures
        r@ == code_page_help_text(),
{
    proof {
        reveal_strlit("\n");
        assert("\n"@ =~= seq!['\n']);
    }
    let mut out = String::from_str("CODEPAGE has to be set to one of the following values:");
    out.append("\n");
    let list = code_page_list();
    out.append(list.as_str());
    out.append("\n");
    out
}

} // verus!
