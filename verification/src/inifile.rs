//! INI documents, as the crate `ini` reads and changes them.

use vstd::prelude::*;
use ini::{Ini, ParseError};

verus! {

#[verifier::external_type_specification]
#[verifier::external_body]
pub struct ExIni(ini::Ini);

#[verifier::external_type_specification]
#[verifier::external_body]
pub struct ExIniParseError(ini::ParseError);

/// The document that `text` parses to, or `None` where it is not an INI
/// document.
pub uninterp spec fn ini_parsed(text: Seq<char>) -> Option<Ini>;

/// The document `doc` with `key` of `section` set to `value`.
pub uninterp spec fn ini_with(doc: Ini, section: Seq<char>, key: Seq<char>, value: Seq<char>) -> Ini;

/// The value of `key` in `section` of the document, if it has one.
pub uninterp spec fn ini_value(doc: Ini, section: Seq<char>, key: Seq<char>) -> Option<Seq<char>>;

/// `Ini::load_from_str`: the document, a function of the text, or the error
/// where the text does not parse.
#[verifier::external_body]
pub(crate) fn ini_parse(text: &str) -> (parsed: Result<Ini, ParseError>)
    ensures
        match parsed {
            Ok(doc) => ini_parsed(text@) == Some(doc),
            Err(_) => ini_parsed(text@).is_none(),
        },
{
    Ini::load_from_str(text)
}

/// `ToString::to_string` on a `ParseError`: the text of the error. Nothing
/// is claimed of it.
#[verifier::external_body]
pub(crate) fn ini_error_text(error: &ParseError) -> (text: String) {
    error.to_string()
}

/// `Ini::with_section` and `SectionSetter::set`: sets one key of one named
/// section.
#[verifier::external_body]
pub(crate) fn ini_set(doc: &mut Ini, section: &str, key: &str, value: &str)
    ensures
        *final(doc) == ini_with(*old(doc), section@, key@, value@),
{
    doc.with_section(Some(section)).set(key, value);
}

/// `Ini::get_from`: the value of one key of one named section.
#[verifier::external_body]
pub(crate) fn ini_get(doc: &Ini, section: &str, key: &str) -> (value: Option<String>)
    ensures
        crate::text::text_view(value) == ini_value(*doc, section@, key@),
{
    doc.get_from(Some(section), key).map(String::from)
}

} // verus!
