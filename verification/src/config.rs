//! The output format that a configuration file declares.

use vstd::prelude::*;
use crate::format::{format_outcome, parsed_format, FormatError, FormatFault, SupportedImages};

verus! {

/// A value of a TOML document (`toml::Value`): a table, an array, or a scalar.
#[verifier::external_type_specification]
#[verifier::external_body]
pub struct ExValue(toml::Value);

/// The error of the TOML parser (`toml::de::Error`).
#[verifier::external_type_specification]
#[verifier::external_body]
pub struct ExDeError(toml::de::Error);

/// What `toml::from_str` makes of a text: the document as a value, or the
/// reason why the text is no TOML document.
pub uninterp spec fn toml_document(text: Seq<char>) -> Result<toml::Value, toml::de::Error>;

/// What `toml::Value::get` finds in a value under a key: the member of that
/// name where the value is a table that has one.
pub uninterp spec fn toml_member(value: toml::Value, key: Seq<char>) -> Option<toml::Value>;

/// What `toml::Value::as_str` finds in a value: its text where the value is a
/// string.
pub uninterp spec fn toml_string(value: toml::Value) -> Option<Seq<char>>;

/// Calls `toml::from_str` for a `toml::Value`. The document, or the error,
/// depends on the text alone.
#[verifier::external_body]
pub(crate) fn parse_document(text: &str) -> (r: Result<toml::Value, toml::de::Error>)
    ensures
        r == toml_document(text@),
{
    toml::from_str::<toml::Value>(text)
}

/// Calls `toml::Value::get` with a key. What it finds depends on the value
/// and the key alone.
#[verifier::external_body]
pub(crate) fn member<'a>(value: &'a toml::Value, key: &str) -> (r: Option<&'a toml::Value>)
    ensures
        match r {
            Some(found) => toml_member(*value, key@) == Some(*found),
            None => toml_member(*value, key@) is None,
        },
{
    value.get(key)
}

/// `toml::Value::as_str` returns the text of a string value and `None` for
/// any other value.
pub assume_specification<'a>[ toml::Value::as_str ](value: &'a toml::Value) -> (r: Option<&'a str>)
    ensures
        match r {
            Some(text) => toml_string(*value) == Some(text@),
            None => toml_string(*value) is None,
        },
;

/// The table of a configuration that belongs to this tool.
pub open spec fn table_key() -> Seq<char> {
    "ico2img"@
}

/// The key of the format name in that table.
pub open spec fn format_key() -> Seq<char> {
    "format"@
}

/// The format name that a document declares: the string under `format` in the
/// table `ico2img`, where there is one.
pub open spec fn declared_name(document: toml::Value) -> Option<Seq<char>> {
    match toml_member(document, table_key()) {
        None => None,
        Some(table) => match toml_member(table, format_key()) {
            None => None,
            Some(value) => toml_string(value),
        },
    }
}

/// The format that stands for what a configuration declares: an absent name
/// is an error, a name of no format another.
pub open spec fn format_of_name(name: Option<Seq<char>>) -> Result<SupportedImages, FormatFault> {
    match name {
        None => Err(FormatFault::FormatNotSpecified),
        Some(name) => parsed_format(name),
    }
}

/// The format that a configuration text declares.
pub open spec fn configured_format(text: Seq<char>) -> Result<SupportedImages, FormatFault> {
    match toml_document(text) {
        Err(e) => Err(FormatFault::InvalidConfig(e)),
        Ok(document) => format_of_name(declared_name(document)),
    }
}

/// The format of a run: that of the configuration where one is supplied, and
/// that of the command line where none is.
pub open spec fn resolved_format(cli: SupportedImages, config: Option<Seq<char>>) -> Result<
    SupportedImages,
    FormatFault,
> {
    match config {
        None => Ok(cli),
        Some(text) => configured_format(text),
    }
}

/// The view of an optional text.
pub open spec fn text_view(text: Option<&str>) -> Option<Seq<char>> {
    match text {
        None => None,
        Some(text) => Some(text@),
    }
}

/// The format that stands for the name found in a configuration, if one was
/// found.
pub fn format_from_entry(name: Option<&str>) -> (r: Result<SupportedImages, FormatError>)
    ensures
        format_outcome(r) == format_of_name(text_view(name)),
{
    match name {
        None => Err(FormatError::FormatNotSpecified),
        Some(name) => SupportedImages::from_str(name),
    }
}

/// The format that a configuration text declares.
pub fn format_from_config(contents: &str) -> (r: Result<SupportedImages, FormatError>)
    ensures
        format_outcome(r) == configured_format(contents@),
{
    let document = match parse_document(contents) {
        Err(e) => {
            return Err(FormatError::InvalidConfig(e));
        },
        Ok(document) => document,
    };
    let name = match member(&document, "ico2img") {
        None => None,
        Some(table) => match member(table, "format") {
            None => None,
            Some(value) => value.as_str(),
        },
    };
    format_from_entry(name)
}

/// The format of a run: the configuration, where one is supplied, overrides
/// the format of the command line.
pub fn resolve_format(cli: SupportedImages, config: Option<&str>) -> (r: Result<
    SupportedImages,
    FormatError,
>)
    ensures
        format_outcome(r) == resolved_format(cli, text_view(config)),
{
    match config {
        None => Ok(cli),
        Some(contents) => format_from_config(contents),
    }
}

/// With a configuration the format of the command line counts for nothing.
pub proof fn lemma_config_overrides_cli(first: SupportedImages, second: SupportedImages, config: Seq<char>)
    ensures
        resolved_format(first, Some(config)) == resolved_format(second, Some(config)),
{
}

/// Without a configuration the format of the command line is taken.
pub proof fn lemma_cli_format_is_default(cli: SupportedImages)
    ensures
        resolved_format(cli, None) == Ok::<SupportedImages, FormatFault>(cli),
{
}

} // verus!
