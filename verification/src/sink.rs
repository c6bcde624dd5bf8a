//! The command line that applies a wallpaper.
//!
//! A command is configured as a template in the syntax of the `strfmt` crate,
//! with the field `{path}` where the image's absolute path belongs, as in
//! `feh --bg-scale {path}`. Running the command is the caller's part.

use std::collections::HashMap;
use vstd::prelude::*;
use crate::failure::ConfigurationError;

verus! {

#[verifier::external_type_specification]
#[verifier::external_body]
pub struct ExFmtError(strfmt::FmtError);

/// What `strfmt::strfmt` makes of `template` when `key` is the only variable
/// and stands for `value`: the expanded text, or `None` where it reports an
/// error.
pub uninterp spec fn expansion(template: Seq<char>, key: Seq<char>, value: Seq<char>) -> Option<
    Seq<char>,
>;

/// Expands `template` with `strfmt::strfmt`, given the one variable `key`
/// with the text `value`.
///
/// The template's syntax is that crate's and is not spelled out here. The
/// contract claims that text or error depend on the three arguments alone; a
/// template that the crate cannot read comes back as an error.
#[verifier::external_body]
fn expand(template: &str, key: &str, value: &str) -> (out: Result<String, strfmt::FmtError>)
    ensures
        match out {
            Ok(text) => expansion(template@, key@, value@) == Some(text@),
            Err(_) => expansion(template@, key@, value@) is None,
        },
{
    let mut vars: HashMap<String, &str> = HashMap::new();
    vars.insert(key.to_string(), value);
    strfmt::strfmt(template, &vars)
}

/// The command for an expansion: its text where there is one; a template
/// that could not be expanded is a fault of the configuration.
pub fn command_of(expanded: Result<String, strfmt::FmtError>) -> (command: Result<
    String,
    ConfigurationError,
>)
    ensures
        match expanded {
            Ok(text) => command matches Ok(c) && c@ == text@,
            Err(_) => command matches Err(e) && e == ConfigurationError::InvalidCommand,
        },
{
    match expanded {
        Ok(text) => Ok(text),
        Err(_) => Err(ConfigurationError::InvalidCommand),
    }
}

/// The command line that applies the image at `path`: `template` with its
/// `{path}` fields filled in.
pub fn wallpaper_command(template: &str, path: &str) -> (command: Result<
    String,
    ConfigurationError,
>)
    ensures
        match expansion(template@, "path"@, path@) {
            Some(text) => command matches Ok(c) && c@ == text,
            None => command matches Err(e) && e == ConfigurationError::InvalidCommand,
        },
{
    command_of(expand(template, "path", path))
}

} // verus!
