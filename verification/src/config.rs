//! Run configuration: the output style and the error raised for an
//! unrecognized style value.

use vstd::prelude::*;

use crate::strops::str_eq;

verus! {

broadcast use vstd::string::group_string_axioms;

/// The two supported output styles.
#[derive(Clone, Copy, Debug, PartialEq, Eq, Structural)]
pub enum OutputFormat {
    Markdown,
    Plain,
}

/// A fatal configuration fault: the caller asked for an output style
/// that the tool does not support. Carries the offending value so the
/// user can diagnose it without re-running.
#[derive(Debug)]
pub struct ConfigError {
    pub value: String,
}

/// Parses an output-style name. Exactly `"markdown"` and `"plain"` are
/// accepted; anything else is a `ConfigError` carrying the rejected
/// value.
pub fn parse_output_format(name: &str) -> (r: Result<OutputFormat, ConfigError>)
    ensures
        name@ == "markdown"@ ==> r == Ok::<OutputFormat, ConfigError>(OutputFormat::Markdown),
        name@ == "plain"@ ==> r == Ok::<OutputFormat, ConfigError>(OutputFormat::Plain),
        name@ != "markdown"@ && name@ != "plain"@ ==> (r matches Err(e) && e.value@ == name@),
{
    proof {
        reveal_strlit("markdown");
        reveal_strlit("plain");
        assert("markdown"@.len() == 8);
        assert("plain"@.len() == 5);
        assert("markdown"@ != "plain"@);
    }
    if str_eq(name, "markdown") {
        Ok(OutputFormat::Markdown)
    } else if str_eq(name, "plain") {
        Ok(OutputFormat::Plain)
    } else {
        Err(ConfigError { value: name.to_owned() })
    }
}

} // verus!
