//! What the command line of the node binary comes to once it is parsed, and
//! the banner that the binary prints on a terminal.

use vstd::prelude::*;
use vstd::string::StringExecFns;

verus! {

/// How a command prints its result.
#[derive(Clone, Copy, Debug, PartialEq, Eq, Structural)]
pub enum OutputFormat {
    Json,
    Text,
}

impl Default for OutputFormat {
    fn default() -> (format: Self)
        ensures
            format == OutputFormat::Text,
    {
        OutputFormat::Text
    }
}

/// The options that come before the subcommand.
#[derive(Debug, PartialEq, Eq)]
pub struct Cli {
    /// Path pointing to an env file that configures the mixnode.
    pub config_env_file: Option<String>,
    /// The output format asked for, if any.
    pub output: Option<OutputFormat>,
}

impl Cli {
    /// The output format to use: the one asked for, or else text.
    pub fn output(&self) -> (format: OutputFormat)
        ensures
            format == match self.output {
                Some(asked) => asked,
                None => OutputFormat::Text,
            },
    {
        if let Some(output) = self.output {
            output
        } else {
            OutputFormat::default()
        }
    }
}

/// The banner for `version`: the logo, then the name of the binary and its
/// version.
pub open spec fn banner_spec(version: Seq<char>) -> Seq<char> {
    r#"

      _ __  _   _ _ __ ___
     | '_ \| | | | '_ \ _ \
     | | | | |_| | | | | | |
     |_| |_|\__, |_| |_| |_|
            |___/

             (mixnode - version "#@ + version + r#")

    "#@
}

/// The banner that the binary prints when it starts on a terminal.
pub fn banner(version: &str) -> (text: String)
    ensures
        text@ == banner_spec(version@),
{
    let mut text = String::from_str(
        r#"

      _ __  _   _ _ __ ___
     | '_ \| | | | '_ \ _ \
     | | | | |_| | | | | | |
     |_| |_|\__, |_| |_| |_|
            |___/

             (mixnode - version "#,
    );
    text.append(version);
    text.append(r#")

    "#);
    text
}

} // verus!
