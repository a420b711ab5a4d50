use clap::{Arg, Command};
use provider_client::cli::{banner, Cli, OutputFormat};
use provider_client::operators::{MixnetOperatorsMixnode, MixnetOperatorsMixnodeCommands};

fn command() -> Command {
    Command::new("mixnode")
        .arg(Arg::new("config_env_file").short('c').long("config-env-file"))
        .arg(Arg::new("output").short('o').long("output").value_parser(["json", "text"]))
}

fn parse(args: &[&str]) -> Cli {
    let matches = command().try_get_matches_from(args).unwrap();
    Cli {
        config_env_file: matches.get_one::<String>("config_env_file").cloned(),
        output: matches.get_one::<String>("output").map(|name| match name.as_str() {
            "json" => OutputFormat::Json,
            _ => OutputFormat::Text,
        }),
    }
}

#[test]
fn verify_cli() {
    command().debug_assert();
    assert_eq!(parse(&["mixnode"]).output(), OutputFormat::Text);
    assert_eq!(parse(&["mixnode", "--output", "json"]).output(), OutputFormat::Json);
    assert_eq!(parse(&["mixnode", "-o", "text"]).output(), OutputFormat::Text);
    let cli = parse(&["mixnode", "-c", "mixnode.env", "-o", "json"]);
    assert_eq!(cli.config_env_file, Some("mixnode.env".to_string()));
    assert_eq!(cli.output(), OutputFormat::Json);
}

#[test]
fn output_is_what_was_asked_for_or_text() {
    let asked = Cli { config_env_file: None, output: Some(OutputFormat::Json) };
    assert_eq!(asked.output(), OutputFormat::Json);
    let asked = Cli { config_env_file: None, output: Some(OutputFormat::Text) };
    assert_eq!(asked.output(), OutputFormat::Text);
    let silent = Cli { config_env_file: Some("env".to_string()), output: None };
    assert_eq!(silent.output(), OutputFormat::Text);
}

#[test]
fn default_output_format_is_text() {
    assert_eq!(OutputFormat::default(), OutputFormat::Text);
}

#[test]
fn banner_shows_logo_and_version() {
    let expected = "\n\n      _ __  _   _ _ __ ___\n     | '_ \\| | | | '_ \\ _ \\\n     | | | | |_| | | | | | |\n     |_| |_|\\__, |_| |_| |_|\n            |___/\n\n             (mixnode - version 1.2.3)\n\n    ";
    assert_eq!(banner("1.2.3"), expected);
    assert!(banner("").ends_with("(mixnode - version )\n\n    "));
}

#[test]
fn operator_commands_are_told_apart() {
    let bond = MixnetOperatorsMixnode { command: MixnetOperatorsMixnodeCommands::Bond };
    let vesting = MixnetOperatorsMixnode { command: MixnetOperatorsMixnodeCommands::BondVesting };
    assert_ne!(bond, vesting);
    assert_eq!(bond.command, MixnetOperatorsMixnodeCommands::Bond);
    let all = [
        MixnetOperatorsMixnodeCommands::Keys,
        MixnetOperatorsMixnodeCommands::Rewards,
        MixnetOperatorsMixnodeCommands::Settings,
        MixnetOperatorsMixnodeCommands::Bond,
        MixnetOperatorsMixnodeCommands::Unbound,
        MixnetOperatorsMixnodeCommands::BondVesting,
        MixnetOperatorsMixnodeCommands::UnboundVesting,
    ];
    for (i, one) in all.iter().enumerate() {
        for (j, other) in all.iter().enumerate() {
            assert_eq!(one == other, i == j);
        }
    }
}
