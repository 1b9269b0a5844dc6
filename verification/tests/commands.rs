use gitignore_templates::commands::args::{parse_args, Commands, Invocation};

fn line(args: &[&str]) -> Vec<String> {
    args.iter().map(|arg| arg.to_string()).collect()
}

#[test]
fn verbs_name_their_commands() {
    assert_eq!(Commands::from_str("list"), Some(Commands::List));
    assert_eq!(Commands::from_str("pull"), Some(Commands::Pull));
    assert_eq!(Commands::from_str("purge"), Some(Commands::Purge));
    assert_eq!(Commands::from_str("help"), Some(Commands::Help));
}

#[test]
fn aliases_name_their_commands_in_either_case() {
    assert_eq!(Commands::from_str("l"), Some(Commands::List));
    assert_eq!(Commands::from_str("L"), Some(Commands::List));
    assert_eq!(Commands::from_str("p"), Some(Commands::Pull));
    assert_eq!(Commands::from_str("P"), Some(Commands::Pull));
    assert_eq!(Commands::from_str("h"), Some(Commands::Help));
    assert_eq!(Commands::from_str("H"), Some(Commands::Help));
}

#[test]
fn other_words_name_no_command() {
    assert_eq!(Commands::from_str(""), None);
    assert_eq!(Commands::from_str("LIST"), None);
    assert_eq!(Commands::from_str("Pull"), None);
    assert_eq!(Commands::from_str("purg"), None);
    assert_eq!(Commands::from_str("purge "), None);
    assert_eq!(Commands::from_str("pu"), None);
    assert_eq!(Commands::from_str("fetch"), None);
    assert_eq!(Commands::from_str("-h"), None);
}

#[test]
fn a_command_is_written_as_its_verb() {
    assert_eq!(Commands::List.to_string(), "list");
    assert_eq!(Commands::Pull.to_string(), "pull");
    assert_eq!(Commands::Purge.to_string(), "purge");
    assert_eq!(Commands::Help.to_string(), "help");
}

#[test]
fn the_verb_of_a_command_names_it_again() {
    for command in [Commands::List, Commands::Pull, Commands::Purge, Commands::Help] {
        assert_eq!(Commands::from_str(&command.to_string()), Some(command));
    }
}

#[test]
fn each_command_has_its_help_line() {
    assert_eq!(Commands::List.get_help(), "List all available templates");
    assert_eq!(Commands::Pull.get_help(), "Pull a template from the repository");
    assert_eq!(Commands::Purge.get_help(), "Purge gitignore cache");
    assert_eq!(Commands::Help.get_help(), "Shows the help message");
}

#[test]
fn each_command_has_its_usage_line() {
    assert_eq!(Commands::List.get_usage(), "list");
    assert_eq!(Commands::Pull.get_usage(), "pull <template> [output]");
    assert_eq!(Commands::Purge.get_usage(), "purge");
    assert_eq!(Commands::Help.get_usage(), "help");
}

#[test]
fn run_takes_the_operands_of_pull() {
    assert_eq!(
        Commands::Pull.run(Some("Rust".to_string()), None),
        Invocation::Pull { template: "Rust".to_string(), output: None }
    );
    assert_eq!(
        Commands::Pull.run(Some("Rust".to_string()), Some("out.txt".to_string())),
        Invocation::Pull { template: "Rust".to_string(), output: Some("out.txt".to_string()) }
    );
}

#[test]
fn run_shows_the_usage_for_pull_without_a_template() {
    assert_eq!(Commands::Pull.run(None, None), Invocation::Help);
    assert_eq!(Commands::Pull.run(None, Some("out.txt".to_string())), Invocation::Help);
}

#[test]
fn run_passes_over_the_operands_of_the_other_commands() {
    assert_eq!(Commands::List.run(None, None), Invocation::List);
    assert_eq!(Commands::List.run(Some("x".to_string()), Some("y".to_string())), Invocation::List);
    assert_eq!(Commands::Purge.run(Some("x".to_string()), None), Invocation::Purge);
    assert_eq!(Commands::Help.run(None, None), Invocation::Help);
}

#[test]
fn no_argument_asks_for_the_usage() {
    assert_eq!(parse_args(Vec::new()), Invocation::Help);
}

#[test]
fn a_verb_alone_asks_for_its_command() {
    assert_eq!(parse_args(line(&["list"])), Invocation::List);
    assert_eq!(parse_args(line(&["l"])), Invocation::List);
    assert_eq!(parse_args(line(&["purge"])), Invocation::Purge);
    assert_eq!(parse_args(line(&["help"])), Invocation::Help);
    assert_eq!(parse_args(line(&["h"])), Invocation::Help);
}

#[test]
fn pull_takes_the_template_and_the_output() {
    assert_eq!(
        parse_args(line(&["pull", "Rust"])),
        Invocation::Pull { template: "Rust".to_string(), output: None }
    );
    assert_eq!(
        parse_args(line(&["p", "Node", "node.gitignore"])),
        Invocation::Pull {
            template: "Node".to_string(),
            output: Some("node.gitignore".to_string()),
        }
    );
}

#[test]
fn pull_passes_over_what_follows_the_output() {
    assert_eq!(
        parse_args(line(&["pull", "Go", "a", "b", "c"])),
        Invocation::Pull { template: "Go".to_string(), output: Some("a".to_string()) }
    );
}

#[test]
fn pull_without_a_template_asks_for_the_usage() {
    assert_eq!(parse_args(line(&["pull"])), Invocation::Help);
}

#[test]
fn an_unknown_subcommand_asks_for_the_usage() {
    assert_eq!(parse_args(line(&["fetch"])), Invocation::Help);
    assert_eq!(parse_args(line(&["LIST"])), Invocation::Help);
    assert_eq!(parse_args(line(&[""])), Invocation::Help);
}

#[test]
fn a_version_flag_wins_wherever_it_stands() {
    assert_eq!(parse_args(line(&["-V"])), Invocation::Version);
    assert_eq!(parse_args(line(&["-v"])), Invocation::Version);
    assert_eq!(parse_args(line(&["--version"])), Invocation::Version);
    assert_eq!(parse_args(line(&["list", "-v"])), Invocation::Version);
    assert_eq!(parse_args(line(&["pull", "Rust", "--version"])), Invocation::Version);
    assert_eq!(parse_args(line(&["--help", "-V"])), Invocation::Version);
}

#[test]
fn a_help_flag_asks_for_the_usage() {
    assert_eq!(parse_args(line(&["--help"])), Invocation::Help);
    assert_eq!(parse_args(line(&["-h"])), Invocation::Help);
    assert_eq!(parse_args(line(&["list", "--help"])), Invocation::Help);
    assert_eq!(parse_args(line(&["pull", "Rust", "-h"])), Invocation::Help);
    assert_eq!(parse_args(line(&["purge", "-h"])), Invocation::Help);
    assert_eq!(parse_args(line(&["--help", "list"])), Invocation::Help);
}

#[test]
fn a_dashed_first_argument_is_no_subcommand() {
    assert_eq!(parse_args(line(&["-x", "list"])), Invocation::Help);
    assert_eq!(parse_args(line(&["--quiet", "pull", "Rust"])), Invocation::Help);
}

#[test]
fn a_dashed_operand_is_taken_as_it_stands() {
    assert_eq!(
        parse_args(line(&["pull", "-x", "out"])),
        Invocation::Pull { template: "-x".to_string(), output: Some("out".to_string()) }
    );
}

#[test]
fn the_subcommand_is_no_operand() {
    assert_eq!(
        parse_args(line(&["pull", "pull"])),
        Invocation::Pull { template: "pull".to_string(), output: None }
    );
    assert_eq!(
        parse_args(line(&["pull", "A", "B"])),
        Invocation::Pull { template: "A".to_string(), output: Some("B".to_string()) }
    );
}
