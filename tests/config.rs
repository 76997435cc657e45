use updog::config::{
    command_sequence_from_field, CommandSequence, Config, FieldValue, PackageManagerConfig,
    SubcommandConfig, UpdateCommand,
};

fn text(s: &str) -> FieldValue {
    FieldValue::Text(s.to_string())
}

fn list(items: &[&str]) -> FieldValue {
    FieldValue::List(items.iter().map(|s| Some(s.to_string())).collect())
}

fn command(check: Option<FieldValue>, update: Option<FieldValue>) -> UpdateCommand {
    UpdateCommand::from_fields(check.as_ref(), update.as_ref()).unwrap()
}

fn subcommand(id: &str, check: Option<FieldValue>, update: Option<FieldValue>) -> SubcommandConfig {
    SubcommandConfig { id: id.to_string(), command: command(check, update) }
}

fn manager(id: &str, subcommands: Vec<SubcommandConfig>) -> PackageManagerConfig {
    PackageManagerConfig { id: id.to_string(), subcommands, check: None, update: None }
}

fn direct_manager(
    id: &str,
    check: Option<FieldValue>,
    update: Option<FieldValue>,
    subcommands: Vec<SubcommandConfig>,
) -> PackageManagerConfig {
    let direct = command(check, update);
    PackageManagerConfig { id: id.to_string(), subcommands, check: direct.check, update: direct.update }
}

#[test]
fn test_default_config() {
    let config = Config::default();
    assert_eq!(config.commands.len(), 1);
    let homebrew = &config.commands[0];
    assert_eq!(homebrew.id, "homebrew");

    // Test subcommands
    assert_eq!(homebrew.subcommands.len(), 1);
    let default_sc = homebrew.default_subcommand().unwrap();
    assert_eq!(default_sc.id, "default");

    let cmd = &default_sc.command;
    assert!(cmd.check.is_some());
    assert!(cmd.update.is_some());
}

#[test]
fn test_find_package_manager() {
    let config = Config::default();

    let homebrew = config.find_package_manager("homebrew");
    assert!(homebrew.is_some());
    assert_eq!(homebrew.unwrap().id, "homebrew");

    let unknown = config.find_package_manager("unknown");
    assert!(unknown.is_none());
}

#[test]
fn default_config_commands() {
    let config = Config::default();
    let sc = config.find_subcommand("homebrew", None).unwrap();
    assert_eq!(sc.command.check.as_ref().unwrap().as_single_str(), Some("brew outdated"));
    assert_eq!(sc.command.update.as_ref().unwrap().as_single_str(), Some("brew upgrade"));
}

#[test]
fn test_parse_valid_config() {
    let config = Config {
        commands: vec![
            manager(
                "homebrew",
                vec![subcommand("default", Some(text("brew outdated")), Some(text("brew upgrade")))],
            ),
            manager("npm", vec![subcommand("default", None, Some(text("npm update -g")))]),
        ],
    };
    assert_eq!(config.commands.len(), 2);

    let homebrew = config.find_package_manager("homebrew").unwrap();
    let homebrew_default = homebrew.default_subcommand().unwrap();
    assert!(homebrew_default.command.check.is_some());

    let npm = config.find_package_manager("npm").unwrap();
    let npm_default = npm.default_subcommand().unwrap();
    assert!(npm_default.command.update.is_some());
    assert!(npm_default.command.check.is_none());
}

fn npm_and_rust_config() -> Config {
    Config {
        commands: vec![
            manager(
                "npm",
                vec![subcommand("default", None, Some(list(&["npm cache clean -f", "npm update -g"])))],
            ),
            manager("rust", vec![subcommand("default", None, Some(text("rustup update")))]),
        ],
    }
}

#[test]
fn test_parse_command_sequence() {
    let config = npm_and_rust_config();
    assert_eq!(config.commands.len(), 2);

    let npm = config.find_package_manager("npm").unwrap();
    let npm_default = npm.default_subcommand().unwrap();
    let npm_update = &npm_default.command.update;
    assert!(npm_update.is_some());

    let commands = npm_update.as_ref().unwrap().as_multiple().unwrap();
    assert_eq!(commands.len(), 2);
    assert_eq!(commands[0], "npm cache clean -f");
    assert_eq!(commands[1], "npm update -g");

    let rust = config.find_package_manager("rust").unwrap();
    let rust_default = rust.default_subcommand().unwrap();
    let rust_update = &rust_default.command.update;
    assert!(rust_update.is_some());
    assert_eq!(rust_update.as_ref().unwrap().as_single_str().unwrap(), "rustup update");
}

#[test]
fn test_order_preservation() {
    let config = Config {
        commands: vec![
            manager("brew", vec![subcommand("default", None, Some(text("brew upgrade")))]),
            manager("npm", vec![subcommand("default", None, Some(text("npm update -g")))]),
        ],
    };
    assert_eq!(config.commands[0].id, "brew");
    assert_eq!(config.commands[1].id, "npm");
}

#[test]
fn test_parse_subcommands() {
    let config = Config {
        commands: vec![manager(
            "rustup",
            vec![
                subcommand("default", Some(text("rustup check")), Some(text("rustup update"))),
                subcommand("self", None, Some(text("rustup self update"))),
            ],
        )],
    };
    let rustup = config.find_package_manager("rustup").unwrap();

    // Test default subcommand
    let default_sc = rustup.default_subcommand().unwrap();
    assert_eq!(default_sc.id, "default");
    assert!(default_sc.command.check.is_some());

    // Test specific subcommand
    let self_sc = rustup.find_subcommand("self").unwrap();
    assert_eq!(self_sc.id, "self");
    assert!(self_sc.command.update.is_some());
    assert!(self_sc.command.check.is_none());

    // Test find_subcommand method
    let self_sc2 = config.find_subcommand("rustup", Some("self")).unwrap();
    assert_eq!(self_sc2.id, "self");

    // Test default subcommand
    let default_sc2 = config.find_subcommand("rustup", None).unwrap();
    assert_eq!(default_sc2.id, "default");
}

#[test]
fn test_parse_subcommands_with_simple_fields() {
    let config = Config {
        commands: vec![
            manager(
                "npm",
                vec![
                    subcommand("default", None, Some(text("npm update -g"))),
                    subcommand("globals", Some(text("npm outdated -g")), Some(text("npm update -g"))),
                ],
            ),
            manager("other", vec![subcommand("default", Some(text("other check")), None)]),
        ],
    };
    assert_eq!(config.commands.len(), 2);

    let npm = config.find_package_manager("npm").unwrap();
    assert_eq!(npm.subcommands.len(), 2);

    let npm_default = npm.default_subcommand().unwrap();
    assert_eq!(npm_default.id, "default");
    assert!(npm_default.command.update.is_some());
    assert!(npm_default.command.check.is_none());
}

#[test]
fn test_parse_command_sequence_with_simple_fields() {
    let config = npm_and_rust_config();
    assert_eq!(config.commands.len(), 2);

    let npm = config.find_package_manager("npm").unwrap();
    let npm_default = npm.default_subcommand().unwrap();
    let npm_update = &npm_default.command.update;
    assert!(npm_update.is_some());

    let commands = npm_update.as_ref().unwrap().as_multiple().unwrap();
    assert_eq!(commands.len(), 2);
    assert_eq!(commands[0], "npm cache clean -f");
    assert_eq!(commands[1], "npm update -g");

    let rust = config.find_package_manager("rust").unwrap();
    let rust_default = rust.default_subcommand().unwrap();
    let rust_update = &rust_default.command.update;
    assert!(rust_update.is_some());
    assert_eq!(rust_update.as_ref().unwrap().as_single_str().unwrap(), "rustup update");
}

#[test]
fn test_simple_config_compatibility() {
    let config = Config {
        commands: vec![
            direct_manager("brew", Some(text("brew outdated")), Some(text("brew upgrade")), vec![]),
            direct_manager(
                "mixed",
                Some(text("mixed check")),
                Some(text("mixed update")),
                vec![subcommand("sub1", Some(text("sub1 check")), None)],
            ),
        ],
    };
    assert_eq!(config.commands.len(), 2);

    // Test package manager with direct fields only
    let brew = config.find_package_manager("brew").unwrap();
    assert_eq!(brew.subcommands.len(), 0);
    assert!(brew.check.is_some());
    assert!(brew.update.is_some());

    // Test if find_subcommand properly handles direct fields
    let brew_subcommand = config.find_subcommand("brew", None).unwrap();
    assert_eq!(brew_subcommand.id, "default");
    assert_eq!(
        brew_subcommand.command.check.as_ref().unwrap().as_single_str().unwrap(),
        "brew outdated"
    );
    assert_eq!(
        brew_subcommand.command.update.as_ref().unwrap().as_single_str().unwrap(),
        "brew upgrade"
    );

    // Test package manager with both direct fields and subcommands
    let mixed = config.find_package_manager("mixed").unwrap();
    assert_eq!(mixed.subcommands.len(), 1);
    assert!(mixed.check.is_some());
    assert!(mixed.update.is_some());

    // Default subcommand (subcommands have priority)
    let mixed_default = config.find_subcommand("mixed", None).unwrap();
    assert_eq!(mixed_default.id, "sub1");
    assert_eq!(
        mixed_default.command.check.as_ref().unwrap().as_single_str().unwrap(),
        "sub1 check"
    );

    // Specific subcommand request
    let mixed_sub1 = config.find_subcommand("mixed", Some("sub1")).unwrap();
    assert_eq!(mixed_sub1.id, "sub1");

    // Direct fields should not be returned when requesting a nonexistent subcommand
    let nonexistent = config.find_subcommand("mixed", Some("nonexistent"));
    assert!(nonexistent.is_none());
}

#[test]
fn first_subcommand_wins_and_first_entry_is_default() {
    let pm = manager(
        "m",
        vec![
            subcommand("a", Some(text("first a")), None),
            subcommand("b", Some(text("b")), None),
            subcommand("a", Some(text("second a")), None),
        ],
    );
    let a = pm.find_subcommand("a").unwrap();
    assert_eq!(a.command.check.as_ref().unwrap().as_single_str(), Some("first a"));
    assert_eq!(pm.default_subcommand().unwrap().id, "a");
    assert!(pm.find_subcommand("c").is_none());

    let empty = manager("e", vec![]);
    assert!(empty.default_subcommand().is_none());
    assert!(empty.find_subcommand_command(None).is_none());
}

#[test]
fn find_subcommand_command_falls_back_to_direct_fields() {
    let pm = direct_manager("d", Some(text("d check")), None, vec![]);
    let c = pm.find_subcommand_command(None).unwrap();
    assert_eq!(c.check.as_ref().unwrap().as_single_str(), Some("d check"));
    assert!(c.update.is_none());
    assert!(pm.find_subcommand_command(Some("x")).is_none());

    let both = direct_manager("b", Some(text("direct")), None, vec![subcommand("s", Some(text("sub")), None)]);
    let c = both.find_subcommand_command(None).unwrap();
    assert_eq!(c.check.as_ref().unwrap().as_single_str(), Some("sub"));
    let c = both.find_subcommand_command(Some("s")).unwrap();
    assert_eq!(c.check.as_ref().unwrap().as_single_str(), Some("sub"));
}

#[test]
fn fields_become_command_sequences() {
    match command_sequence_from_field(&text("brew upgrade")).unwrap() {
        Some(CommandSequence::Single(s)) => assert_eq!(s, "brew upgrade"),
        _ => panic!("expected one command"),
    }
    match command_sequence_from_field(&list(&["a", "b"])).unwrap() {
        Some(CommandSequence::Multiple(v)) => assert_eq!(v, vec!["a".to_string(), "b".to_string()]),
        _ => panic!("expected a list of commands"),
    }
    match command_sequence_from_field(&list(&[])).unwrap() {
        Some(CommandSequence::Multiple(v)) => assert!(v.is_empty()),
        _ => panic!("expected an empty list of commands"),
    }
    assert!(command_sequence_from_field(&FieldValue::Other).unwrap().is_none());

    let bad = FieldValue::List(vec![Some("a".to_string()), None]);
    assert_eq!(command_sequence_from_field(&bad).unwrap_err(), "Expected string in command sequence");
    assert!(UpdateCommand::from_fields(Some(&text("ok")), Some(&bad)).is_err());
    assert!(UpdateCommand::from_fields(Some(&bad), None).is_err());

    let c = UpdateCommand::from_fields(None, Some(&FieldValue::Other)).unwrap();
    assert!(c.check.is_none());
    assert!(c.update.is_none());
}
