use cmdstack::logic::param::{BooleanParameter as OldBoolean, IntParameter as OldInt, MockRng as OldMockRng, RandomStringGenerator};
use cmdstack::backend::cmd::Cmd as StoredCmd;
use cmdstack::backend::command_line_parser::{command_from_matches, Cmd, ParseRefusal, SubcommandValues};
use cmdstack::cli::add::{AddAction, AddEvent, AddState, HandleAddError};
use cmdstack::cli::args::{AddArgs, SearchArgs};
use cmdstack::cli::config::{
    ApplicationTheme, ApplicationThemeArgs, CliDisplayLimitArgs, CliPrintStyle, CliPrintStyleArgs,
    ConfigArgs, ConfigError, ParamIntRangeArgs, ParamStringLengthArgs,
};
use cmdstack::cli::delete::{DeleteAction, DeleteEvent, DeleteState, HandleDeleteError};
use cmdstack::cli::outputs::{format_output, ErrorOutput, Output};
use cmdstack::cli::prompter::{
    blank_prompt, check_search_args_exist, command_from_prompts, lines_of, CommandInputValidator,
    SearchArgsUserInput, Validation,
};
use cmdstack::cli::search::{HandleSearchError, SearchAction, SearchEvent, SearchState};
use cmdstack::cli::update::{HandleUpdateError, UpdateAction, UpdateEvent, UpdateState};
use cmdstack::cli::Cli;
use cmdstack::data::dal::sqlite::Command as Schema;
use cmdstack::data::models::{Command, InternalCommand};
use cmdstack::logic::command::{AddCommandError, SearchCommandArgs, UpdateCommandError};
use cmdstack::logic::config::{self, Config, UiDefaultTerminal};
use cmdstack::logic::parameters::ParameterError;
use cmdstack::logic::Logic;
use cmdstack::text::{int_to_string, nat_to_string};
use cmdstack::ui::{search_args_for, terminal_script_args, DisplayCommand};

fn cli() -> Cli {
    Cli::new(Logic::new(Config::default()))
}

fn stored(id: i64, command: &str, tag: Option<&str>) -> Command {
    Command {
        id,
        last_used: 0,
        internal_command: InternalCommand {
            command: command.to_string(),
            tag: tag.map(|t| t.to_string()),
            note: None,
            favourite: false,
        },
    }
}

fn search(command: Option<&str>, tag: Option<&str>) -> SearchCommandArgs {
    SearchCommandArgs {
        command: command.map(|c| c.to_string()),
        tag: tag.map(|t| t.to_string()),
        order_by_recently_used: false,
        favourites_only: false,
    }
}

fn two_commands() -> Vec<Command> {
    vec![stored(1, "abcd", Some("green")), stored(2, "abce", Some("greet"))]
}

#[test]
fn search_command_filters_by_fuzzy_match() {
    let logic = Logic::new(Config::default());
    assert_eq!(logic.search_command(two_commands(), &search(None, Some("gree"))).len(), 2);
    assert_eq!(logic.search_command(two_commands(), &search(None, Some("green"))).len(), 1);
    assert_eq!(logic.search_command(two_commands(), &search(Some("abc"), None)).len(), 2);
    let found = logic.search_command(two_commands(), &search(Some("abcd"), None));
    assert_eq!(found.len(), 1);
    assert_eq!(found[0].id, 1);
}

#[test]
fn search_without_terms_finds_all_in_order() {
    let logic = Logic::new(Config::default());
    let found = logic.search_command(two_commands(), &search(None, None));
    assert_eq!(found.len(), 2);
    assert_eq!(found[0].id, 1);
    assert_eq!(found[1].id, 2);
}

#[test]
fn validate_add_and_update_commands() {
    let logic = Logic::new(Config::default());
    let mut c = InternalCommand { command: "@{bad}".to_string(), tag: None, note: None, favourite: false };
    assert!(logic.validate_add_command(&c).is_err());
    c.command = "asdf".to_string();
    assert!(logic.validate_add_command(&c).is_ok());
    c.command = "@{what}".to_string();
    assert!(logic.validate_update_command(&c).is_err());
    c.command = "@{int}".to_string();
    assert!(logic.validate_update_command(&c).is_ok());
    c.command = "   ".to_string();
    assert!(matches!(logic.validate_add_command(&c), Err(AddCommandError::InvalidInput)));
    assert!(matches!(logic.validate_update_command(&c), Err(UpdateCommandError::InvalidInput)));
}

#[test]
fn config_display_limit() {
    let mut cli = cli();
    let r = cli.handle_config_command(ConfigArgs::CliDisplayLimit(CliDisplayLimitArgs { value: 0 }));
    match r {
        Err(ConfigError::InvalidValue(m)) => assert_eq!(m, "value: cli-display-limit must be at least 1"),
        _ => panic!("expected an invalid value"),
    }
    assert_eq!(cli.logic.config.cli_display_limit, 10);
    assert!(cli
        .handle_config_command(ConfigArgs::CliDisplayLimit(CliDisplayLimitArgs { value: 25 }))
        .is_ok());
    assert_eq!(cli.logic.config.cli_display_limit, 25);
}

#[test]
fn config_string_length() {
    let mut cli = cli();
    let r = cli.handle_config_command(ConfigArgs::ParamStringLength(ParamStringLengthArgs { min: None, max: None }));
    match r {
        Err(ConfigError::InvalidValue(m)) => assert_eq!(m, "No value(s) provided for param-string-length"),
        _ => panic!("expected an invalid value"),
    }
    let r = cli.handle_config_command(ConfigArgs::ParamStringLength(ParamStringLengthArgs { min: Some(0), max: Some(0) }));
    match r {
        Err(ConfigError::InvalidValue(m)) => assert_eq!(
            m,
            "min: param-string-length-min must be at least 1\nmax: param-string-length-max must be at least 1"
        ),
        _ => panic!("expected an invalid value"),
    }
    let r = cli.handle_config_command(ConfigArgs::ParamStringLength(ParamStringLengthArgs { min: Some(12), max: None }));
    match r {
        Err(ConfigError::InvalidValue(m)) => assert_eq!(
            m,
            "param-string-length-min (12) cannot be greater than param-string-length-max (10)"
        ),
        _ => panic!("expected an invalid value"),
    }
    assert_eq!(cli.logic.config.param_string_length_min, 5);
    assert!(cli
        .handle_config_command(ConfigArgs::ParamStringLength(ParamStringLengthArgs { min: Some(2), max: Some(4) }))
        .is_ok());
    assert_eq!(cli.logic.config.param_string_length_min, 2);
    assert_eq!(cli.logic.config.param_string_length_max, 4);
}

#[test]
fn config_int_range() {
    let mut cli = cli();
    // A bound left out keeps its current value.
    assert!(cli
        .handle_config_command(ConfigArgs::ParamIntRange(ParamIntRangeArgs { min: Some(7), max: None }))
        .is_ok());
    assert_eq!(cli.logic.config.param_int_range_min, 7);
    assert_eq!(cli.logic.config.param_int_range_max, 10);
    assert!(cli
        .handle_config_command(ConfigArgs::ParamIntRange(ParamIntRangeArgs { min: Some(-3), max: None }))
        .is_ok());
    assert_eq!(cli.logic.config.param_int_range_min, -3);
    assert_eq!(cli.logic.config.param_int_range_max, 10);
    let r = cli.handle_config_command(ConfigArgs::ParamIntRange(ParamIntRangeArgs { min: Some(7), max: Some(-2) }));
    match r {
        Err(ConfigError::InvalidValue(m)) => assert_eq!(
            m,
            "param-int-range-min (7) cannot be greater than param-int-range-max (-2)"
        ),
        _ => panic!("expected an invalid value"),
    }
    assert_eq!(cli.logic.config.param_int_range_min, -3);
}

#[test]
fn config_theme_and_style() {
    let mut cli = cli();
    assert!(cli
        .handle_config_command(ConfigArgs::Theme(ApplicationThemeArgs { theme: ApplicationTheme::Dark }))
        .is_ok());
    assert_eq!(cli.logic.config.application_theme, config::ApplicationTheme::Dark);
    assert!(cli
        .handle_config_command(ConfigArgs::CliPrintStyle(CliPrintStyleArgs { style: CliPrintStyle::CommandsOnly }))
        .is_ok());
    assert_eq!(cli.logic.config.cli_print_style, config::CliPrintStyle::CommandsOnly);
}

#[test]
fn format_output_replaces_tags() {
    assert_eq!(format_output("<bold>x</bold>"), "\u{1b}[1mx\u{1b}[22m");
    assert_eq!(format_output("<italics>a</italics> <section>b</section>"), "\u{1b}[3ma\u{1b}[23m \u{1b}[1m\u{1b}[4mb\u{1b}[22m\u{1b}[24m");
    assert_eq!(format_output("plain <b> text"), "plain <b> text");
    assert_eq!(format_output("no markup at all"), "no markup at all");
}

#[test]
fn output_messages() {
    assert_eq!(Output::AddCommandSuccess.message(), "\u{2705} \u{1b}[1mCommand added\u{1b}[22m\n");
    assert_eq!(
        Output::ImportCommandsSuccess(3, "a.json".to_string()).message(),
        "\u{2705} \u{1b}[1m3 commands imported from \"a.json\"\u{1b}[22m\n"
    );
    assert_eq!(
        Output::ExportCommandsSuccess("out.json".to_string()).message(),
        "\u{2705} \u{1b}[1mCommands exported to \"out.json\"\u{1b}[22m\n"
    );
    assert_eq!(ErrorOutput::Export.message(), "\u{274c} \u{1b}[1mFailed to export stack\u{1b}[22m");
}

#[test]
fn numbers_in_decimal() {
    assert_eq!(nat_to_string(0), "0");
    assert_eq!(nat_to_string(4096), "4096");
    assert_eq!(int_to_string(-217), "-217");
}

#[test]
fn search_args_exist() {
    assert!(!check_search_args_exist(&None, &None));
    assert!(check_search_args_exist(&Some("a".to_string()), &None));
    assert!(check_search_args_exist(&None, &Some("t".to_string())));
    let input = SearchArgsUserInput::from(SearchArgs {
        command: Some("c".to_string()),
        tag: None,
        order_by_recently_used: true,
        favourite: false,
    });
    assert_eq!(input.command, Some("c".to_string()));
    assert_eq!(input.tag, None);
}

#[test]
fn command_input_validation() {
    assert!(matches!(CommandInputValidator.validate("ls -la"), Validation::Valid));
    match CommandInputValidator.validate("  \t") {
        Validation::Invalid(m) => assert_eq!(m, "Command must not be empty"),
        Validation::Valid => panic!("a blank command is refused"),
    }
}

#[test]
fn prompts_for_blanks_and_typed_commands() {
    assert_eq!(blank_prompt(2), "\u{1b}[1mFill in @{2}:\u{1b}[22m");
    let c = command_from_prompts("ls".to_string(), " ".to_string(), "note".to_string(), "Yes");
    assert_eq!(c.command, "ls");
    assert_eq!(c.tag, None);
    assert_eq!(c.note, Some("note".to_string()));
    assert!(c.favourite);
    assert!(!command_from_prompts("ls".to_string(), String::new(), String::new(), "No").favourite);
}

#[test]
fn lines_of_text() {
    assert_eq!(lines_of("a\r\nb\n\nc"), vec!["a", "b", "", "c"]);
    assert_eq!(lines_of("x\n"), vec!["x"]);
    assert!(lines_of("").is_empty());
    assert_eq!(lines_of("foo\r\nbaz\r"), "foo\r\nbaz\r".lines().collect::<Vec<_>>());
}

#[test]
fn table_of_candidates() {
    let cli = cli();
    let lines = cli.format_internal_commands(&two_commands(), 150);
    assert_eq!(lines.len(), 2);
    assert!(lines[0].contains("abcd"));
    assert!(lines[0].contains("green"));
    assert!(lines[1].contains("abce"));
    let mut only = Cli::new(Logic::new(Config::default()));
    only.logic.config.cli_print_style = config::CliPrintStyle::CommandsOnly;
    let (cs, columns) = only.format_commands_for_printing(&two_commands(), 150);
    assert_eq!(cs, vec!["abcd", "abce"]);
    assert_eq!(columns, "(Command)");
}

#[test]
fn search_machine_copies_selected_command() {
    let cli = cli();
    let args = SearchArgs { command: Some("abc".to_string()), tag: None, order_by_recently_used: true, favourite: false };
    let (state, action) = cli.handle_search_command(SearchState::Start, SearchEvent::Start(args));
    assert!(matches!(action, SearchAction::ReadCommands { order_by_recently_used: true, favourites_only: false }));
    let (state, action) = cli.handle_search_command(state, SearchEvent::CommandsRead(Ok(two_commands())));
    let found = match action {
        SearchAction::SelectCommand(cs) => cs,
        _ => panic!("expected a selection"),
    };
    assert_eq!(found.len(), 2);
    let (state, action) = cli.handle_search_command(state, SearchEvent::CommandSelected(Ok(found[0].clone())));
    match action {
        SearchAction::EditCommand(t) => assert_eq!(t, "abcd"),
        _ => panic!("expected the command to edit"),
    }
    let (state, action) = cli.handle_search_command(state, SearchEvent::CommandEdited(Ok("abcd -v".to_string())));
    assert!(matches!(action, SearchAction::ChooseAction));
    let (state, action) = cli.handle_search_command(state, SearchEvent::ActionChosen(Ok("Copy".to_string())));
    match action {
        SearchAction::Copy(t) => assert_eq!(t, "abcd -v"),
        _ => panic!("expected a copy"),
    }
    let (state, action) = cli.handle_search_command(state, SearchEvent::Copied(Ok(())));
    assert!(matches!(action, SearchAction::RecordUse(1)));
    let (_, action) = cli.handle_search_command(state, SearchEvent::UseRecorded(Ok(())));
    assert!(matches!(action, SearchAction::Finish(Ok(()))));
}

#[test]
fn search_machine_asks_for_blanks() {
    let cli = cli();
    let args = SearchArgs { command: None, tag: None, order_by_recently_used: false, favourite: false };
    let (state, action) = cli.handle_search_command(SearchState::Start, SearchEvent::Start(args));
    assert!(matches!(action, SearchAction::PromptSearchArgs));
    let (state, _) = cli.handle_search_command(
        state,
        SearchEvent::SearchArgsEntered(Ok(SearchArgsUserInput { command: None, tag: None })),
    );
    let cs = vec![stored(7, "echo @{} and @{}", None)];
    let (state, _) = cli.handle_search_command(state, SearchEvent::CommandsRead(Ok(cs.clone())));
    let (state, action) = cli.handle_search_command(state, SearchEvent::CommandSelected(Ok(cs[0].clone())));
    match action {
        SearchAction::FillBlanks(prompts) => assert_eq!(prompts.len(), 2),
        _ => panic!("expected prompts for the blanks"),
    }
    let (state, action) = cli.handle_search_command(
        state,
        SearchEvent::BlanksFilled(Ok(vec!["a".to_string(), "b".to_string()])),
    );
    match action {
        SearchAction::EditCommand(t) => assert_eq!(t, "echo a and b"),
        _ => panic!("expected the command to edit"),
    }
    let (state, _) = cli.handle_search_command(state, SearchEvent::CommandEdited(Ok("echo a".to_string())));
    let (_, action) = cli.handle_search_command(state, SearchEvent::ActionChosen(Ok("Execute".to_string())));
    match action {
        SearchAction::Execute { id, command } => {
            assert_eq!(id, 7);
            assert_eq!(command, "echo a");
        }
        _ => panic!("expected the command to run"),
    }
}

#[test]
fn search_machine_ends_when_nothing_found() {
    let cli = cli();
    let args = SearchArgs { command: Some("zzzz".to_string()), tag: None, order_by_recently_used: false, favourite: false };
    let (state, _) = cli.handle_search_command(SearchState::Start, SearchEvent::Start(args));
    let (_, action) = cli.handle_search_command(state, SearchEvent::CommandsRead(Ok(two_commands())));
    assert!(matches!(action, SearchAction::Finish(Err(HandleSearchError::NoCommandFound))));
}

#[test]
fn search_machine_missing_blank_values() {
    let cli = cli();
    let args = SearchArgs { command: None, tag: None, order_by_recently_used: false, favourite: false };
    let (state, _) = cli.handle_search_command(SearchState::Start, SearchEvent::Start(args));
    let (state, _) = cli.handle_search_command(
        state,
        SearchEvent::SearchArgsEntered(Ok(SearchArgsUserInput { command: None, tag: None })),
    );
    let cs = vec![stored(3, "x @{} @{}", None)];
    let (state, _) = cli.handle_search_command(state, SearchEvent::CommandsRead(Ok(cs.clone())));
    let (state, _) = cli.handle_search_command(state, SearchEvent::CommandSelected(Ok(cs[0].clone())));
    let (_, action) = cli.handle_search_command(state, SearchEvent::BlanksFilled(Ok(vec!["a".to_string()])));
    match action {
        SearchAction::Finish(Err(HandleSearchError::LogicParam(ParameterError::MissingBlankParamValues(a, b)))) => {
            assert_eq!(a, "2");
            assert_eq!(b, "2");
        }
        _ => panic!("expected the missing blank value"),
    }
}

#[test]
fn add_machine_from_arguments() {
    let cli = cli();
    let args = AddArgs { command: Some("ls".to_string()), note: None, tag: Some("fs".to_string()), favourite: true };
    let (state, action) = cli.handle_add_command(AddState::Start, AddEvent::Start(args));
    match &action {
        AddAction::InsertCommand(c) => {
            assert_eq!(c.command, "ls");
            assert_eq!(c.tag, Some("fs".to_string()));
            assert!(c.favourite);
        }
        _ => panic!("expected the command to be stored"),
    }
    let (state, action) = cli.handle_add_command(state, AddEvent::Inserted(Ok(())));
    assert!(matches!(action, AddAction::ShowCommand(_)));
    let (_, action) = cli.handle_add_command(state, AddEvent::Shown);
    assert!(matches!(action, AddAction::Finish(Ok(()))));
}

#[test]
fn add_machine_refuses_bad_commands() {
    let cli = cli();
    let args = AddArgs { command: None, note: Some("n".to_string()), tag: None, favourite: false };
    let (state, action) = cli.handle_add_command(AddState::Start, AddEvent::Start(args));
    match action {
        AddAction::PromptProperties { tag, note, favourite } => {
            assert_eq!(tag, None);
            assert_eq!(note, Some("n".to_string()));
            assert!(!favourite);
        }
        _ => panic!("expected a prompt"),
    }
    let typed = InternalCommand { command: "@{bad}".to_string(), tag: None, note: None, favourite: false };
    let (_, action) = cli.handle_add_command(state, AddEvent::PropertiesEntered(Ok(typed)));
    assert!(matches!(action, AddAction::Finish(Err(HandleAddError::LogicAdd(AddCommandError::Parameter(_))))));
}

#[test]
fn update_machine_stores_new_properties() {
    let cli = cli();
    let args = SearchArgs { command: None, tag: Some("green".to_string()), order_by_recently_used: false, favourite: false };
    let (state, _) = cli.handle_update_command(UpdateState::Start, UpdateEvent::Start(args));
    let (state, action) = cli.handle_update_command(state, UpdateEvent::CommandsRead(Ok(two_commands())));
    let found = match action {
        UpdateAction::SelectCommand(cs) => cs,
        _ => panic!("expected a selection"),
    };
    assert_eq!(found.len(), 1);
    let (state, action) = cli.handle_update_command(state, UpdateEvent::CommandSelected(Ok(found[0].clone())));
    match &action {
        UpdateAction::PromptProperties(cur) => assert_eq!(cur.command, "abcd"),
        _ => panic!("expected a prompt"),
    }
    let new = InternalCommand { command: "new".to_string(), tag: None, note: None, favourite: true };
    let (state, action) = cli.handle_update_command(state, UpdateEvent::PropertiesEntered(Ok(new)));
    match &action {
        UpdateAction::UpdateCommand { id, command } => {
            assert_eq!(*id, 1);
            assert_eq!(command.command, "new");
        }
        _ => panic!("expected the update"),
    }
    let (_, action) = cli.handle_update_command(state, UpdateEvent::Updated(Err("locked".to_string())));
    match action {
        UpdateAction::Finish(Err(HandleUpdateError::LogicUpdate(UpdateCommandError::Database(m)))) => assert_eq!(m, "locked"),
        _ => panic!("expected the database's error"),
    }
}

#[test]
fn update_machine_with_nothing_found() {
    let cli = cli();
    let args = SearchArgs { command: Some("zzzz".to_string()), tag: None, order_by_recently_used: false, favourite: false };
    let (state, _) = cli.handle_update_command(UpdateState::Start, UpdateEvent::Start(args));
    let (_, action) = cli.handle_update_command(state, UpdateEvent::CommandsRead(Ok(two_commands())));
    assert!(matches!(action, UpdateAction::Finish(Err(HandleUpdateError::SelectCommand(_)))));
}

#[test]
fn delete_machine() {
    let cli = cli();
    let args = SearchArgs { command: Some("abce".to_string()), tag: None, order_by_recently_used: false, favourite: false };
    let (state, _) = cli.handle_delete_command(DeleteState::Start, DeleteEvent::Start(args));
    let (state, action) = cli.handle_delete_command(state, DeleteEvent::CommandsRead(Ok(two_commands())));
    let found = match action {
        DeleteAction::SelectCommand(cs) => cs,
        _ => panic!("expected a selection"),
    };
    let (state, action) = cli.handle_delete_command(state, DeleteEvent::CommandSelected(Ok(found[0].clone())));
    assert!(matches!(action, DeleteAction::DeleteCommand(2)));
    let (_, action) = cli.handle_delete_command(state, DeleteEvent::Deleted(Ok(())));
    assert!(matches!(action, DeleteAction::Finish(Ok(()))));

    let args = SearchArgs { command: Some("zzzz".to_string()), tag: None, order_by_recently_used: false, favourite: false };
    let (state, _) = cli.handle_delete_command(DeleteState::Start, DeleteEvent::Start(args));
    let (_, action) = cli.handle_delete_command(state, DeleteEvent::CommandsRead(Ok(two_commands())));
    assert!(matches!(action, DeleteAction::Finish(Err(HandleDeleteError::NoCommandsFound))));
}

#[test]
fn prototype_command_line() {
    let none = || SubcommandValues { cmd: None, tag: None, note: None, id: None };
    assert!(matches!(command_from_matches("update", none()), Err(ParseRefusal::NoUpdateFields)));
    let only_id = SubcommandValues { id: Some("3".to_string()), ..none() };
    assert!(matches!(command_from_matches("update", only_id), Err(ParseRefusal::NoUpdateValues)));
    assert!(matches!(command_from_matches("search", none()), Err(ParseRefusal::NoSearchOption)));
    assert!(matches!(command_from_matches("list", none()), Err(ParseRefusal::InvalidCommand)));
    let add = SubcommandValues { cmd: Some("ls".to_string()), ..none() };
    match command_from_matches("add", add) {
        Ok(Cmd::Add { cmd, tag, note }) => {
            assert_eq!(cmd, "ls");
            assert_eq!(tag, None);
            assert_eq!(note, None);
        }
        _ => panic!("expected an add"),
    }
    assert!(matches!(command_from_matches("delete", none()), Ok(Cmd::Delete { id: None })));
    assert_eq!(ParseRefusal::NoSearchOption.message(), "At least one search option is required");
    let _ = StoredCmd::new(1, "tag".to_string(), "note".to_string());
}

#[test]
fn schema_names() {
    assert_eq!(Schema::Table.name(), "command");
    assert_eq!(Schema::LastUsed.name(), "last_used");
}

#[test]
fn ui_values() {
    let c = stored(4, "ls", Some("fs"));
    let d = DisplayCommand::from(&c);
    assert_eq!(d.id, 4);
    assert_eq!(d.command, "ls");
    assert_eq!(d.tag, Some("fs".to_string()));
    assert_eq!(search_args_for(String::new()).command, None);
    assert_eq!(search_args_for("x".to_string()).command, Some("x".to_string()));
    let args = terminal_script_args(UiDefaultTerminal::Terminal, "ls");
    assert_eq!(args, vec!["-e", "tell application \"Terminal\" to activate do script \"ls\" in window 1"]);
    assert_eq!(terminal_script_args(UiDefaultTerminal::Iterm, "ls").len(), 12);
}

#[test]
fn export_keeps_properties_in_order() {
    let logic = Logic::new(Config::default());
    let f = logic.export_format(two_commands());
    assert_eq!(f.commands.len(), 2);
    assert_eq!(f.commands[0].command, "abcd");
    assert_eq!(f.commands[1].tag, Some("greet".to_string()));
}

#[test]
fn uuid_values_are_version_four() {
    let v = cmdstack::logic::parameters::uuid::UuidParameter.generate_random_value();
    assert_eq!(v.len(), 36);
    assert_eq!(v.chars().nth(14), Some('4'));
    assert!(v.chars().all(|c| c == '-' || c.is_ascii_digit() || ('a'..='f').contains(&c)));
}

#[test]
fn generated_command_respects_bounds() {
    let logic = Logic::new(Config::default());
    for _ in 0..20 {
        let (out, values) = logic
            .generate_parameters("n=@{int}".to_string())
            .expect("the parameters can be read");
        assert_eq!(values.len(), 1);
        let k: i32 = values[0].parse().unwrap();
        assert!((5..=10).contains(&k));
        assert_eq!(out, format!("n={}", values[0]));
    }
}

#[test]
fn boolean_text_of_drawn_number() {
    assert_eq!(cmdstack::logic::parameters::boolean::boolean_text_of(0), "false");
    assert_eq!(cmdstack::logic::parameters::boolean::boolean_text_of(1), "true");
}

#[test]
fn mock_generator_values_in_turn() {
    let mut rng = OldMockRng::new(vec![2, 0]);
    assert_eq!(OldInt::new(5, 10).generate_random(&mut rng), "7");
    assert_eq!(OldBoolean {}.generate_random(&mut rng), "false");
    assert_eq!(OldInt::new(5, 10).generate_random(&mut rng), "7");
}
