use my_lib::{App, Args, Config, OutputAction};

#[test]
fn main_template_test_process_empty_input() {
    let config = Config {
        input: "test.txt".to_string(),
        output: None,
        config_path: "config.toml".to_string(),
    };
    let app = App::new(config);

    let result = app.process("");
    assert!(result.is_ok());
    assert_eq!(result.unwrap(), "");
}

#[test]
fn test_process_uppercase() {
    let config = Config {
        input: "test.txt".to_string(),
        output: None,
        config_path: "config.toml".to_string(),
    };
    let app = App::new(config);

    let result = app.process("hello world");
    assert!(result.is_ok());
    assert_eq!(result.unwrap(), "HELLO WORLD");
}

#[test]
fn process_follows_unicode_case() {
    let config = Config {
        input: "in.txt".to_string(),
        output: None,
        config_path: "config.toml".to_string(),
    };
    let app = App::new(config);
    assert_eq!(app.process("stra\u{df}e 1a\n").unwrap(), "STRASSE 1A\n");
    assert_eq!(app.process("ALREADY").unwrap(), "ALREADY");
}

#[test]
fn from_args_moves_the_settings() {
    let args = Args {
        input: "in.txt".to_string(),
        output: Some("out.txt".to_string()),
        verbose: true,
        config: "custom.toml".to_string(),
    };
    let config = Config::from_args(args);
    assert_eq!(config.input, "in.txt");
    assert_eq!(config.output, Some("out.txt".to_string()));
    assert_eq!(config.config_path, "custom.toml");
}

#[test]
fn app_keeps_its_settings() {
    let app = App::new(Config {
        input: "in.txt".to_string(),
        output: None,
        config_path: "config.toml".to_string(),
    });
    assert_eq!(app.config().input, "in.txt");
    assert_eq!(app.config().output, None);
    assert_eq!(app.config().config_path, "config.toml");
}

#[test]
fn write_output_to_file_when_named() {
    let app = App::new(Config {
        input: "in.txt".to_string(),
        output: Some("out.txt".to_string()),
        config_path: "config.toml".to_string(),
    });
    match app.write_output("DATA") {
        OutputAction::WriteFile { path, data } => {
            assert_eq!(path, "out.txt");
            assert_eq!(data, "DATA");
        }
        OutputAction::PrintLine { .. } => panic!("Expected a file to be written"),
    }
}

#[test]
fn write_output_to_stdout_otherwise() {
    let app = App::new(Config {
        input: "in.txt".to_string(),
        output: None,
        config_path: "config.toml".to_string(),
    });
    match app.write_output("DATA") {
        OutputAction::PrintLine { data } => assert_eq!(data, "DATA"),
        OutputAction::WriteFile { .. } => panic!("Expected a line to be printed"),
    }
}

#[test]
fn run_processes_then_decides() {
    let app = App::new(Config {
        input: "in.txt".to_string(),
        output: Some("out.txt".to_string()),
        config_path: "config.toml".to_string(),
    });
    match app.run("test content\n") {
        Ok(OutputAction::WriteFile { path, data }) => {
            assert_eq!(path, "out.txt");
            assert_eq!(data, "TEST CONTENT\n");
        }
        _ => panic!("Expected a file to be written"),
    }
}

#[test]
fn run_on_empty_input_prints_nothing_but_the_line_break() {
    let app = App::new(Config {
        input: "in.txt".to_string(),
        output: None,
        config_path: "config.toml".to_string(),
    });
    match app.run("") {
        Ok(OutputAction::PrintLine { data }) => assert_eq!(data, ""),
        _ => panic!("Expected a line to be printed"),
    }
}
