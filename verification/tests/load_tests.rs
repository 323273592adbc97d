use prompt_optimizer::config::{Config, ConfigError};
use prompt_optimizer::config_load::{load_begin, load_step, LoadAction, LoadEvent, LoadStage};
use std::io::{Error, ErrorKind};
use std::path::PathBuf;

fn json_error() -> serde_json::Error {
    serde_json::from_str::<serde_json::Value>("{not-json").unwrap_err()
}

#[test]
fn a_missing_file_gets_the_default() {
    let (stage, action) = load_begin();
    assert!(matches!(action, LoadAction::CheckExists));
    let (stage, action) = load_step(stage, LoadEvent::Exists(false));
    assert!(matches!(action, LoadAction::WriteDefault));
    let (stage, action) = load_step(stage, LoadEvent::Written(Ok(())));
    assert!(matches!(stage, LoadStage::Done));
    match action {
        LoadAction::Finished(Ok((config, created))) => {
            assert!(created);
            assert_eq!(config, Config::default());
        }
        other => panic!("unexpected {other:?}"),
    }
}

#[test]
fn an_existing_file_is_read_parsed_and_checked() {
    let (stage, _) = load_begin();
    let (stage, action) = load_step(stage, LoadEvent::Exists(true));
    assert!(matches!(action, LoadAction::Read));
    let (stage, action) = load_step(stage, LoadEvent::Read(Ok("{}".into())));
    assert!(matches!(action, LoadAction::Parse(ref text) if text == "{}"));
    let (_, action) = load_step(stage, LoadEvent::Parsed(Ok(Config::default())));
    match action {
        LoadAction::Finished(Ok((config, created))) => {
            assert!(!created);
            assert_eq!(config, Config::default());
        }
        other => panic!("unexpected {other:?}"),
    }

    let mut invalid = Config::default();
    invalid.result_mode = "popup".into();
    let (_, action) = load_step(LoadStage::Parsing, LoadEvent::Parsed(Ok(invalid)));
    match action {
        LoadAction::Finished(Err(ConfigError::Invalid(message))) => {
            assert_eq!(message, "result_mode 仅支持 clipboard")
        }
        other => panic!("unexpected {other:?}"),
    }
}

#[test]
fn a_damaged_file_is_backed_up_and_replaced() {
    let (stage, action) = load_step(LoadStage::Parsing, LoadEvent::Parsed(Err(json_error())));
    assert!(matches!(action, LoadAction::BackUp));
    let backup = PathBuf::from("config.invalid-7.json");
    let (stage, action) = load_step(stage, LoadEvent::BackedUp(backup.clone(), Ok(())));
    assert!(matches!(action, LoadAction::WriteDefault));
    let (_, action) = load_step(stage, LoadEvent::Written(Ok(())));
    match action {
        LoadAction::Finished(Err(ConfigError::InvalidJson { backup: path, .. })) => {
            assert_eq!(path, backup)
        }
        other => panic!("unexpected {other:?}"),
    }
}

#[test]
fn failed_file_operations_end_loading() {
    let (_, action) = load_step(
        LoadStage::Reading,
        LoadEvent::Read(Err(Error::new(ErrorKind::PermissionDenied, "denied"))),
    );
    assert!(matches!(action, LoadAction::Finished(Err(ConfigError::Io(_)))));
    let (_, action) = load_step(
        LoadStage::BackingUp(json_error()),
        LoadEvent::BackedUp(PathBuf::from("b.json"), Err(Error::new(ErrorKind::Other, "busy"))),
    );
    assert!(matches!(action, LoadAction::Finished(Err(ConfigError::Io(_)))));
    let (_, action) = load_step(
        LoadStage::Creating,
        LoadEvent::Written(Err(ConfigError::Invalid("x".into()))),
    );
    assert!(matches!(action, LoadAction::Finished(Err(ConfigError::Invalid(_)))));
}
