use installer_core::action::ActionState;
use installer_core::create_file::{CreateFile, CreateFileError, FileEntry};
use installer_core::place_channel_configuration::{
    PlaceChannelConfiguration, PlaceChannelConfigurationError,
};

fn channels() -> Vec<(String, String)> {
    vec![
        ("nixpkgs".to_string(), "https://example/nixpkgs".to_string()),
        ("nixos".to_string(), "https://example/nixos".to_string()),
    ]
}

fn planned(force: bool) -> PlaceChannelConfiguration {
    PlaceChannelConfiguration::plan_with_home(channels(), force, Some("/root".to_string()))
        .unwrap()
}

#[test]
fn plan_serializes_channels_in_order() {
    let action = planned(false);
    assert_eq!(
        action.create_file.content,
        "https://example/nixpkgs nixpkgs\nhttps://example/nixos nixos"
    );
    assert_eq!(action.create_file.path, "/root/.nix-channels");
    assert_eq!(action.create_file.mode, 0o664);
    assert!(action.create_file.user.is_none());
    assert!(action.create_file.group.is_none());
    assert!(!action.create_file.force);
    assert_eq!(action.action_state(), ActionState::Uncompleted);
}

#[test]
fn content_has_one_line_per_channel() {
    let action = planned(false);
    let lines: Vec<&str> = action.create_file.content.split('\n').collect();
    assert_eq!(
        lines,
        vec!["https://example/nixpkgs nixpkgs", "https://example/nixos nixos"]
    );
}

#[test]
fn single_channel_has_no_newline() {
    let one = vec![("nixpkgs".to_string(), "https://example/nixpkgs".to_string())];
    let action =
        PlaceChannelConfiguration::plan_with_home(one, false, Some("/root".to_string())).unwrap();
    assert_eq!(action.create_file.content, "https://example/nixpkgs nixpkgs");
}

#[test]
fn unresolvable_home_fails_before_any_write() {
    let err =
        PlaceChannelConfiguration::plan_with_home(channels(), false, None).unwrap_err();
    assert!(matches!(err, PlaceChannelConfigurationError::NoRootHome));
}

#[test]
fn empty_target_path_is_refused_at_plan_time() {
    let err = CreateFile::plan(
        String::new(),
        None,
        None,
        0o664,
        "x y".to_string(),
        false,
    )
    .unwrap_err();
    assert!(matches!(err, CreateFileError::EmptyPath));
}

#[test]
fn execute_places_the_file() {
    let mut action = planned(false);
    let mut slot: Option<FileEntry> = None;
    action.execute(&mut slot).unwrap();
    let entry = slot.unwrap();
    assert_eq!(
        entry.content,
        "https://example/nixpkgs nixpkgs\nhttps://example/nixos nixos"
    );
    assert_eq!(entry.mode, 0o664);
    assert_eq!(action.action_state(), ActionState::Completed);
}

#[test]
fn execute_twice_leaves_the_same_content() {
    let mut action = planned(false);
    let mut slot: Option<FileEntry> = None;
    action.execute(&mut slot).unwrap();
    let once = slot.clone().unwrap().content;
    action.execute(&mut slot).unwrap();
    assert_eq!(slot.unwrap().content, once);
    assert_eq!(action.action_state(), ActionState::Completed);
}

#[test]
fn execute_then_revert_restores_an_absent_file() {
    let mut action = planned(false);
    let mut slot: Option<FileEntry> = None;
    action.execute(&mut slot).unwrap();
    assert!(slot.is_some());
    action.revert(&mut slot).unwrap();
    assert!(slot.is_none());
    assert_eq!(action.action_state(), ActionState::Uncompleted);
}

#[test]
fn execute_then_revert_restores_an_overwritten_file() {
    let mut action = planned(true);
    let mut slot: Option<FileEntry> = Some(FileEntry {
        content: "https://old/channel old".to_string(),
        mode: 0o600,
    });
    action.execute(&mut slot).unwrap();
    assert_eq!(
        slot.as_ref().unwrap().content,
        "https://example/nixpkgs nixpkgs\nhttps://example/nixos nixos"
    );
    action.revert(&mut slot).unwrap();
    let restored = slot.unwrap();
    assert_eq!(restored.content, "https://old/channel old");
    assert_eq!(restored.mode, 0o600);
    assert_eq!(action.action_state(), ActionState::Uncompleted);
}

#[test]
fn occupied_path_without_force_is_refused() {
    let mut action = planned(false);
    let mut slot: Option<FileEntry> = Some(FileEntry {
        content: "https://old/channel old".to_string(),
        mode: 0o644,
    });
    let err = action.execute(&mut slot).unwrap_err();
    match err {
        CreateFileError::Exists { path } => assert_eq!(path, "/root/.nix-channels"),
        other => panic!("unexpected error: {:?}", other),
    }
    assert_eq!(slot.unwrap().content, "https://old/channel old");
    assert_eq!(action.action_state(), ActionState::Uncompleted);
}

#[test]
fn revert_before_execute_changes_nothing() {
    let mut action = planned(false);
    let mut slot: Option<FileEntry> = Some(FileEntry {
        content: "keep me".to_string(),
        mode: 0o644,
    });
    action.revert(&mut slot).unwrap();
    assert_eq!(slot.unwrap().content, "keep me");
    assert_eq!(action.action_state(), ActionState::Uncompleted);
}

#[test]
fn descriptions_report_the_target_path() {
    let action = planned(false);
    assert_eq!(
        action.tracing_synopsis(),
        "Place channel configuration at `/root/.nix-channels`"
    );
    let execute = action.execute_description();
    assert_eq!(execute.len(), 1);
    assert_eq!(
        execute[0].description,
        "Place channel configuration at `/root/.nix-channels`"
    );
    assert!(execute[0].explanation.is_empty());
    let revert = action.revert_description();
    assert_eq!(revert.len(), 1);
    assert_eq!(
        revert[0].description,
        "Remove channel configuration at `/root/.nix-channels`"
    );
    assert!(revert[0].explanation.is_empty());
}

#[test]
fn set_action_state_is_kept() {
    let mut action = planned(false);
    action.set_action_state(ActionState::Completed);
    assert_eq!(action.action_state(), ActionState::Completed);
    action.set_action_state(ActionState::Uncompleted);
    assert_eq!(action.action_state(), ActionState::Uncompleted);
}

#[test]
fn plan_against_the_host_home() {
    match PlaceChannelConfiguration::plan(channels(), false) {
        Ok(action) => {
            assert!(action.create_file.path.ends_with("/.nix-channels"));
            assert_eq!(
                action.create_file.content,
                "https://example/nixpkgs nixpkgs\nhttps://example/nixos nixos"
            );
            assert_eq!(action.action_state(), ActionState::Uncompleted);
        }
        Err(err) => assert!(matches!(err, PlaceChannelConfigurationError::NoRootHome)),
    }
}

#[test]
fn planning_error_messages() {
    let no_home =
        PlaceChannelConfiguration::plan_with_home(channels(), false, None).unwrap_err();
    assert_eq!(
        no_home.message(),
        "No root home found to place channel configuration in"
    );
    let inner = CreateFile::plan(String::new(), None, None, 0o664, String::new(), false)
        .unwrap_err();
    let wrapped = PlaceChannelConfigurationError::CreateFile(inner);
    assert_eq!(wrapped.message(), "Creating file");
}
