use mcvm::commands::{
    read_profile_command, CommandError, ProfileCommand, INFO_HELP, REINSTALL_HELP, UPDATE_HELP,
};
use mcvm::config::{
    Config, ConfigDocument, ConfiguredProfile, InstanceDocument, ProfileDocument, UserDocument,
};
use mcvm::instance::Side;

fn args(words: &[&str]) -> Vec<String> {
    words.iter().map(|word| word.to_string()).collect()
}

fn two_profiles() -> Config {
    let instance = |id: &str, kind: &str| InstanceDocument {
        id: id.into(),
        kind: kind.into(),
    };
    let doc = ConfigDocument {
        users: vec![UserDocument {
            id: "steve".into(),
            kind: "demo".into(),
            name: "Steve".into(),
            uuid: None,
        }],
        default_user: None,
        profiles: vec![
            ProfileDocument {
                id: "survival".into(),
                version: "1.19.3".into(),
                instances: vec![instance("play", "client"), instance("host", "server")],
                packages: vec![],
            },
            ProfileDocument {
                id: "creative".into(),
                version: "1.20".into(),
                instances: vec![instance("build", "client")],
                packages: vec![],
            },
        ],
    };
    Config::load_from_obj(&doc).unwrap()
}

#[test]
fn profile_command_without_arguments_is_help() {
    assert_eq!(read_profile_command(&args(&[])), ProfileCommand::Help);
}

#[test]
fn profile_command_list() {
    assert_eq!(read_profile_command(&args(&["list"])), ProfileCommand::List);
    assert_eq!(
        read_profile_command(&args(&["list", "more"])),
        ProfileCommand::List
    );
}

#[test]
fn profile_command_without_profile_is_described() {
    assert_eq!(
        read_profile_command(&args(&["info"])),
        ProfileCommand::Describe(INFO_HELP.into())
    );
    assert_eq!(
        read_profile_command(&args(&["update"])),
        ProfileCommand::Describe(UPDATE_HELP.into())
    );
    assert_eq!(
        read_profile_command(&args(&["reinstall"])),
        ProfileCommand::Describe(REINSTALL_HELP.into())
    );
}

#[test]
fn profile_command_with_profile() {
    assert_eq!(
        read_profile_command(&args(&["info", "survival"])),
        ProfileCommand::Info("survival".into())
    );
    assert_eq!(
        read_profile_command(&args(&["update", "survival"])),
        ProfileCommand::Update {
            id: "survival".into(),
            force: false
        }
    );
    assert_eq!(
        read_profile_command(&args(&["reinstall", "survival", "ignored"])),
        ProfileCommand::Update {
            id: "survival".into(),
            force: true
        }
    );
}

#[test]
fn profile_command_unknown() {
    assert_eq!(
        read_profile_command(&args(&["remove", "survival"])),
        ProfileCommand::Unknown("remove".into())
    );
}

#[test]
fn find_profile_and_instance() {
    let config = two_profiles();
    assert_eq!(config.find_profile("survival"), Some(0));
    assert_eq!(config.find_profile("creative"), Some(1));
    assert_eq!(config.find_profile("hardcore"), None);
    assert_eq!(config.find_instance("host"), Some(1));
    assert_eq!(config.find_instance("build"), Some(2));
    assert_eq!(config.find_instance("nothing"), None);
    assert_eq!(config.profile_of("build"), Some(1));
    assert_eq!(config.profile_of("play"), Some(0));
    assert_eq!(config.profile_of("nothing"), None);
}

#[test]
fn list_instances_unfiltered() {
    let config = two_profiles();
    assert_eq!(
        config.list_instances(None, None),
        Ok(vec!["play".to_string(), "host".to_string(), "build".to_string()])
    );
}

#[test]
fn list_instances_by_side() {
    let config = two_profiles();
    assert_eq!(
        config.list_instances(Some(Side::Client), None),
        Ok(vec!["play".to_string(), "build".to_string()])
    );
    assert_eq!(
        config.list_instances(Some(Side::Server), None),
        Ok(vec!["host".to_string()])
    );
}

#[test]
fn list_instances_by_profile() {
    let config = two_profiles();
    assert_eq!(
        config.list_instances(None, Some("survival")),
        Ok(vec!["play".to_string(), "host".to_string()])
    );
    assert_eq!(
        config.list_instances(Some(Side::Server), Some("creative")),
        Ok(vec![])
    );
}

#[test]
fn list_instances_of_unknown_profile() {
    let config = two_profiles();
    let err = config.list_instances(None, Some("hardcore")).unwrap_err();
    assert_eq!(err, CommandError::UnknownProfile("hardcore".into()));
    assert_eq!(err.to_string(), "Profile 'hardcore' does not exist");
}

#[test]
fn choose_user_sets_the_user() {
    let mut config = two_profiles();
    assert_eq!(config.choose_user("steve"), Ok(()));
    assert_eq!(config.default_user, Some("steve".to_string()));
}

#[test]
fn choose_unknown_user_fails() {
    let mut config = two_profiles();
    let err = config.choose_user("alex").unwrap_err();
    assert_eq!(err, CommandError::UnknownUser("alex".into()));
    assert_eq!(err.to_string(), "User 'alex' does not exist");
    assert_eq!(config.default_user, None);
}

#[test]
fn launch_target_names_instance_and_profile() {
    let config = two_profiles();
    assert_eq!(config.launch_target("build"), Ok((2, 1)));
    assert_eq!(config.launch_target("host"), Ok((1, 0)));
}

#[test]
fn launch_target_of_unknown_instance() {
    let config = two_profiles();
    let err = config.launch_target("nothing").unwrap_err();
    assert_eq!(err, CommandError::UnknownInstance("nothing".into()));
    assert_eq!(err.to_string(), "Unknown instance 'nothing'");
}

#[test]
fn launch_target_of_instance_without_profile() {
    let mut config = two_profiles();
    config.profiles = vec![ConfiguredProfile {
        id: "empty".into(),
        version: "1.20".into(),
        instances: vec![],
        packages: vec![],
    }];
    let err = config.launch_target("play").unwrap_err();
    assert_eq!(err, CommandError::InstanceWithoutProfile("play".into()));
    assert_eq!(
        err.to_string(),
        "Instance 'play' does not belong to any profiles"
    );
}
