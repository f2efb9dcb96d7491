use lodestone_core::config::{
    get_available_games, Flavour, FlavourKind, ForgeBuildVersion, GameType, HandlerGameType, PaperBuildVersion,
    RestoreConfig, SetupConfig, DEFAULT_MAX_RAM, DEFAULT_MIN_RAM,
};
use lodestone_core::error::{Error, ErrorInner};
use lodestone_core::identity::InstanceUuid;
use lodestone_core::info::InstanceInfo;
use lodestone_core::layout::{
    backup_directory, config_file, eula_file, eula_text, installer_arguments, instance_directory_name,
    java_binary_path, jvm_args_file, jvm_args_note, layout_directories, macros_directory,
    minimal_properties_text, properties_file, resources_directory, runtime_cache, world_directory,
};
use lodestone_core::lifecycle::State;
use lodestone_core::text::{clone_strings, decimal_string};

fn setup() -> SetupConfig {
    SetupConfig {
        game_type: "minecraft".to_string(),
        uuid: InstanceUuid::new("0a1b2c3d-4e5f".to_string()).unwrap(),
        name: "survival".to_string(),
        version: "1.20.1".to_string(),
        flavour: Flavour::Vanilla,
        port: 25565,
        path: "instances/survival-0a1b2c3d".to_string(),
        cmd_args: None,
        description: None,
        min_ram: None,
        max_ram: None,
        auto_start: None,
        restart_on_crash: None,
        timeout_last_left: None,
        timeout_no_activity: None,
        start_on_connection: None,
        backup_period: None,
    }
}

#[test]
fn flavour_names_are_lower_case() {
    assert_eq!(Flavour::Vanilla.to_string(), "vanilla");
    assert_eq!(Flavour::Fabric { loader_version: None, installer_version: None }.to_string(), "fabric");
    assert_eq!(Flavour::Paper { build_version: Some(PaperBuildVersion(17)) }.to_string(), "paper");
    assert_eq!(Flavour::Spigot.to_string(), "spigot");
    assert_eq!(Flavour::Forge { build_version: Some(ForgeBuildVersion("47.1.0".to_string())) }.to_string(), "forge");
}

#[test]
fn flavour_kind_drops_the_build() {
    assert_eq!(Flavour::Paper { build_version: Some(PaperBuildVersion(17)) }.kind(), FlavourKind::Paper);
    assert_eq!(Flavour::Vanilla.kind(), FlavourKind::Vanilla);
    assert_eq!(FlavourKind::Forge.unresolved().kind(), FlavourKind::Forge);
    assert!(matches!(FlavourKind::Forge.unresolved(), Flavour::Forge { build_version: None }));
    assert!(matches!(
        FlavourKind::Fabric.unresolved(),
        Flavour::Fabric { loader_version: None, installer_version: None }
    ));
}

#[test]
fn flavour_clone_keeps_the_build() {
    let flavour = Flavour::Forge { build_version: Some(ForgeBuildVersion("47.1.0".to_string())) };
    match flavour.clone() {
        Flavour::Forge { build_version: Some(ForgeBuildVersion(version)) } => assert_eq!(version, "47.1.0"),
        _ => panic!("the clone is another flavour"),
    }
}

#[test]
fn every_handler_game_type_is_minecraft_java() {
    for game in get_available_games() {
        assert_eq!(GameType::from(game), GameType::MinecraftJava);
    }
}

#[test]
fn handler_game_type_maps_to_its_flavour_kind() {
    assert_eq!(FlavourKind::from(HandlerGameType::MinecraftJavaVanilla), FlavourKind::Vanilla);
    assert_eq!(FlavourKind::from(HandlerGameType::MinecraftFabric), FlavourKind::Fabric);
    assert_eq!(FlavourKind::from(HandlerGameType::MinecraftForge), FlavourKind::Forge);
    assert_eq!(FlavourKind::from(HandlerGameType::MinecraftPaper), FlavourKind::Paper);
}

#[test]
fn available_games_are_listed_in_order() {
    assert_eq!(
        get_available_games(),
        vec![
            HandlerGameType::MinecraftJavaVanilla,
            HandlerGameType::MinecraftFabric,
            HandlerGameType::MinecraftForge,
            HandlerGameType::MinecraftPaper,
        ]
    );
}

#[test]
fn restore_config_fills_in_the_defaults() {
    let config = RestoreConfig::from_setup(setup(), Flavour::Vanilla, 17, 1700000000);
    assert_eq!(config.game_type, "minecraft");
    assert_eq!(config.uuid.as_str(), "0a1b2c3d-4e5f");
    assert_eq!(config.name, "survival");
    assert_eq!(config.version, "1.20.1");
    assert!(matches!(config.flavour, Flavour::Vanilla));
    assert_eq!(config.description, "");
    assert!(config.cmd_args.is_empty());
    assert_eq!(config.path, "instances/survival-0a1b2c3d");
    assert_eq!(config.port, 25565);
    assert_eq!(config.min_ram, 2048);
    assert_eq!(config.max_ram, 4096);
    assert_eq!(DEFAULT_MIN_RAM, 2048);
    assert_eq!(DEFAULT_MAX_RAM, 4096);
    assert_eq!(config.creation_time, 1700000000);
    assert!(!config.auto_start);
    assert!(!config.restart_on_crash);
    assert_eq!(config.backup_period, None);
    assert_eq!(config.jre_major_version, 17);
    assert!(!config.has_started);
}

#[test]
fn restore_config_keeps_what_the_user_set() {
    let mut wanted = setup();
    wanted.cmd_args = Some(vec!["-XX:+UseG1GC".to_string(), "-Dx=y".to_string()]);
    wanted.description = Some("my world".to_string());
    wanted.min_ram = Some(1024);
    wanted.max_ram = Some(8192);
    wanted.auto_start = Some(true);
    wanted.restart_on_crash = Some(true);
    wanted.backup_period = Some(3600);
    let flavour = Flavour::Paper { build_version: Some(PaperBuildVersion(196)) };
    let config = RestoreConfig::from_setup(wanted, flavour, 21, -5);
    assert_eq!(config.cmd_args, vec!["-XX:+UseG1GC".to_string(), "-Dx=y".to_string()]);
    assert_eq!(config.description, "my world");
    assert_eq!(config.min_ram, 1024);
    assert_eq!(config.max_ram, 8192);
    assert!(config.auto_start);
    assert!(config.restart_on_crash);
    assert_eq!(config.backup_period, Some(3600));
    assert_eq!(config.jre_major_version, 21);
    assert_eq!(config.creation_time, -5);
    assert!(matches!(config.flavour, Flavour::Paper { build_version: Some(PaperBuildVersion(196)) }));
}

#[test]
fn restore_config_treats_false_like_unset() {
    let mut wanted = setup();
    wanted.auto_start = Some(false);
    wanted.restart_on_crash = Some(false);
    let config = RestoreConfig::from_setup(wanted, Flavour::Vanilla, 17, 0);
    assert!(!config.auto_start);
    assert!(!config.restart_on_crash);
}

#[test]
fn projection_flattens_the_record() {
    let mut wanted = setup();
    wanted.backup_period = Some(60);
    wanted.cmd_args = Some(vec!["-Dx=y".to_string()]);
    let config = RestoreConfig::from_setup(wanted, Flavour::Vanilla, 17, 1700000000);
    let info = InstanceInfo::project(&config, State::Running, Some(3), Some(20));
    assert_eq!(info.uuid.as_str(), "0a1b2c3d-4e5f");
    assert_eq!(info.name, "survival");
    assert_eq!(info.flavour, "vanilla");
    assert_eq!(info.game_type, "minecraft");
    assert_eq!(info.cmd_args, vec!["-Dx=y".to_string()]);
    assert_eq!(info.description, "");
    assert_eq!(info.port, 25565);
    assert_eq!(info.min_ram, Some(2048));
    assert_eq!(info.max_ram, Some(4096));
    assert_eq!(info.creation_time, 1700000000);
    assert_eq!(info.path, "instances/survival-0a1b2c3d");
    assert!(!info.auto_start);
    assert!(!info.restart_on_crash);
    assert_eq!(info.backup_period, Some(60));
    assert_eq!(info.state, State::Running);
    assert_eq!(info.player_count, Some(3));
    assert_eq!(info.max_player_count, Some(20));
    let copy = info.clone();
    assert_eq!(copy.name, "survival");
    assert_eq!(copy.state, State::Running);
}

#[test]
fn config_clone_keeps_every_field() {
    let mut wanted = setup();
    wanted.cmd_args = Some(vec!["a".to_string(), "b".to_string()]);
    wanted.description = Some("d".to_string());
    let copy = wanted.clone();
    assert_eq!(copy.cmd_args, Some(vec!["a".to_string(), "b".to_string()]));
    assert_eq!(copy.description, Some("d".to_string()));
    assert_eq!(copy.name, "survival");
    let config = RestoreConfig::from_setup(wanted, Flavour::Spigot, 8, 1);
    let again = config.clone();
    assert_eq!(again.cmd_args, config.cmd_args);
    assert_eq!(again.jre_major_version, 8);
    assert!(matches!(again.flavour, Flavour::Spigot));
}

#[test]
fn error_message_has_its_prefix() {
    let error = Error::new(ErrorInner::PortInUse, "port 25565 is taken");
    assert_eq!(error.inner, ErrorInner::PortInUse);
    assert_eq!(error.detail, "port 25565 is taken");
    assert_eq!(error.message(), "Error: port 25565 is taken");
    assert_eq!(Error::new(ErrorInner::NotFound, "").message(), "Error: ");
    let copy = error.clone();
    assert_eq!(copy.inner, ErrorInner::PortInUse);
    assert_eq!(copy.detail, "port 25565 is taken");
}

#[test]
fn error_status_follows_the_category() {
    assert_eq!(Error::new(ErrorInner::MalformedRequest, "x").status_code(), 400);
    assert_eq!(Error::new(ErrorInner::Unauthorized, "x").status_code(), 401);
    assert_eq!(Error::new(ErrorInner::PermissionDenied, "x").status_code(), 403);
    assert_eq!(Error::new(ErrorInner::FileOrDirNotFound, "x").status_code(), 404);
    assert_eq!(Error::new(ErrorInner::NotFound, "x").status_code(), 404);
    assert_eq!(Error::new(ErrorInner::InstanceNotFound, "x").status_code(), 500);
    assert_eq!(Error::new(ErrorInner::InvalidInstanceState, "x").status_code(), 500);
    assert_eq!(Error::new(ErrorInner::InternalError, "x").status_code(), 500);
    assert_eq!(Error::new(ErrorInner::FailedToDownload, "x").status_code(), 500);
}

#[test]
fn decimal_string_renders_numbers() {
    assert_eq!(decimal_string(0), "0");
    assert_eq!(decimal_string(7), "7");
    assert_eq!(decimal_string(10), "10");
    assert_eq!(decimal_string(25565), "25565");
    assert_eq!(decimal_string(1234567890), "1234567890");
    assert_eq!(decimal_string(u64::MAX), "18446744073709551615");
}

#[test]
fn clone_strings_copies_in_order() {
    let strings = vec!["a".to_string(), "".to_string(), "ccc".to_string()];
    assert_eq!(clone_strings(&strings), strings);
    assert!(clone_strings(&Vec::new()).is_empty());
}

#[test]
fn layout_names_are_fixed() {
    assert_eq!(config_file(), ".lodestone_config");
    assert_eq!(eula_file(), "eula.txt");
    assert_eq!(properties_file(), "server.properties");
    assert_eq!(jvm_args_file(), "user_jvm_args.txt");
    assert_eq!(macros_directory(), "macros");
    assert_eq!(resources_directory(), "resources");
    assert_eq!(world_directory(), "world");
    assert_eq!(backup_directory(), "resources/worlds/backup");
    assert_eq!(runtime_cache(), "java");
    assert_eq!(
        layout_directories(),
        vec![
            "macros".to_string(),
            "resources/mods".to_string(),
            "resources/worlds".to_string(),
            "resources/defaults".to_string(),
        ]
    );
}

#[test]
fn placeholder_files_have_their_text() {
    assert_eq!(eula_text(), "#generated by Lodestone\neula=true");
    assert_eq!(minimal_properties_text(25565), "server-port=25565");
    assert_eq!(minimal_properties_text(0), "server-port=0");
    assert_eq!(minimal_properties_text(u32::MAX), "server-port=4294967295");
    assert_eq!(
        jvm_args_note(),
        "# Generated by Lodestone\n# This file is ignored by Lodestone\n# Please set arguments using Lodestone"
    );
}

#[test]
fn installer_is_run_with_its_arguments() {
    assert_eq!(
        installer_arguments(),
        vec!["-jar".to_string(), "forge-installer.jar".to_string(), "--installServer".to_string()]
    );
}

#[test]
fn java_binary_lies_in_the_runtime() {
    assert_eq!(java_binary_path(17, false), "java/jre17/bin/java");
    assert_eq!(java_binary_path(8, true), "java/jre8/Contents/Home/bin/java");
}

#[test]
fn instance_directory_is_named_after_name_and_prefix() {
    let uuid = InstanceUuid::new("0a1b2c3d-4e5f-6789".to_string()).unwrap();
    assert_eq!(instance_directory_name("survival", &uuid), "survival-0a1b2c3d");
    assert_eq!(instance_directory_name("", &uuid), "-0a1b2c3d");
}

#[test]
fn properties_are_rendered_line_by_line() {
    let entries = vec![
        ("server-port".to_string(), "25565".to_string()),
        ("motd".to_string(), "a=b".to_string()),
        ("".to_string(), "".to_string()),
    ];
    assert_eq!(lodestone_core::layout::render_properties(&entries), "server-port=25565\nmotd=a=b\n=\n");
    assert_eq!(lodestone_core::layout::render_properties(&Vec::new()), "");
}
