use lodestone_core::config::{
    get_available_games, Flavour, GameType, HandlerGameType, MinecraftSetupConfigPrimitive,
};
use lodestone_core::dependency::{DependencyManager, DependencyManagerError};
use lodestone_core::macros::{resolve_macro_invocation, MacroDirProbe, MacroInvocation};
use lodestone_core::players::MinecraftJavaPlayer;

fn primitive(name: &str) -> MinecraftSetupConfigPrimitive {
    MinecraftSetupConfigPrimitive {
        name: name.to_string(),
        version: "1.20".to_string(),
        flavour: Flavour::Paper,
        port: 25565,
        cmd_args: Some(vec!["-Xmx2G".to_string()]),
        description: None,
        fabric_loader_version: None,
        fabric_installer_version: None,
        min_ram: Some(1024),
        max_ram: Some(2048),
        auto_start: None,
        restart_on_crash: Some(true),
        timeout_last_left: None,
        timeout_no_activity: None,
        start_on_connection: None,
        backup_period: Some(3600),
    }
}

#[test]
fn flavour_names_round_trip() {
    for f in [Flavour::Vanilla, Flavour::Fabric, Flavour::Paper, Flavour::Spigot] {
        assert_eq!(Flavour::parse(&f.as_string()), Some(f));
    }
    assert_eq!(Flavour::parse("forge"), None);
}

#[test]
fn handler_game_types_map_to_games() {
    assert_eq!(HandlerGameType::MinecraftVanilla.game_type(), GameType::Minecraft);
    assert_eq!(HandlerGameType::MinecraftPaper.game_type(), GameType::Minecraft);
    assert_eq!(HandlerGameType::MinecraftBedrock.game_type(), GameType::MinecraftBedrock);
    let games = get_available_games();
    assert_eq!(games.len(), 5);
    assert_eq!(games[0], HandlerGameType::MinecraftVanilla);
    assert_eq!(games[4], HandlerGameType::MinecraftBedrock);
}

#[test]
fn setup_config_defaults_flow_into_restore_record() {
    let setup = primitive("alpha").to_setup_config();
    assert_eq!(setup.name, "alpha");
    assert_eq!(setup.port, 25565);
    let restore = setup.to_restore_config();
    assert_eq!(restore.description, "");
    assert!(!restore.auto_start);
    assert!(restore.restart_on_crash);
    assert_eq!(restore.backup_period, Some(3600));
    assert!(!restore.has_started);
}

#[test]
fn macro_resolution_prefers_typescript_files() {
    let all = MacroDirProbe {
        ts_file: true,
        js_file: true,
        dir_exists: true,
        index_ts: true,
        index_js: true,
    };
    assert_eq!(resolve_macro_invocation(&all), Some(MacroInvocation::TsFile));
    let js_only = MacroDirProbe { ts_file: false, ..all };
    assert_eq!(resolve_macro_invocation(&js_only), Some(MacroInvocation::JsFile));
    let folder = MacroDirProbe { ts_file: false, js_file: false, ..all };
    assert_eq!(resolve_macro_invocation(&folder), Some(MacroInvocation::FolderIndexTs));
    let folder_js = MacroDirProbe { index_ts: false, ..folder };
    assert_eq!(resolve_macro_invocation(&folder_js), Some(MacroInvocation::FolderIndexJs));
    let nothing = MacroDirProbe {
        ts_file: false,
        js_file: false,
        dir_exists: false,
        index_ts: false,
        index_js: false,
    };
    assert_eq!(resolve_macro_invocation(&nothing), None);
}

#[test]
fn dependency_manager_registers_and_looks_up() {
    let mut dm = DependencyManager::new("deps.json");
    assert_eq!(dm.get(&"java".to_string()).unwrap_err(), DependencyManagerError::NotFound);
    dm.register("java".to_string(), "/opt/java".to_string()).unwrap();
    dm.register("node".to_string(), "/opt/node".to_string()).unwrap();
    assert_eq!(dm.get(&"java".to_string()).unwrap(), "/opt/java");
    // registering again re-points the same name
    dm.register("java".to_string(), "/usr/lib/jvm".to_string()).unwrap();
    assert_eq!(dm.get(&"java".to_string()).unwrap(), "/usr/lib/jvm");
    assert_eq!(dm.get(&"node".to_string()).unwrap(), "/opt/node");
}

#[test]
fn player_identity_prefers_ids_over_names() {
    let with_id_a = MinecraftJavaPlayer::new("Steve".to_string(), Some("1".to_string()));
    let with_id_b = MinecraftJavaPlayer::new("Renamed".to_string(), Some("1".to_string()));
    let with_other_id = MinecraftJavaPlayer::new("Steve".to_string(), Some("2".to_string()));
    let nameless_id = MinecraftJavaPlayer::new("Steve".to_string(), None);
    assert_eq!(with_id_a, with_id_b);
    assert_ne!(with_id_a, with_other_id);
    assert_eq!(with_id_a, nameless_id); // one id missing: the name decides
    assert_ne!(with_id_b, nameless_id);
}
