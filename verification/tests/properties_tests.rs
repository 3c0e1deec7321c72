use lodestone_core::configurable::{
    Difficulty, Gamemode, ServerPropertySetting,
};
use lodestone_core::properties::{parse_property_line, PropertiesError, PropertiesManager};

#[test]
fn property_lines_parse_with_trimming() {
    assert_eq!(
        parse_property_line("server-port = 25565"),
        Ok(Some(("server-port".to_string(), "25565".to_string())))
    );
    assert_eq!(parse_property_line("# a comment"), Ok(None));
    assert_eq!(parse_property_line("no separator"), Err(PropertiesError::InvalidValue));
    // the value is the text between the first and the second separator
    assert_eq!(
        parse_property_line("a=b=c"),
        Ok(Some(("a".to_string(), "b".to_string())))
    );
    assert_eq!(
        parse_property_line("level-seed="),
        Ok(Some(("level-seed".to_string(), String::new())))
    );
}

#[test]
fn manager_reads_edits_and_renders() {
    let lines = vec![
        "# bedrock server".to_string(),
        "server-port=25565".to_string(),
        "level-name = world ".to_string(),
    ];
    let mut pm = PropertiesManager::new("server.properties".to_string(), &lines).unwrap();
    assert_eq!(pm.get_field("server-port").unwrap(), "25565");
    assert_eq!(pm.get_field("level-name").unwrap(), "world");
    assert_eq!(
        pm.get_field("missing").unwrap_err(),
        PropertiesError::NotFound
    );

    pm.edit_field("server-port".to_string(), "25570".to_string()).unwrap();
    assert_eq!(pm.get_field("server-port").unwrap(), "25570");
    assert_eq!(
        pm.edit_field("missing".to_string(), "x".to_string()).unwrap_err(),
        PropertiesError::NotFound
    );

    pm.set_field("difficulty".to_string(), "easy".to_string());
    let rendered = pm.to_lines();
    assert_eq!(
        rendered,
        vec![
            "server-port=25570".to_string(),
            "level-name=world".to_string(),
            "difficulty=easy".to_string(),
        ]
    );
}

#[test]
fn later_lines_win_and_bad_lines_fail() {
    let lines = vec!["a=1".to_string(), "a=2".to_string()];
    let pm = PropertiesManager::new("p".to_string(), &lines).unwrap();
    assert_eq!(pm.get_field("a").unwrap(), "2");

    let bad = vec!["a=1".to_string(), "broken line".to_string()];
    assert!(PropertiesManager::new("p".to_string(), &bad).is_err());
}

#[test]
fn typed_settings_parse_exactly() {
    assert!(matches!(
        ServerPropertySetting::from_key_val("gamemode", "survival"),
        Ok(ServerPropertySetting::Gamemode(Gamemode::Survival))
    ));
    assert!(matches!(
        ServerPropertySetting::from_key_val("difficulty", "hard"),
        Ok(ServerPropertySetting::Difficulty(Difficulty::Hard))
    ));
    assert!(matches!(
        ServerPropertySetting::from_key_val("max-players", "20"),
        Ok(ServerPropertySetting::MaxPlayers(20))
    ));
    assert!(matches!(
        ServerPropertySetting::from_key_val("server-port", "25565"),
        Ok(ServerPropertySetting::ServerPort(25565))
    ));
    assert!(matches!(
        ServerPropertySetting::from_key_val("online-mode", "true"),
        Ok(ServerPropertySetting::OnlineMode(true))
    ));
    assert!(matches!(
        ServerPropertySetting::from_key_val("tick-distance", "4"),
        Ok(ServerPropertySetting::TickDistance(4))
    ));
    match ServerPropertySetting::from_key_val("motd", "hello") {
        Ok(ServerPropertySetting::Unknown(k, v)) => {
            assert_eq!(k, "motd");
            assert_eq!(v, "hello");
        }
        other => panic!("unexpected: {:?}", other),
    }
}

#[test]
fn typed_settings_reject_bad_values() {
    assert_eq!(
        ServerPropertySetting::from_key_val("gamemode", "chaotic").unwrap_err(),
        PropertiesError::InvalidValue
    );
    assert_eq!(
        ServerPropertySetting::from_key_val("server-port", "70000").unwrap_err(),
        PropertiesError::InvalidValue
    );
    assert_eq!(
        ServerPropertySetting::from_key_val("online-mode", "yes").unwrap_err(),
        PropertiesError::InvalidValue
    );
    assert_eq!(
        ServerPropertySetting::from_key_val("max-players", "4294967296").unwrap_err(),
        PropertiesError::InvalidValue
    );
    assert!(matches!(
        ServerPropertySetting::from_key_val("max-players", "4294967295"),
        Ok(ServerPropertySetting::MaxPlayers(4294967295))
    ));
}

#[test]
fn identifiers_round_back_to_their_keys() {
    assert_eq!(
        ServerPropertySetting::from_key_val("level-name", "world")
            .unwrap()
            .get_identifier(),
        "level-name"
    );
    assert_eq!(
        ServerPropertySetting::from_key_val("motd", "hi").unwrap().get_identifier(),
        "motd"
    );
    assert_eq!(
        ServerPropertySetting::get_section_id(),
        "server_properties_section"
    );
}

#[test]
fn float_valued_thresholds_keep_their_text() {
    match ServerPropertySetting::from_key_val("player-movement-distance-threshold", "0.3") {
        Ok(ServerPropertySetting::PlayerMovementDistanceThreshold(raw)) => {
            assert_eq!(raw, "0.3");
        }
        other => panic!("unexpected: {:?}", other),
    }
}
