use lodestone_core::config::RestoreConfig;
use lodestone_core::configurable::ServerPropertySetting;
use lodestone_core::record::{read_restore_record, write_restore_record};

fn sample(backup: Option<u32>, started: bool) -> RestoreConfig {
    RestoreConfig {
        name: "alpha".to_string(),
        version: "1.19.71.02".to_string(),
        description: "the first one".to_string(),
        port: 25565,
        auto_start: false,
        restart_on_crash: true,
        backup_period: backup,
        has_started: started,
    }
}

// The persisted restore record round-trips through its written lines.
#[test]
fn restore_record_round_trips() {
    for c in [sample(Some(3600), true), sample(None, false)] {
        let lines = write_restore_record(&c);
        let back = read_restore_record(&lines).expect("written records read back");
        assert_eq!(back.name, c.name);
        assert_eq!(back.version, c.version);
        assert_eq!(back.description, c.description);
        assert_eq!(back.port, c.port);
        assert_eq!(back.auto_start, c.auto_start);
        assert_eq!(back.restart_on_crash, c.restart_on_crash);
        assert_eq!(back.backup_period, c.backup_period);
        assert_eq!(back.has_started, c.has_started);
    }
}

#[test]
fn written_record_lines_are_readable_text() {
    let lines = write_restore_record(&sample(None, false));
    assert_eq!(lines[0], "name=alpha");
    assert_eq!(lines[3], "port=25565");
    assert_eq!(lines[4], "auto_start=false");
    assert_eq!(lines[6], "backup_period=none");
}

#[test]
fn mangled_records_are_rejected() {
    let mut lines = write_restore_record(&sample(Some(60), true));
    lines[3] = "port=notanumber".to_string();
    assert!(read_restore_record(&lines).is_none());
    let mut lines = write_restore_record(&sample(Some(60), true));
    lines[4] = "auto_start=maybe".to_string();
    assert!(read_restore_record(&lines).is_none());
    let mut lines = write_restore_record(&sample(Some(60), true));
    lines.pop();
    assert!(read_restore_record(&lines).is_none());
}

#[test]
fn settings_render_back_to_their_lines() {
    assert_eq!(
        ServerPropertySetting::from_key_val("server-port", "25565").unwrap().to_line(),
        "server-port=25565"
    );
    assert_eq!(
        ServerPropertySetting::from_key_val("gamemode", "creative").unwrap().to_line(),
        "gamemode=creative"
    );
    assert_eq!(
        ServerPropertySetting::from_key_val("online-mode", "false").unwrap().to_line(),
        "online-mode=false"
    );
    assert_eq!(
        ServerPropertySetting::from_key_val("level-seed", "").unwrap().to_line(),
        "level-seed="
    );
    assert_eq!(
        ServerPropertySetting::from_key_val("motd", "hello world").unwrap().to_line(),
        "motd=hello world"
    );
}
