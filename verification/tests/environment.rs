use mediacaps::environment::{apply_process_environment, ProcessEnvironment};
use mediacaps::matrix::{settings_for, EnvironmentSetting, PlatformProfile};

#[test]
fn fresh_environment_is_empty() {
    let env = ProcessEnvironment::new();
    assert_eq!(env.get_var(&"WEBKIT_WEBRTC_ENABLED".to_string()), None);
    assert_eq!(env.get_var(&"".to_string()), None);
}

#[test]
fn set_then_get_returns_the_value() {
    let mut env = ProcessEnvironment::new();
    env.set_var("GST_DEBUG".to_string(), "webrtc*:3".to_string());
    assert_eq!(
        env.get_var(&"GST_DEBUG".to_string()),
        Some(&"webrtc*:3".to_string())
    );
    assert_eq!(env.get_var(&"GST_DEBUG2".to_string()), None);
}

#[test]
fn later_writes_win() {
    let mut env = ProcessEnvironment::new();
    env.set_var("WEBKIT_FORCE_SANDBOX".to_string(), "1".to_string());
    env.set_var("WEBKIT_FORCE_SANDBOX".to_string(), "0".to_string());
    assert_eq!(
        env.get_var(&"WEBKIT_FORCE_SANDBOX".to_string()),
        Some(&"0".to_string())
    );
}

#[test]
fn duplicate_names_in_one_row_apply_in_order() {
    let row = vec![
        EnvironmentSetting {
            name: "A".to_string(),
            value: "first".to_string(),
        },
        EnvironmentSetting {
            name: "B".to_string(),
            value: "kept".to_string(),
        },
        EnvironmentSetting {
            name: "A".to_string(),
            value: "second".to_string(),
        },
    ];
    let mut env = ProcessEnvironment::new();
    apply_process_environment(&mut env, &row);
    assert_eq!(env.get_var(&"A".to_string()), Some(&"second".to_string()));
    assert_eq!(env.get_var(&"B".to_string()), Some(&"kept".to_string()));
}

#[test]
fn applying_a_row_twice_equals_applying_it_once() {
    let (row, _) = settings_for(PlatformProfile::LinuxLike);

    let mut once = ProcessEnvironment::new();
    apply_process_environment(&mut once, &row);

    let mut twice = ProcessEnvironment::new();
    apply_process_environment(&mut twice, &row);
    apply_process_environment(&mut twice, &row);

    for setting in &row {
        assert_eq!(once.get_var(&setting.name), Some(&setting.value));
        assert_eq!(twice.get_var(&setting.name), once.get_var(&setting.name));
    }
    assert_eq!(twice.get_var(&"HOME".to_string()), None);
}

#[test]
fn applying_preserves_unrelated_variables() {
    let (row, _) = settings_for(PlatformProfile::LinuxLike);
    let mut env = ProcessEnvironment::new();
    env.set_var("LANG".to_string(), "C.UTF-8".to_string());
    apply_process_environment(&mut env, &row);
    assert_eq!(env.get_var(&"LANG".to_string()), Some(&"C.UTF-8".to_string()));
    assert_eq!(
        env.get_var(&"PULSE_PROP_media.role".to_string()),
        Some(&"phone".to_string())
    );
}

#[test]
fn applying_an_empty_row_changes_nothing() {
    let (row, _) = settings_for(PlatformProfile::MacLike);
    assert!(row.is_empty());
    let mut env = ProcessEnvironment::new();
    env.set_var("LANG".to_string(), "C.UTF-8".to_string());
    apply_process_environment(&mut env, &row);
    assert_eq!(env.get_var(&"LANG".to_string()), Some(&"C.UTF-8".to_string()));
}
