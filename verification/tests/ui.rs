use pleb_signer::config::Config;
use pleb_signer::keys::KeyMetadata;
use pleb_signer::time::Timestamp;
use pleb_signer::ui::{Command, Message, PlebSignerUi, ViewState};

fn ui() -> PlebSignerUi {
    PlebSignerUi::new(&Config::default_config()).0
}

fn key(name: &str, active: bool) -> KeyMetadata {
    KeyMetadata {
        name: name.to_string(),
        npub: format!("npub-{name}"),
        pubkey_hex: format!("hex-{name}"),
        created_at: Timestamp { secs: 0, nanos: 0 },
        is_active: active,
    }
}

#[test]
fn window_opens_on_the_main_view_and_reads_the_keys() {
    let mut config = Config::default_config();
    config.general.auto_start = true;
    config.general.show_notifications = false;
    let (ui, command) = PlebSignerUi::new(&config);
    assert!(matches!(command, Command::RefreshKeys));
    assert_eq!(ui.view, ViewState::Main);
    assert_eq!(ViewState::default(), ViewState::Main);
    assert!(ui.auto_start);
    assert!(!ui.notifications_enabled);
    assert!(!ui.bunker_enabled);
    assert!(ui.keys_list.is_empty());
    assert_eq!(ui.title(), "Pleb Signer");
}

#[test]
fn navigation_clears_the_messages() {
    let mut ui = ui();
    ui.error_message = Some("e".to_string());
    ui.success_message = Some("s".to_string());
    ui.key_name_input = "kept".to_string();
    assert!(matches!(ui.update(Message::NavigateTo(ViewState::Bunker)), Command::Nothing));
    assert_eq!(ui.view, ViewState::Bunker);
    assert_eq!(ui.error_message, None);
    assert_eq!(ui.success_message, None);
    assert_eq!(ui.key_name_input, "kept");
}

#[test]
fn keys_need_a_name_and_imports_a_secret() {
    let mut ui = ui();
    assert!(matches!(ui.update(Message::GenerateKey), Command::Nothing));
    assert_eq!(ui.error_message.as_deref(), Some("Please enter a key name"));
    ui.error_message = None;
    assert!(matches!(ui.update(Message::ImportKey), Command::Nothing));
    assert_eq!(ui.error_message.as_deref(), Some("Please enter a key name"));

    assert!(matches!(ui.update(Message::KeyNameInput("main".to_string())), Command::Nothing));
    assert_eq!(ui.key_name_input, "main");
    assert!(matches!(ui.update(Message::ImportKey), Command::Nothing));
    assert_eq!(ui.error_message.as_deref(), Some("Please enter the private key"));
    assert!(matches!(ui.update(Message::GenerateKey), Command::GenerateKey { name } if name == "main"));

    assert!(matches!(ui.update(Message::ImportKeyInput("nsec1x".to_string())), Command::Nothing));
    assert!(matches!(ui.update(Message::ImportKey),
        Command::ImportKey { name, secret } if name == "main" && secret == "nsec1x"));
    assert!(matches!(ui.update(Message::DeleteKey("old".to_string())), Command::DeleteKey { name } if name == "old"));
    assert!(matches!(ui.update(Message::SelectKey("new".to_string())), Command::SelectKey { name } if name == "new"));
}

#[test]
fn finished_key_work_refreshes_the_list() {
    let mut ui = ui();
    ui.view = ViewState::AddKey;
    ui.key_name_input = "main".to_string();
    ui.import_key_input = "nsec1x".to_string();
    ui.error_message = Some("old".to_string());
    assert!(matches!(
        ui.update(Message::KeyOperationComplete(Ok("Imported key: npub1".to_string()))),
        Command::RefreshKeys
    ));
    assert_eq!(ui.view, ViewState::KeyManagement);
    assert_eq!(ui.success_message.as_deref(), Some("Imported key: npub1"));
    assert_eq!(ui.error_message, None);
    assert_eq!(ui.key_name_input, "");
    assert_eq!(ui.import_key_input, "");

    ui.view = ViewState::AddKey;
    ui.key_name_input = "main".to_string();
    assert!(matches!(
        ui.update(Message::KeyOperationComplete(Err("Key already exists: main".to_string()))),
        Command::RefreshKeys
    ));
    assert_eq!(ui.view, ViewState::AddKey);
    assert_eq!(ui.error_message.as_deref(), Some("Key already exists: main"));
    assert_eq!(ui.success_message, None);
    assert_eq!(ui.key_name_input, "main");

    assert!(matches!(ui.update(Message::RefreshKeys), Command::RefreshKeys));
    assert!(matches!(
        ui.update(Message::KeysRefreshed(vec![key("a", false), key("b", true), key("c", true)])),
        Command::Nothing
    ));
    assert_eq!(ui.keys_list.len(), 3);
    assert_eq!(ui.active_key(), Some(1));
    assert!(matches!(ui.update(Message::KeysRefreshed(vec![key("a", false)])), Command::Nothing));
    assert_eq!(ui.active_key(), None);
}

#[test]
fn settings_are_saved_with_the_windows_choices() {
    let mut ui = ui();
    assert!(matches!(ui.update(Message::ToggleAutoStart(true)), Command::Nothing));
    assert!(matches!(ui.update(Message::ToggleNotifications(false)), Command::Nothing));
    assert!(matches!(
        ui.update(Message::SaveSettings),
        Command::SaveSettings { auto_start: true, show_notifications: false }
    ));
    let mut config = Config::default_config();
    config.general.request_timeout_secs = 7;
    config.security.lock_timeout_mins = 3;
    let saved = ui.settings(config);
    assert!(saved.general.auto_start);
    assert!(!saved.general.show_notifications);
    assert_eq!(saved.general.request_timeout_secs, 7);
    assert_eq!(saved.security.lock_timeout_mins, 3);

    assert!(matches!(ui.update(Message::SettingsSaved(Ok(()))), Command::Nothing));
    assert_eq!(ui.success_message.as_deref(), Some("Settings saved"));
    assert_eq!(ui.error_message, None);
    assert!(matches!(ui.update(Message::SettingsSaved(Err("disk full".to_string()))), Command::Nothing));
    assert_eq!(ui.error_message.as_deref(), Some("disk full"));
    assert_eq!(ui.success_message, None);
}

#[test]
fn bunker_controls() {
    let mut ui = ui();
    assert!(matches!(ui.update(Message::CopyBunkerUri), Command::Nothing));
    assert!(matches!(ui.update(Message::ToggleBunker(true)), Command::StartBunker));
    assert!(ui.bunker_enabled);
    assert!(matches!(ui.update(Message::BunkerUriGenerated(Ok("bunker://x".to_string()))), Command::Nothing));
    assert_eq!(ui.bunker_uri.as_deref(), Some("bunker://x"));
    assert!(matches!(ui.update(Message::CopyBunkerUri), Command::Copy { text } if text == "bunker://x"));
    assert_eq!(ui.success_message, None);
    ui.copied();
    assert_eq!(ui.success_message.as_deref(), Some("Bunker URI copied to clipboard!"));
    assert!(matches!(ui.update(Message::GenerateBunkerUri), Command::ShowBunkerUri));

    assert!(matches!(ui.update(Message::BunkerUriGenerated(Err("no bus".to_string()))), Command::Nothing));
    assert!(!ui.bunker_enabled);
    assert_eq!(ui.error_message.as_deref(), Some("no bus"));
    assert_eq!(ui.bunker_uri.as_deref(), Some("bunker://x"));

    ui.bunker_enabled = true;
    assert!(matches!(ui.update(Message::ToggleBunker(false)), Command::StopBunker));
    assert!(!ui.bunker_enabled);
    assert_eq!(ui.bunker_uri, None);
}

#[test]
fn lock_and_noop() {
    let mut ui = ui();
    ui.view = ViewState::Settings;
    assert!(matches!(ui.update(Message::Lock), Command::Lock));
    assert!(matches!(ui.update(Message::Noop), Command::Nothing));
    assert_eq!(ui.view, ViewState::Settings);
}
