use keymenu::appmenu::{default_app_menu, AppAction, AppMenuItem};
use keymenu::delegate::{
    asks_for_url, parse_url, ActivationPolicy, AuxDelegateState, AE_GET_URL,
    INTERNET_EVENT_CLASS, KEY_DIRECT_OBJECT,
};
use keymenu::hotkey::KeyEquivalent;

fn command(item: &AppMenuItem) -> (&str, AppAction, Option<KeyEquivalent>) {
    match item {
        AppMenuItem::Command { title, action, key_equivalent } => (title.as_str(), *action, *key_equivalent),
        AppMenuItem::Separator => panic!("a separator"),
    }
}

#[test]
fn new_delegate_state_is_a_regular_application_with_the_default_menu() {
    let state = AuxDelegateState::new();
    assert_eq!(state.activation_policy, ActivationPolicy::Regular);
    assert!(state.create_default_menu);
}

#[test]
fn apple_event_codes() {
    assert_eq!(INTERNET_EVENT_CLASS, u32::from_be_bytes(*b"GURL"));
    assert_eq!(AE_GET_URL, u32::from_be_bytes(*b"GURL"));
    assert_eq!(KEY_DIRECT_OBJECT, u32::from_be_bytes(*b"----"));
}

#[test]
fn only_the_get_url_event_asks_for_a_url() {
    assert!(asks_for_url(INTERNET_EVENT_CLASS, AE_GET_URL));
    assert!(asks_for_url(0x4755_524c, 0x4755_524c));
    assert!(!asks_for_url(0, AE_GET_URL));
    assert!(!asks_for_url(INTERNET_EVENT_CLASS, 0));
    assert!(!asks_for_url(0x6165_7674, 0x6f61_7070));
    assert!(!asks_for_url(INTERNET_EVENT_CLASS, KEY_DIRECT_OBJECT));
    assert!(!asks_for_url(KEY_DIRECT_OBJECT, AE_GET_URL));
    assert!(!asks_for_url(0x4755_524d, 0x4755_524c));
}

#[test]
fn url_of_a_get_url_event() {
    let url = Some(String::from("app://open/1"));
    assert_eq!(parse_url(INTERNET_EVENT_CLASS, AE_GET_URL, url.clone()), url);
}

#[test]
fn get_url_event_without_text_has_no_url() {
    assert_eq!(parse_url(INTERNET_EVENT_CLASS, AE_GET_URL, None), None);
}

#[test]
fn event_of_another_kind_has_no_url() {
    let url = Some(String::from("app://open/1"));
    assert_eq!(parse_url(0, AE_GET_URL, url.clone()), None);
    assert_eq!(parse_url(INTERNET_EVENT_CLASS, 0, url.clone()), None);
    assert_eq!(parse_url(0x6165_7674, 0x6f61_7070, url.clone()), None);
    assert_eq!(parse_url(KEY_DIRECT_OBJECT, KEY_DIRECT_OBJECT, url), None);
}

#[test]
fn default_application_menu() {
    let items = default_app_menu("Editor");
    assert_eq!(items.len(), 7);
    assert_eq!(command(&items[0]), ("About Editor", AppAction::About, None));
    assert!(matches!(items[1], AppMenuItem::Separator));
    assert_eq!(
        command(&items[2]),
        ("Hide Editor", AppAction::Hide, Some(KeyEquivalent { key: 'h', masks: None }))
    );
    assert_eq!(
        command(&items[3]),
        (
            "Hide Others",
            AppAction::HideOthers,
            Some(KeyEquivalent { key: 'h', masks: Some((1 << 19) | (1 << 20)) })
        )
    );
    assert_eq!(command(&items[4]), ("Show All", AppAction::ShowAll, None));
    assert!(matches!(items[5], AppMenuItem::Separator));
    assert_eq!(
        command(&items[6]),
        ("Quit Editor", AppAction::Quit, Some(KeyEquivalent { key: 'q', masks: None }))
    );
}

#[test]
fn default_application_menu_of_a_process_without_a_name() {
    let items = default_app_menu("");
    assert_eq!(command(&items[0]).0, "About ");
    assert_eq!(command(&items[2]).0, "Hide ");
    assert_eq!(command(&items[6]).0, "Quit ");
}
