use promptvault::activation_event;
use promptvault::coldstart::inspect_cold_start;
use promptvault::forwarder::plan_forward;
use promptvault::forwarder::FIRST_RETRY_DELAY_MS;
use promptvault::forwarder::SECOND_RETRY_DELAY_MS;
use promptvault::handshake::frontend_ready;
use promptvault::open_url::on_open_url;
use promptvault::scheme::has_activation_scheme;
use promptvault::scheme::str_starts_with;
use promptvault::store::PendingUrlStore;
use promptvault::toggle::shortcut_binding;
use promptvault::toggle::toggle_action;
use promptvault::toggle::PrimaryModifier;
use promptvault::toggle::ToggleAction;
use promptvault::toggle::WindowVisibility;

#[test]
fn new_store_is_empty() {
    let mut store = PendingUrlStore::new();
    assert_eq!(store.take(), None);
}

#[test]
fn store_last_set_wins() {
    let mut store = PendingUrlStore::new();
    store.set(String::from("promptvault://a"));
    store.set(String::from("promptvault://b"));
    assert_eq!(store.take(), Some(String::from("promptvault://b")));
    assert_eq!(store.take(), None);
}

#[test]
fn take_once_returns_then_empty() {
    let mut store = PendingUrlStore::new();
    store.set(String::from("promptvault://u"));
    assert_eq!(store.take(), Some(String::from("promptvault://u")));
    assert_eq!(store.take(), None);
}

#[test]
fn cold_start_ignores_foreign_scheme() {
    let args = vec![String::from("prog"), String::from("notascheme://x")];
    let mut store = PendingUrlStore::new();
    inspect_cold_start(&args, &mut store);
    assert_eq!(store.take(), None);
}

#[test]
fn cold_start_buffers_matching_url() {
    let args = vec![String::from("prog"), String::from("promptvault://open?id=7")];
    let mut store = PendingUrlStore::new();
    inspect_cold_start(&args, &mut store);
    assert_eq!(store.take(), Some(String::from("promptvault://open?id=7")));
}

#[test]
fn cold_start_without_candidate_leaves_store() {
    let args = vec![String::from("prog")];
    let mut store = PendingUrlStore::new();
    inspect_cold_start(&args, &mut store);
    assert_eq!(store.take(), None);
}

#[test]
fn cold_start_overwrites_earlier_value() {
    let args = vec![String::from("prog"), String::from("promptvault://late")];
    let mut store = PendingUrlStore::new();
    store.set(String::from("promptvault://early"));
    inspect_cold_start(&args, &mut store);
    assert_eq!(store.take(), Some(String::from("promptvault://late")));
}

#[test]
fn cold_start_then_handshake_end_to_end() {
    let args = vec![String::from("prog"), String::from("promptvault://open?id=42")];
    let mut store = PendingUrlStore::new();
    inspect_cold_start(&args, &mut store);
    assert_eq!(
        frontend_ready(&mut store),
        Some(String::from("promptvault://open?id=42"))
    );
    assert_eq!(frontend_ready(&mut store), None);
}

#[test]
fn forward_matching_emits_three_times() {
    let args = vec![String::from("prog"), String::from("promptvault://open?id=1")];
    let plan = plan_forward(&args);
    assert_eq!(plan.emissions.len(), 3);
    for emission in &plan.emissions {
        assert_eq!(emission.url, String::from("promptvault://open?id=1"));
    }
    assert_eq!(plan.emissions[0].delay_ms, 0);
    assert_eq!(plan.emissions[1].delay_ms, FIRST_RETRY_DELAY_MS);
    assert_eq!(plan.emissions[2].delay_ms, SECOND_RETRY_DELAY_MS);
    assert_eq!(plan.emissions[1].delay_ms, 500);
    assert_eq!(plan.emissions[2].delay_ms, 1500);
    assert!(plan.raise_window);
}

#[test]
fn forward_foreign_scheme_emits_nothing() {
    let args = vec![String::from("prog"), String::from("http://not-ours")];
    let plan = plan_forward(&args);
    assert_eq!(plan.emissions.len(), 0);
    assert!(plan.raise_window);
}

#[test]
fn forward_without_candidate_emits_nothing() {
    let args = vec![String::from("prog")];
    let plan = plan_forward(&args);
    assert_eq!(plan.emissions.len(), 0);
    assert!(plan.raise_window);
}

#[test]
fn open_url_takes_first() {
    let urls = vec![
        String::from("promptvault://one"),
        String::from("promptvault://two"),
    ];
    assert_eq!(on_open_url(&urls), Some(String::from("promptvault://one")));
}

#[test]
fn open_url_empty_is_noop() {
    let urls: Vec<String> = Vec::new();
    assert_eq!(on_open_url(&urls), None);
}

#[test]
fn toggle_visible_hides() {
    assert_eq!(
        toggle_action(Some(WindowVisibility::Visible)),
        ToggleAction::Hide
    );
}

#[test]
fn toggle_hidden_shows() {
    assert_eq!(
        toggle_action(Some(WindowVisibility::Hidden)),
        ToggleAction::ShowAndFocus
    );
}

#[test]
fn toggle_failed_query_shows() {
    assert_eq!(toggle_action(None), ToggleAction::ShowAndFocus);
}

#[test]
fn scheme_exact_prefix_matches() {
    assert!(has_activation_scheme("promptvault://"));
    assert!(has_activation_scheme("promptvault://open?id=7"));
}

#[test]
fn scheme_rejects_foreign_and_truncated() {
    assert!(!has_activation_scheme("http://not-ours"));
    assert!(!has_activation_scheme("promptvault:/"));
    assert!(!has_activation_scheme(""));
    assert!(!has_activation_scheme("PROMPTVAULT://x"));
}

#[test]
fn starts_with_edge_cases() {
    assert!(str_starts_with("abc", ""));
    assert!(str_starts_with("abc", "abc"));
    assert!(!str_starts_with("ab", "abc"));
    assert!(!str_starts_with("abd", "abc"));
}

#[test]
fn shortcut_binding_per_platform_family() {
    let apple = shortcut_binding(true);
    assert_eq!(apple.primary, PrimaryModifier::Super);
    assert!(apple.shift);
    assert_eq!(apple.key, 'P');
    let other = shortcut_binding(false);
    assert_eq!(other.primary, PrimaryModifier::Control);
    assert!(other.shift);
    assert_eq!(other.key, 'P');
}

#[test]
fn activation_event_name_is_fixed() {
    assert_eq!(activation_event(), "deep-link");
}
