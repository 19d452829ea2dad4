use ram_core::models::{
    default_background_fit, default_overlay_corner, default_sort_mode, default_sort_order,
    default_theme, default_true, favorites_to_presets, Account, AccountStore, FavoritePlace,
    ModerationInfo, Presence,
};

fn store_with(n: u64) -> AccountStore {
    let mut s = AccountStore::default();
    for i in 0..n {
        s.accounts.push(Account::new(i, format!("user{i}"), format!("User {i}")));
    }
    s
}

#[test]
fn new_account_has_unset_defaults() {
    let a = Account::new(42, "builder".to_string(), "Builder Man".to_string());
    assert_eq!(a.user_id, 42);
    assert_eq!(a.username, "builder");
    assert_eq!(a.display_name, "Builder Man");
    assert!(a.encrypted_cookie.is_none());
    assert!(a.alias.is_empty());
    assert!(a.group.is_empty());
    assert!(a.avatar_url.is_empty());
    assert_eq!(a.last_presence.user_presence_type, 0);
    assert!(a.last_validated.is_none());
    assert!(!a.cookie_expired);
    assert!(a.moderation.is_none());
    assert_eq!(a.sort_order, u32::MAX);
}

#[test]
fn label_prefers_alias_over_username() {
    let mut a = Account::new(1, "user1".to_string(), "User 1".to_string());
    assert_eq!(a.label(), "user1");
    a.alias = "main".to_string();
    assert_eq!(a.label(), "main");
}

#[test]
fn moderation_is_active_when_banned_or_reasoned() {
    let mut m = ModerationInfo::default();
    assert!(!m.is_active());
    m.reason = Some("Spam".to_string());
    assert!(m.is_active());
    m.reason = None;
    m.is_banned = true;
    assert!(m.is_active());
}

#[test]
fn presence_status_words() {
    let mut p = Presence::default();
    let expected = ["Offline", "Online", "In Game", "In Studio", "Unknown", "Unknown"];
    for (code, word) in [0u8, 1, 2, 3, 4, 255].iter().zip(expected.iter()) {
        p.user_presence_type = *code;
        assert_eq!(p.status_text(), *word);
        assert_eq!(p.is_online(), *code > 0);
    }
}

#[test]
fn find_by_id_returns_first_match() {
    let mut s = store_with(3);
    s.accounts.push(Account::new(1, "dup".to_string(), "Dup".to_string()));
    assert_eq!(s.find_by_id(1).unwrap().username, "user1");
    assert!(s.find_by_id(7).is_none());
}

#[test]
fn find_by_id_mut_edits_in_place() {
    let mut s = store_with(3);
    s.find_by_id_mut(2).unwrap().alias = "alt".to_string();
    assert_eq!(s.accounts[2].alias, "alt");
    assert!(s.find_by_id_mut(9).is_none());
    assert_eq!(s.accounts.len(), 3);
}

#[test]
fn remove_by_id_keeps_the_rest_in_order() {
    let mut s = store_with(4);
    s.accounts.push(Account::new(2, "again".to_string(), "Again".to_string()));
    assert!(s.remove_by_id(2));
    let ids: Vec<u64> = s.accounts.iter().map(|a| a.user_id).collect();
    assert_eq!(ids, vec![0, 1, 3]);
    assert!(s.find_by_id(2).is_none());
    assert!(!s.remove_by_id(2));
    assert_eq!(s.accounts.len(), 3);
}

#[test]
fn favorites_become_presets() {
    let favs = vec![
        FavoritePlace { name: "Obby".to_string(), place_id: 10 },
        FavoritePlace { name: "Tycoon".to_string(), place_id: 20 },
    ];
    let presets = favorites_to_presets(favs);
    assert_eq!(presets.len(), 2);
    assert_eq!(presets[0].name, "Obby");
    assert_eq!(presets[0].place_id, 10);
    assert!(presets[0].job_id.is_none());
    assert_eq!(presets[1].name, "Tycoon");
    assert_eq!(presets[1].place_id, 20);
}

#[test]
fn configuration_defaults() {
    assert_eq!(default_sort_order(), u32::MAX);
    assert!(default_true());
    assert_eq!(default_sort_mode(), "Custom");
    assert_eq!(default_theme(), "slate");
    assert_eq!(default_background_fit(), "cover");
    assert_eq!(default_overlay_corner(), "bottom_right");
}
