use protoncode::secrets::{SecretError, SecretRead, SecretStore, StoreReply};

#[test]
fn marker_is_kept_under_its_entry() {
    let store = SecretStore::new();
    assert_eq!(store, SecretStore::default());
    assert_eq!(store.entry().service, "protoncode");
    assert_eq!(store.entry().account, "proton-session");
    let write = store.save_session_marker("authenticated");
    assert_eq!(write.entry, store.entry());
    assert_eq!(write.secret, "authenticated");
}

#[test]
fn replies_of_the_store_are_understood() {
    let store = SecretStore::new();
    assert_eq!(store.session_marker_saved(StoreReply::Done), Ok(()));
    assert_eq!(store.session_marker_saved(StoreReply::NoEntry), Err(SecretError::Persist));
    assert_eq!(store.session_marker_saved(StoreReply::Failed), Err(SecretError::Persist));
    assert_eq!(store.session_marker_saved(StoreReply::Unavailable), Err(SecretError::Access));
    assert_eq!(
        store.load_session_marker(SecretRead::Secret("x".to_owned())),
        Ok(Some("x".to_owned()))
    );
    assert_eq!(store.load_session_marker(SecretRead::NoEntry), Ok(None));
    assert_eq!(store.load_session_marker(SecretRead::Unavailable), Err(SecretError::Access));
    assert_eq!(store.load_session_marker(SecretRead::Failed), Err(SecretError::Read));
    assert_eq!(store.clear_session_marker(StoreReply::Done), Ok(()));
    assert_eq!(store.clear_session_marker(StoreReply::NoEntry), Ok(()));
    assert_eq!(store.clear_session_marker(StoreReply::Unavailable), Err(SecretError::Access));
    assert_eq!(store.clear_session_marker(StoreReply::Failed), Err(SecretError::Remove));
}

#[test]
fn secret_errors_have_words() {
    for (error, message) in [
        (SecretError::Access, "failed to access platform credential store"),
        (SecretError::Persist, "failed to persist session marker"),
        (SecretError::Read, "failed to read session marker"),
        (SecretError::Remove, "failed to remove session marker"),
    ] {
        assert_eq!(error.message(), message);
    }
}
