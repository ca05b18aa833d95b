use gourmet_client::session::SessionSlot;


#[test]
fn reset_installs_a_new_client_and_keeps_old_handles() {
    let mut slot = SessionSlot::new().ok().unwrap();
    assert_eq!(slot.generation(), 0);
    let early = slot.handle();
    assert_eq!(early.generation(), 0);
    assert!(slot.reset().is_ok());
    assert_eq!(slot.generation(), 1);
    assert_eq!(early.generation(), 0);
    let late = slot.handle();
    assert_eq!(late.generation(), 1);
    let _ = early.client();
}

#[test]
fn taking_a_handle_changes_nothing() {
    let slot = SessionSlot::new().ok().unwrap();
    let a = slot.handle();
    let b = slot.handle();
    assert_eq!(a.generation(), b.generation());
    assert_eq!(slot.generation(), 0);
}

#[test]
fn a_slot_holds_the_client_it_was_given() {
    let mut slot = SessionSlot::holding(reqwest::Client::new(), 3);
    assert_eq!(slot.generation(), 0);
    assert_eq!(slot.redirect_limit(), 3);
    slot.install(reqwest::Client::new());
    assert_eq!(slot.generation(), 1);
    assert_eq!(slot.handle().generation(), 1);
}

#[test]
fn two_resets_move_two_generations() {
    let mut slot = SessionSlot::new().ok().unwrap();
    assert!(slot.reset().is_ok());
    assert!(slot.reset().is_ok());
    assert_eq!(slot.generation(), 2);
    assert_eq!(slot.redirect_limit(), 5);
}
