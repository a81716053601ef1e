use no_panic::noexcept::{abort, AbortOnDrop};

#[test]
fn abort_gives_the_message_of_the_panic() {
    assert_eq!(abort(), "panic inside of #[abort_on_panic]");
}

#[test]
fn dropping_the_guard_aborts() {
    let mut guard = AbortOnDrop;
    assert_eq!(guard.drop(), abort());
}
