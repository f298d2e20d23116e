use levent::app::{Effect, Levent};

#[test]
fn new_yields_empty_state_and_no_work() {
    let (state, effect) = Levent::new(());
    assert_eq!(state, Levent {});
    assert_eq!(effect, Effect::NoWork);
}

#[test]
fn title_is_levent() {
    let (state, _effect) = Levent::new(());
    assert_eq!(state.title(), "levent");
}

#[test]
fn title_does_not_change() {
    let (state, _effect) = Levent::new(());
    assert_eq!(state.title(), state.title());
}

#[test]
fn view_is_aaaa() {
    let (state, _effect) = Levent::new(());
    assert_eq!(state.view(), "aaaa");
}

#[test]
fn view_does_not_depend_on_anything() {
    let (first, _) = Levent::new(());
    let (second, _) = Levent::new(());
    assert_eq!(first.view(), second.view());
    assert_eq!(first, second);
}
