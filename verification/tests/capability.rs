use kime::capability::{CapError, OsContext as _};
use kime::fallback;
use kime::state::ModeState;

#[test]
fn fallback_fails_every_operation_uniformly() {
    let mut ctx = fallback::OsContext::default();
    assert_eq!(ctx.read_global_hangul_state(), Err(CapError::Unsupported));
    assert_eq!(ctx.update_hangul_state(true), Err(CapError::Unsupported));
    assert_eq!(ctx.update_hangul_state(false), Err(CapError::Unsupported));

    let mut state = ModeState {
        preedit: "p".to_string(),
        committed: "c".to_string(),
    };
    assert_eq!(ctx.hanja(&mut state), Err(CapError::Unsupported));
    assert_eq!(state.preedit, "p");
    assert_eq!(state.committed, "c");
    assert_eq!(ctx.emoji(&mut state), Err(CapError::Unsupported));
    assert_eq!(state.preedit, "p");
    assert_eq!(state.committed, "c");
}
