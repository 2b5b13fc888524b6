use kime::capability::CapError;
use kime::protocol::{
    apply_emoji_response, apply_hanja_response, decode_read_response, emoji_request,
    hanja_request, read_query_request, update_request,
};
use kime::state::ModeState;

/// A stub peer that persists the last mode-update command and answers the
/// mode query accordingly.
struct StubPeer {
    mode: bool,
}

impl StubPeer {
    fn receive_update(&mut self, request: &[u8]) {
        self.mode = request == b"ihan";
    }

    fn answer_read_query(&self, request: &[u8]) -> Vec<u8> {
        assert_eq!(request, b"l");
        if self.mode {
            b"han".to_vec()
        } else {
            b"eng".to_vec()
        }
    }
}

#[test]
fn update_then_read_returns_what_was_set() {
    for v in [false, true] {
        let mut peer = StubPeer { mode: !v };
        peer.receive_update(&update_request(v));
        let reply = peer.answer_read_query(&read_query_request());
        assert_eq!(decode_read_response(&reply), v);
    }
}

#[test]
fn request_encodings_are_exact() {
    assert_eq!(read_query_request(), b"l".to_vec());
    assert_eq!(update_request(true), b"ihan".to_vec());
    assert_eq!(update_request(false), b"ieng".to_vec());
    assert_eq!(emoji_request(), b"e".to_vec());
    assert_eq!(hanja_request("abc"), b"habc".to_vec());
    assert_eq!(hanja_request(""), b"h".to_vec());
}

#[test]
fn hanja_request_carries_utf8_payload() {
    let mut expected = vec![b'h'];
    expected.extend_from_slice("한글".as_bytes());
    assert_eq!(hanja_request("한글"), expected);
}

#[test]
fn read_response_must_match_exactly() {
    assert!(decode_read_response(b"han"));
    assert!(!decode_read_response(b""));
    assert!(!decode_read_response(b"eng"));
    assert!(!decode_read_response(b"hani"));
    assert!(!decode_read_response(b"ha"));
}

#[test]
fn hanja_empty_body_means_no_candidate() {
    let mut state = ModeState {
        preedit: "하ㄴ".to_string(),
        committed: "before".to_string(),
    };
    let r = apply_hanja_response(&mut state, b"");
    assert_eq!(r, Ok(false));
    assert_eq!(state.preedit, "하ㄴ");
    assert_eq!(state.committed, "before");
}

#[test]
fn hanja_candidate_replaces_committed_text() {
    let mut state = ModeState {
        preedit: "한문".to_string(),
        committed: "old".to_string(),
    };
    let r = apply_hanja_response(&mut state, "한문".as_bytes());
    assert_eq!(r, Ok(true));
    assert_eq!(state.committed, "한문");
    assert_eq!(state.preedit, "한문");
}

#[test]
fn hanja_invalid_utf8_is_data_error_and_keeps_buffer() {
    let mut state = ModeState {
        preedit: "p".to_string(),
        committed: "c".to_string(),
    };
    let r = apply_hanja_response(&mut state, &[0xff, 0xfe]);
    assert_eq!(r, Err(CapError::InvalidData));
    assert_eq!(state.preedit, "p");
    assert_eq!(state.committed, "c");
}

#[test]
fn emoji_candidate_appends_without_replacing() {
    let mut state = ModeState {
        preedit: "p".to_string(),
        committed: "prior".to_string(),
    };
    let r = apply_emoji_response(&mut state, "😀".as_bytes());
    assert_eq!(r, Ok(true));
    assert_eq!(state.committed, "prior😀");
    assert_eq!(state.preedit, "p");
}

#[test]
fn emoji_empty_body_means_no_candidate() {
    let mut state = ModeState {
        preedit: "p".to_string(),
        committed: "prior".to_string(),
    };
    let r = apply_emoji_response(&mut state, b"");
    assert_eq!(r, Ok(false));
    assert_eq!(state.committed, "prior");
    assert_eq!(state.preedit, "p");
}

#[test]
fn emoji_invalid_utf8_is_data_error_and_keeps_buffer() {
    let mut state = ModeState {
        preedit: "p".to_string(),
        committed: "prior".to_string(),
    };
    let r = apply_emoji_response(&mut state, &[0xc3, 0x28]);
    assert_eq!(r, Err(CapError::InvalidData));
    assert_eq!(state.committed, "prior");
    assert_eq!(state.preedit, "p");
}

#[test]
fn mode_state_operations() {
    let mut state = ModeState::new("abc".to_string());
    assert_eq!(state.preedit_str(), "abc");
    assert_eq!(state.committed, "");
    state.pass("xy");
    assert_eq!(state.committed, "xy");
    state.pass("z");
    assert_eq!(state.committed, "xyz");
    state.pass_replace("q");
    assert_eq!(state.committed, "q");
    assert_eq!(state.preedit_str(), "abc");
}
