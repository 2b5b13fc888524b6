//! Wire protocol of the local-socket capability.
//!
//! One connection serves exactly one request. The sender writes a command
//! byte (plus, for hanja conversion, the UTF-8 bytes of the composed text),
//! half-closes its write side for the conversion commands, and reads the
//! whole response. These functions build the request bytes and interpret
//! the response bytes; opening, writing, half-closing and reading the
//! socket are the caller's business.

use vstd::prelude::*;
use vstd::string::StrSliceExecFns;
use vstd::utf8::{decode_utf8, encode_utf8, valid_utf8};
use crate::capability::CapError;
use crate::state::ModeState;

verus! {

/// The protocol's byte alphabet, as ASCII codes: the command bytes `l`
/// (mode query), `i` (mode update), `h` (hanja conversion), `e` (emoji
/// lookup), and the letters of the fixed bodies `han` and `eng`.
pub const ASCII_L: u8 = 108;

pub const ASCII_I: u8 = 105;

pub const ASCII_H: u8 = 104;

pub const ASCII_E: u8 = 101;

pub const ASCII_A: u8 = 97;

pub const ASCII_N: u8 = 110;

pub const ASCII_G: u8 = 103;

/// The mode-query request: the single command byte `l`.
pub open spec fn spec_read_query() -> Seq<u8> {
    seq![ASCII_L]
}

/// The one response body that means "mode is on": the fixed literal `han`.
pub open spec fn spec_mode_on_reply() -> Seq<u8> {
    seq![ASCII_H, ASCII_A, ASCII_N]
}

/// How a mode-query response body is read: the mode is on exactly when the
/// body matches the fixed literal; anything else, the empty body included,
/// means off.
pub open spec fn spec_mode_of_reply(body: Seq<u8>) -> bool {
    body == spec_mode_on_reply()
}

/// The mode-update request for `state`: `ihan` to turn the mode on, `ieng`
/// to turn it off.
pub open spec fn spec_update_request(state: bool) -> Seq<u8> {
    if state {
        seq![ASCII_I, ASCII_H, ASCII_A, ASCII_N]
    } else {
        seq![ASCII_I, ASCII_E, ASCII_N, ASCII_G]
    }
}

/// The hanja-conversion request: the command byte `h` followed by the
/// UTF-8 bytes of the composed text.
pub open spec fn spec_hanja_request(preedit: Seq<char>) -> Seq<u8> {
    seq![ASCII_H] + encode_utf8(preedit)
}

/// The emoji-lookup request: the single command byte `e`, no payload.
pub open spec fn spec_emoji_request() -> Seq<u8> {
    seq![ASCII_E]
}

/// Build the mode-query request.
pub fn read_query_request() -> (r: Vec<u8>)
    ensures
        r@ == spec_read_query(),
{
    let mut r: Vec<u8> = Vec::new();
    r.push(ASCII_L);
    proof {
        assert(r@ =~= spec_read_query());
    }
    r
}

/// Read a mode-query response body: true exactly on the fixed mode-on
/// literal.
pub fn decode_read_response(body: &[u8]) -> (r: bool)
    ensures
        r == spec_mode_of_reply(body@),
{
    let r = body.len() == 3 && body[0] == ASCII_H && body[1] == ASCII_A && body[2] == ASCII_N;
    proof {
        if r {
            assert(body@ =~= spec_mode_on_reply());
        } else {
            assert(body@ != spec_mode_on_reply());
        }
    }
    r
}

/// Build the mode-update request for `state`.
pub fn update_request(state: bool) -> (r: Vec<u8>)
    ensures
        r@ == spec_update_request(state),
{
    let mut r: Vec<u8> = Vec::new();
    r.push(ASCII_I);
    if state {
        r.push(ASCII_H);
        r.push(ASCII_A);
        r.push(ASCII_N);
    } else {
        r.push(ASCII_E);
        r.push(ASCII_N);
        r.push(ASCII_G);
    }
    proof {
        assert(r@ =~= spec_update_request(state));
    }
    r
}

/// Build the hanja-conversion request carrying the composed text.
pub fn hanja_request(preedit: &str) -> (r: Vec<u8>)
    ensures
        r@ == spec_hanja_request(preedit@),
{
    let mut r: Vec<u8> = preedit.as_bytes_vec();
    r.insert(0, ASCII_H);
    proof {
        assert(r@ =~= spec_hanja_request(preedit@));
    }
    r
}

/// Build the emoji-lookup request.
pub fn emoji_request() -> (r: Vec<u8>)
    ensures
        r@ == spec_emoji_request(),
{
    let mut r: Vec<u8> = Vec::new();
    r.push(ASCII_E);
    proof {
        assert(r@ =~= spec_emoji_request());
    }
    r
}

/// Relies on core::str::from_utf8: it succeeds exactly on valid UTF-8
/// input, and the resulting string holds the decoded characters.
#[verifier::external_body]
fn decode_body(body: &[u8]) -> (r: Option<String>)
    ensures
        r is Some <==> valid_utf8(body@),
        r matches Some(s) ==> s@ == decode_utf8(body@),
{
    match core::str::from_utf8(body) {
        Ok(s) => Some(s.to_owned()),
        Err(_) => None,
    }
}

/// Interpret a hanja-conversion response body against the buffer: an empty
/// body means no candidate (false, buffer untouched); a non-empty valid
/// UTF-8 body replaces the committed text (true); anything else is a
/// data-validity error and the buffer is untouched.
pub fn apply_hanja_response(state: &mut ModeState, body: &[u8]) -> (r: Result<bool, CapError>)
    ensures
        body@.len() == 0 ==> r == Ok::<bool, CapError>(false) && final(state)@ == old(state)@,
        body@.len() > 0 && valid_utf8(body@) ==> r == Ok::<bool, CapError>(true)
            && final(state)@.committed == decode_utf8(body@)
            && final(state)@.preedit == old(state)@.preedit,
        body@.len() > 0 && !valid_utf8(body@) ==> r == Err::<bool, CapError>(CapError::InvalidData)
            && final(state)@ == old(state)@,
{
    if body.len() == 0 {
        Ok(false)
    } else {
        match decode_body(body) {
            Some(text) => {
                state.pass_replace(text.as_str());
                Ok(true)
            },
            None => Err(CapError::InvalidData),
        }
    }
}

/// Interpret an emoji-lookup response body against the buffer: an empty
/// body means no candidate (false, buffer untouched); a non-empty valid
/// UTF-8 body is appended to the committed text, which is otherwise kept
/// (true); anything else is a data-validity error and the buffer is
/// untouched.
pub fn apply_emoji_response(state: &mut ModeState, body: &[u8]) -> (r: Result<bool, CapError>)
    ensures
        body@.len() == 0 ==> r == Ok::<bool, CapError>(false) && final(state)@ == old(state)@,
        body@.len() > 0 && valid_utf8(body@) ==> r == Ok::<bool, CapError>(true)
            && final(state)@.committed == old(state)@.committed + decode_utf8(body@)
            && final(state)@.preedit == old(state)@.preedit,
        body@.len() > 0 && !valid_utf8(body@) ==> r == Err::<bool, CapError>(CapError::InvalidData)
            && final(state)@ == old(state)@,
{
    if body.len() == 0 {
        Ok(false)
    } else {
        match decode_body(body) {
            Some(text) => {
                state.pass(text.as_str());
                Ok(true)
            },
            None => Err(CapError::InvalidData),
        }
    }
}

/// Model of a stub peer that persists the last mode-update command it was
/// sent: its stored mode is on exactly when that command was the mode-on
/// update request.
pub open spec fn stub_mode_after(req: Seq<u8>) -> bool {
    req == spec_update_request(true)
}

/// Model of that stub peer's answer to the mode query: the fixed mode-on
/// literal when its stored mode is on, another body otherwise.
pub open spec fn stub_read_reply(mode: bool) -> Seq<u8> {
    if mode {
        spec_mode_on_reply()
    } else {
        seq![ASCII_E, ASCII_N, ASCII_G]
    }
}

/// Law: for every boolean `v`, updating the global mode to `v` and then
/// reading it back returns `v`, against a peer that persists the last
/// mode-update command and answers the mode query accordingly.
pub proof fn law_mode_round_trip(v: bool)
    ensures
        spec_mode_of_reply(stub_read_reply(stub_mode_after(spec_update_request(v)))) == v,
{
    if !v {
        assert(spec_update_request(false)[1] != spec_update_request(true)[1]);
        assert(stub_read_reply(false)[0] != spec_mode_on_reply()[0]);
    }
}

} // verus!
