//! The front door's part in a session: the code under which a session is
//! found and the credential that makes a player its host.

use rand::Rng;
use vstd::prelude::*;
use vstd::string::StringExecFns;

verus! {

/// The number of letters in a session code.
pub const GAME_CODE_LEN: usize = 8;

/// The number of letters in a host credential.
pub const HOST_KEY_LEN: usize = 128;

/// `Rng::gen_range` on the thread's generator draws a value that lies in the
/// range it is given, here `low..=high`.
#[verifier::external_body]
fn random_between(low: u8, high: u8) -> (drawn: u8)
    requires
        low <= high,
    ensures
        low <= drawn <= high,
{
    rand::thread_rng().gen_range(low..=high)
}

/// Every character of `s` is one of the letters `A` to `Z`.
pub open spec fn is_upper(s: Seq<char>) -> bool {
    forall|i: int| 0 <= i < s.len() ==> 'A' as u32 <= (#[trigger] s[i]) as u32 <= 'Z' as u32
}

/// `len` letters drawn at random.
pub fn random_letters(len: usize) -> (s: String)
    ensures
        s@.len() == len,
        is_upper(s@),
{
    let mut s = String::new();
    let mut i: usize = 0;
    while i < len
        invariant
            i <= len,
            s@.len() == i,
            is_upper(s@),
        decreases len - i,
    {
        let letter: u8 = random_between('A' as u8, 'Z' as u8);
        s.push(letter as char);
        i += 1;
    }
    s
}

/// A session code.
pub fn game_code() -> (code: String)
    ensures
        code@.len() == GAME_CODE_LEN,
        is_upper(code@),
{
    random_letters(GAME_CODE_LEN)
}

/// A host credential.
pub fn host_key() -> (key: String)
    ensures
        key@.len() == HOST_KEY_LEN,
        is_upper(key@),
{
    random_letters(HOST_KEY_LEN)
}

/// The path of the socket on which the session `code` listens.
pub fn game_path(code: &str) -> (path: String)
    ensures
        path@ == "/monopoly_socks/"@ + code@,
{
    let mut path = "/monopoly_socks/".to_owned();
    path.append(code);
    path
}

/// What the front door answers once a session is launched: its code, and on
/// the next line its host credential.
pub fn created(code: &str, host_key: &str) -> (answer: String)
    ensures
        answer@ == code@ + "\n"@ + host_key@,
{
    let mut answer = code.to_owned();
    answer.append("\n");
    answer.append(host_key);
    answer
}

} // verus!
