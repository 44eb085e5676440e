//! The files the command keeps in the home directory.
//!
//! A path is held as the bytes of the operating system's path (on Unix, any
//! bytes but NUL), so that a home directory that is not UTF-8 is kept exactly;
//! it is turned into text only to be shown.

use vstd::prelude::*;
use vstd::utf8::{decode_utf8, encode_utf8, valid_utf8};
use crate::errors::GhpcError;
use crate::text::{push_str, string_of};

verus! {

/// The user's home directory (`dirs::home_dir`), as the bytes of the path
/// (`OsString::into_encoded_bytes`, one for one). What it is depends on the
/// environment, so nothing is stated of it.
#[verifier::external_body]
pub fn home_dir() -> (h: Option<Vec<u8>>) {
    match dirs::home_dir() {
        Some(p) => Some(p.into_os_string().into_encoded_bytes()),
        None => None,
    }
}

/// What `String::from_utf8_lossy` makes of bytes: their text, with each
/// invalid sequence replaced by U+FFFD.
pub uninterp spec fn utf8_lossy(bytes: Seq<u8>) -> Seq<char>;

/// `String::from_utf8_lossy`: the text of the bytes, named by [`utf8_lossy`];
/// bytes that are valid UTF-8 give exactly the text they encode.
#[verifier::external_body]
fn lossy_text(bytes: &[u8]) -> (s: String)
    ensures
        s@ == utf8_lossy(bytes@),
        valid_utf8(bytes@) ==> s@ == decode_utf8(bytes@),
{
    String::from_utf8_lossy(bytes).into_owned()
}

/// The byte `/`.
pub open spec fn slash() -> u8 {
    47u8
}

/// A file name appended to a directory path as `PathBuf::join` appends a
/// relative name on Unix: with a `/` between them unless the path is empty or
/// already ends with one.
pub open spec fn join_path(base: Seq<u8>, name: Seq<u8>) -> Seq<u8> {
    if base.len() == 0 {
        name
    } else if base.last() == slash() {
        base + name
    } else {
        base.push(slash()) + name
    }
}

/// The home directory, or `~` (the byte 126) when there is none.
pub open spec fn home_or_tilde(home: Option<Seq<u8>>) -> Seq<u8> {
    match home {
        Some(h) => h,
        None => seq![126u8],
    }
}

/// The name of the token cache file.
pub open spec fn cache_file_name() -> Seq<char> {
    ".hpc-login-cache.json"@
}

/// The name of the private key file.
pub open spec fn key_file_name() -> Seq<char> {
    ".hpckey"@
}

/// The view of an optional path.
pub open spec fn opt_bytes(o: Option<Vec<u8>>) -> Option<Seq<u8>> {
    match o {
        Some(v) => Some(v@),
        None => None,
    }
}

/// A file in the home directory, or under `~` when there is none.
pub fn path_in_home(home: Option<Vec<u8>>, name: &str) -> (p: Vec<u8>)
    ensures
        p@ == join_path(home_or_tilde(opt_bytes(home)), encode_utf8(name@)),
{
    let ghost h = opt_bytes(home);
    let mut out: Vec<u8> = match home {
        Some(h) => h,
        None => {
            let mut t: Vec<u8> = Vec::new();
            t.push(126u8);
            t
        },
    };
    let base_len = out.len();
    if base_len > 0 && out[base_len - 1] != 47u8 {
        out.push(47u8);
    }
    let ghost mid = out@;
    let n = name.as_bytes();
    let mut i: usize = 0;
    while i < n.len()
        invariant
            i <= n.len(),
            n@ == encode_utf8(name@),
            out@ == mid + n@.take(i as int),
        decreases n.len() - i,
    {
        out.push(n[i]);
        i = i + 1;
        assert(out@ =~= mid + n@.take(i as int));
    }
    assert(n@.take(i as int) =~= n@);
    proof {
        let b = home_or_tilde(h);
        if b.len() == 0 {
            assert(mid =~= Seq::<u8>::empty());
            assert(out@ =~= n@);
        }
    }
    out
}

/// `~/.hpc-login-cache.json`, with `~` the home directory when there is one.
pub fn cache_file_path() -> (p: Vec<u8>)
    ensures
        exists|h: Option<Seq<u8>>| p@ == join_path(home_or_tilde(h), encode_utf8(cache_file_name())),
{
    let home = home_dir();
    let ghost h = opt_bytes(home);
    let p = path_in_home(home, ".hpc-login-cache.json");
    assert(p@ == join_path(home_or_tilde(h), encode_utf8(cache_file_name())));
    p
}

/// `~/.hpckey`, with `~` the home directory when there is one.
pub fn key_file_path() -> (p: Vec<u8>)
    ensures
        exists|h: Option<Seq<u8>>| p@ == join_path(home_or_tilde(h), encode_utf8(key_file_name())),
{
    let home = home_dir();
    let ghost h = opt_bytes(home);
    let p = path_in_home(home, ".hpckey");
    assert(p@ == join_path(home_or_tilde(h), encode_utf8(key_file_name())));
    p
}

/// How a path is shown: its text, with each invalid UTF-8 sequence replaced by
/// U+FFFD; a UTF-8 path is shown as it is.
pub fn display_path(path: &[u8]) -> (s: String)
    ensures
        s@ == utf8_lossy(path@),
        valid_utf8(path@) ==> s@ == decode_utf8(path@),
{
    lossy_text(path)
}

/// Where the downloaded key is written: `.hpckey` in the home directory, and
/// an error when there is no home directory.
pub fn key_destination(home: Option<Vec<u8>>) -> (r: Result<Vec<u8>, GhpcError>)
    ensures
        match home {
            Some(h) => r matches Ok(p) && p@ == join_path(h@, encode_utf8(key_file_name())),
            None => r matches Err(e) && e is HomeDirectory,
        },
{
    match home {
        Some(h) => Ok(path_in_home(Some(h), ".hpckey")),
        None => Err(GhpcError::HomeDirectory),
    }
}

/// The line reporting where the key was written, with the path as shown.
pub fn key_saved_message(path: &[u8]) -> (m: String)
    ensures
        m@ == "Private key saved to: "@ + utf8_lossy(path@),
{
    let shown = lossy_text(path);
    let mut v: Vec<char> = Vec::new();
    push_str(&mut v, "Private key saved to: ");
    push_str(&mut v, shown.as_str());
    string_of(&v)
}

} // verus!
