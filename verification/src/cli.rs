//! The run's external inputs, as plain values, and the parsing of the
//! `owner/repo` target argument.

use vstd::prelude::*;

use crate::err::SyncError;

verus! {

/// The inputs of one run: the target repository as an `owner/repo` pair,
/// an optional single-environment selector, the path of the configuration
/// document, the access token, and an optional `User-Agent` override
/// (the owner login by default).
pub struct Args {
    pub repository: String,
    pub environment: Option<String>,
    pub config_path: String,
    pub token: String,
    pub username: Option<String>,
}

/// The `User-Agent` identity a run uses: the given override, or the
/// repository owner's login when none was given.
pub fn effective_username(username: Option<String>, owner: &String) -> (r: String)
    ensures
        username matches Some(u) ==> r@ == u@,
        username is None ==> r@ == owner@,
{
    match username {
        Some(u) => u,
        None => owner.clone(),
    }
}

/// Whether `s` holds exactly one `/`.
pub open spec fn has_unique_slash(s: Seq<char>) -> bool {
    exists|p: int|
        0 <= p < s.len() && s[p] == '/' && (forall|q: int|
            0 <= q < s.len() && s[q] == '/' ==> q == p)
}

/// Splits the target argument at its single separating slash. Anything
/// but exactly one slash is the malformed-repository configuration error.
pub fn split_repository(s: &str) -> (r: Result<(String, String), SyncError>)
    ensures
        r matches Ok(t) ==> s@ == t.0@ + seq!['/'] + t.1@ && !t.0@.contains('/')
            && !t.1@.contains('/'),
        r is Ok <==> has_unique_slash(s@),
        r matches Err(SyncError::MalformedRepository { input }) ==> input@ == s@,
        r is Err ==> (r matches Err(SyncError::MalformedRepository { input }) && input@ == s@),
{
    let n = s.unicode_len();
    let mut count: usize = 0;
    let mut first: usize = 0;
    let mut i: usize = 0;
    while i < n
        invariant
            i <= n,
            n == s@.len(),
            count <= i,
            count == 0 ==> (forall|j: int| 0 <= j < i ==> s@[j] != '/'),
            count >= 1 ==> first < i && s@[first as int] == '/',
            count == 1 ==> (forall|j: int| 0 <= j < i && j != first ==> s@[j] != '/'),
            count >= 2 ==> (exists|p: int, q: int|
                0 <= p < q < i && s@[p] == '/' && s@[q] == '/'),
        decreases n - i,
    {
        if s.get_char(i) == '/' {
            if count == 0 {
                first = i;
            }
            count += 1;
        }
        i += 1;
    }
    if count == 1 {
        let owner = String::from_str(s.substring_char(0, first));
        let name = String::from_str(s.substring_char(first + 1, n));
        proof {
            assert(s@ =~= owner@ + seq!['/'] + name@);
            assert(!owner@.contains('/')) by {
                assert(forall|j: int|
                    0 <= j < owner@.len() ==> owner@[j] == s@[j] && s@[j] != '/');
            }
            assert(!name@.contains('/')) by {
                assert(forall|j: int|
                    0 <= j < name@.len() ==> name@[j] == s@[j + first + 1] && s@[j + first + 1]
                        != '/');
            }
        }
        Ok((owner, name))
    } else {
        proof {
            if count == 0 {
                assert(!has_unique_slash(s@));
            } else {
                assert(count >= 2);
                assert(!has_unique_slash(s@)) by {
                    let (p, q) = choose|p: int, q: int|
                        0 <= p < q < s@.len() && s@[p] == '/' && s@[q] == '/';
                    assert(forall|c: int|
                        0 <= c < s@.len() && s@[c] == '/' && (forall|d: int|
                            0 <= d < s@.len() && s@[d] == '/' ==> d == c) ==> p == c && q == c);
                }
            }
        }
        Err(SyncError::MalformedRepository { input: String::from_str(s) })
    }
}

} // verus!
