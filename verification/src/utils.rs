//! Identifier generation and small helpers shared by the gateway.

use vstd::prelude::*;
use vstd::string::*;

verus! {

/// Relies on `uuid::Uuid::new_v4` and its `Display` impl: a version-4
/// UUID printed in the hyphenated form, which is exactly 36 characters.
/// The value is random; nothing more than its length is promised.
#[verifier::external_body]
fn fresh_uuid() -> (r: String)
    ensures
        r@.len() == 36,
{
    uuid::Uuid::new_v4().to_string()
}

/// True when `s` begins with the characters of `prefix`.
pub open spec fn seq_starts_with(s: Seq<char>, prefix: Seq<char>) -> bool {
    prefix.len() <= s.len() && s.subrange(0, prefix.len() as int) == prefix
}

/// A fresh correlation identifier for one pending call.
pub fn gen_call_id() -> (r: String)
    ensures
        r@.len() == 41,
        seq_starts_with(r@, "call-"@),
{
    let u = fresh_uuid();
    let r = String::from_str("call-").concat(u.as_str());
    proof {
        reveal_strlit("call-");
        assert(r@.subrange(0, 5) =~= "call-"@);
    }
    r
}

/// A fresh chat identifier, assigned when a request names no user.
pub fn gen_chat_id() -> (r: String)
    ensures
        r@.len() == 45,
        seq_starts_with(r@, "chatcmpl-"@),
{
    let u = fresh_uuid();
    let r = String::from_str("chatcmpl-").concat(u.as_str());
    proof {
        reveal_strlit("chatcmpl-");
        assert(r@.subrange(0, 9) =~= "chatcmpl-"@);
    }
    r
}

/// A fresh identifier for a completion object built from a peer reply.
pub fn gen_completion_id() -> (r: String)
    ensures
        r@.len() == 47,
        seq_starts_with(r@, "completion-"@),
{
    let u = fresh_uuid();
    let r = String::from_str("completion-").concat(u.as_str());
    proof {
        reveal_strlit("completion-");
        assert(r@.subrange(0, 11) =~= "completion-"@);
    }
    r
}

/// Character-by-character string comparison, so that contracts over both
/// operands' views stay available to every caller.
pub fn str_eq(a: &str, b: &str) -> (r: bool)
    ensures
        r == (a@ == b@),
{
    let a_len = a.unicode_len();
    let b_len = b.unicode_len();
    if a_len != b_len {
        assert(a@ != b@) by {
            assert(a@.len() != b@.len());
        }
        return false;
    }
    let mut i: usize = 0;
    while i < a_len
        invariant
            i <= a_len,
            a_len == a@.len(),
            b_len == b@.len(),
            a_len == b_len,
            forall|k: int| 0 <= k < i ==> a@[k] == b@[k],
        decreases a_len - i,
    {
        if a.get_char(i) != b.get_char(i) {
            assert(a@ != b@);
            return false;
        }
        i += 1;
    }
    assert(a@ =~= b@);
    true
}

/// A configuration value of the form `env:KEY` refers to the environment
/// variable `KEY`; any other value stands for itself. Returns the key to
/// look up, or `None` when the value is literal.
pub fn env_key_of(value: &str) -> (r: Option<String>)
    ensures
        match r {
            Some(k) => seq_starts_with(value@, "env:"@) && k@ == value@.subrange(4, value@.len() as int),
            None => !seq_starts_with(value@, "env:"@),
        },
{
    let n = value.unicode_len();
    if n < 4 {
        assert(!seq_starts_with(value@, "env:"@)) by {
            reveal_strlit("env:");
        }
        return None;
    }
    proof {
        reveal_strlit("env:");
    }
    if value.get_char(0) == 'e' && value.get_char(1) == 'n' && value.get_char(2) == 'v'
        && value.get_char(3) == ':' {
        let rest = value.substring_char(4, n);
        assert(value@.subrange(0, 4) =~= "env:"@);
        Some(rest.to_owned())
    } else {
        assert(!seq_starts_with(value@, "env:"@)) by {
            if seq_starts_with(value@, "env:"@) {
                assert(value@.subrange(0, 4)[0] == 'e');
                assert(value@.subrange(0, 4)[1] == 'n');
                assert(value@.subrange(0, 4)[2] == 'v');
                assert(value@.subrange(0, 4)[3] == ':');
                assert(value@[0] == 'e' && value@[1] == 'n' && value@[2] == 'v' && value@[3]
                    == ':');
            }
        }
        None
    }
}

} // verus!
