use vstd::prelude::*;

verus! {

/// A character of the unpadded base64url alphabet.
pub open spec fn is_nonce_char(c: char) -> bool {
    ('a' <= c && c <= 'z') || ('A' <= c && c <= 'Z') || ('0' <= c && c <= '9') || c == '-' || c
        == '_'
}

/// A replay nonce: non-empty, and made of base64url characters only.
pub open spec fn is_nonce_spec(s: Seq<char>) -> bool {
    s.len() > 0 && forall|i: int| 0 <= i < s.len() ==> is_nonce_char(#[trigger] s[i])
}

/// Tells whether `data` has the shape of a replay nonce.
pub fn is_nonce(data: &str) -> (r: bool)
    ensures
        r == is_nonce_spec(data@),
{
    if data.is_empty() {
        return false;
    }
    let mut ok: bool = true;
    for c in it: data.chars()
        invariant
            it.seq() == data@,
            ok == (forall|i: int| 0 <= i < it.index() ==> is_nonce_char(#[trigger] data@[i])),
    {
        let good = ('a' <= c && c <= 'z') || ('A' <= c && c <= 'Z') || ('0' <= c && c <= '9')
            || c == '-' || c == '_';
        ok = ok && good;
    }
    ok
}

/// Nonces are non-empty and hold no `/`, `+`, `=` or non-ASCII character:
/// a string with any of these is never a nonce.
pub proof fn lemma_nonce_rejects(s: Seq<char>, i: int)
    requires
        0 <= i < s.len(),
        s[i] == '/' || s[i] == '+' || s[i] == '=' || s[i] > '\x7f',
    ensures
        !is_nonce_spec(s),
{
}

/// The empty string is never a nonce.
pub proof fn lemma_empty_is_no_nonce()
    ensures
        !is_nonce_spec(Seq::<char>::empty()),
{
}

} // verus!
