use vstd::prelude::*;

verus! {

/// Whether `s` is exactly the text `word`.
pub fn str_equals(s: &str, word: &str) -> (r: bool)
    ensures
        r == (s@ == word@),
{
    let n = s.unicode_len();
    if n != word.unicode_len() {
        return false;
    }
    let mut i: usize = 0;
    while i < n
        invariant
            n == s@.len(),
            n == word@.len(),
            i <= n,
            forall|k: int| 0 <= k < i ==> s@[k] == word@[k],
        decreases n - i,
    {
        if s.get_char(i) != word.get_char(i) {
            return false;
        }
        i = i + 1;
    }
    assert(s@ =~= word@);
    true
}

/// The chunk type that marks a key frame.
pub open spec fn key_chunk_type() -> Seq<char> {
    seq!['k', 'e', 'y']
}

/// Whether an encoded chunk's type names a key frame.
pub fn is_key_chunk(chunk_type: &str) -> (r: bool)
    ensures
        r == (chunk_type@ == key_chunk_type()),
{
    proof {
        reveal_strlit("key");
        assert("key"@ =~= key_chunk_type());
    }
    str_equals(chunk_type, "key")
}

/// The text of a true flag in a page address.
pub open spec fn true_flag() -> Seq<char> {
    seq!['t', 'r', 'u', 'e']
}

/// Whether a query value is the text `true`.
pub fn is_true_flag(value: &str) -> (r: bool)
    ensures
        r == (value@ == true_flag()),
{
    proof {
        reveal_strlit("true");
        assert("true"@ =~= true_flag());
    }
    str_equals(value, "true")
}

} // verus!
