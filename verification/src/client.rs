//! Reading the zero-terminated strings of the game's shared memory.
use vstd::prelude::*;
use vstd::string::StringSliceAdditionalSpecFns;
use vstd::utf8::valid_utf8;

verus! {

/// `i` is the index of the first zero byte of `s`.
pub open spec fn is_first_zero(s: Seq<u8>, i: int) -> bool {
    &&& 0 <= i < s.len()
    &&& s[i] == 0u8
    &&& forall|j: int| 0 <= j < i ==> s[j] != 0u8
}

/// The bytes of the zero-terminated string in `s`: those before its first zero, or none
/// when `s` holds no zero.
pub open spec fn c_string_bytes(s: Seq<u8>) -> Seq<u8> {
    if exists|i: int| is_first_zero(s, i) {
        s.take(choose|i: int| is_first_zero(s, i))
    } else {
        Seq::empty()
    }
}

/// The position of the first `needle` in `haystack`, found by `memchr::memchr`.
/// The crate documents it as the index of the first occurrence, or `None` when there is none;
/// this contract states exactly that.
#[verifier::external_body]
fn find_byte(needle: u8, haystack: &[u8]) -> (r: Option<usize>)
    ensures
        r matches Some(i) ==> i < haystack@.len() && haystack@[i as int] == needle
            && forall|j: int| 0 <= j < i ==> haystack@[j] != needle,
        r is None ==> forall|j: int| 0 <= j < haystack@.len() ==> haystack@[j] != needle,
{
    memchr::memchr(needle, haystack)
}

/// `bytes` as text, by `std::str::from_utf8`: `Some` exactly when the bytes are valid UTF-8,
/// as its documentation states, and then a string with those bytes.
#[verifier::external_body]
fn utf8_text(bytes: &[u8]) -> (r: Option<&str>)
    ensures
        r is Some <==> valid_utf8(bytes@),
        r matches Some(s) ==> s.spec_bytes() == bytes@,
{
    std::str::from_utf8(bytes).ok()
}

/// Text stored as a zero-terminated string.
pub trait ToStr {
    /// The bytes of the stored text.
    spec fn text_bytes(&self) -> Seq<u8>;

    /// The stored text is valid UTF-8.
    spec fn decodable(&self) -> bool;

    /// The stored text.
    fn to_str(&self) -> (r: &str)
        requires
            self.decodable(),
        ensures
            r.spec_bytes() == self.text_bytes(),
    ;
}

impl ToStr for [u8] {
    open spec fn text_bytes(&self) -> Seq<u8> {
        c_string_bytes(self@)
    }

    open spec fn decodable(&self) -> bool {
        valid_utf8(c_string_bytes(self@))
    }

    fn to_str(&self) -> (r: &str) {
        let nul_pos = find_byte(0, self);
        match nul_pos {
            Some(nul_pos) => {
                proof {
                    assert(is_first_zero(self@, nul_pos as int));
                    let c = choose|i: int| is_first_zero(self@, i);
                    assert(is_first_zero(self@, c));
                    if c < nul_pos {
                        assert(self@[c] != 0u8);
                    } else if c > nul_pos {
                        assert(self@[nul_pos as int] != 0u8);
                    }
                }
                let text = &self[0..nul_pos];
                assert(text@ =~= self@.take(nul_pos as int));
                match utf8_text(text) {
                    Some(s) => s,
                    None => {
                        assert(false);
                        ""
                    },
                }
            },
            None => {
                assert(!exists|i: int| is_first_zero(self@, i));
                proof {
                    reveal_strlit("");
                }
                ""
            },
        }
    }
}

} // verus!
