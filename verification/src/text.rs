use vstd::prelude::*;
use vstd::string::StringSliceAdditionalSpecFns;

verus! {

/// Appends one character to a string (`String::push`).
#[verifier::external_body]
pub(crate) fn push_char(s: &mut String, c: char)
    ensures
        final(s)@ == old(s)@.push(c),
{
    s.push(c);
}

/// The lowercase form that `str::to_lowercase` gives of a string.
pub uninterp spec fn lowercase(s: Seq<char>) -> Seq<char>;

/// `str::to_lowercase`: the Unicode lowercase mapping of each character of
/// `s`. The mapping itself is Unicode's, and is named here rather than stated.
#[verifier::external_body]
pub(crate) fn to_lowercase(s: &str) -> (r: String)
    ensures
        r@ == lowercase(s@),
{
    s.to_lowercase()
}

/// The first `max` bytes of `s` when it is longer than that, `s` itself when
/// it is not. The cut must fall on a character boundary.
pub open spec fn clipped_bytes(bytes: Seq<u8>, max: nat) -> Seq<u8> {
    if bytes.len() > max {
        bytes.subrange(0, max as int)
    } else {
        bytes
    }
}

/// Whether the text `s` can be cut at byte `max` of its UTF-8 form without
/// splitting a character, or needs no cut at all.
pub open spec fn clippable(s: Seq<char>, max: nat) -> bool {
    let bytes = vstd::utf8::encode_utf8(s);
    &&& bytes.len() <= usize::MAX
    &&& bytes.len() <= max || vstd::utf8::is_char_boundary(bytes, max as int)
}

/// `s` cut to at most `max` bytes, as the request log stores its fields: the
/// bytes kept are the first `max` of `s`, and the characters kept are a
/// prefix of those of `s`.
pub fn clip(s: &str, max: usize) -> (r: String)
    requires
        clippable(s@, max as nat),
    ensures
        vstd::utf8::encode_utf8(r@) == clipped_bytes(s.spec_bytes(), max as nat),
        r@.len() <= s@.len(),
        r@ == s@.subrange(0, r@.len() as int),
        s.spec_bytes().len() <= max ==> r@ == s@,
{
    if s.len() > max {
        let (head, _tail) = s.split_at(max);
        let r = head.to_owned();
        proof {
            let bytes = s.spec_bytes();
            vstd::utf8::encode_utf8_valid_utf8(s@);
            vstd::utf8::encode_utf8_decode_utf8(s@);
            vstd::utf8::encode_utf8_decode_utf8(head@);
            vstd::utf8::decode_utf8_split(bytes, max as int);
            vstd::utf8::valid_utf8_split(bytes, max as int);
            let rest = vstd::utf8::decode_utf8(bytes.subrange(max as int, bytes.len() as int));
            assert(s@ == r@ + rest);
            assert(r@ =~= s@.subrange(0, r@.len() as int));
        }
        r
    } else {
        s.to_owned()
    }
}

} // verus!

verus! {

/// Whether two strings hold the same characters.
pub fn str_eq(a: &str, b: &str) -> (r: bool)
    ensures
        r == (a@ == b@),
{
    let x = String::from_str(a);
    let y = String::from_str(b);
    x == y
}

} // verus!

verus! {

/// The name under which an account is stored and looked up: the given name
/// in lowercase.
pub fn lookup_name(name: &str) -> (r: String)
    ensures
        r@ == lowercase(name@),
{
    to_lowercase(name)
}

} // verus!
