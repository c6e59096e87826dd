//! Character-level helpers shared by the text processing of the library.
use vstd::prelude::*;

verus! {

/// `String::push`: appends one character to the end of the string.
#[verifier::external_body]
pub(crate) fn string_push(s: &mut String, c: char)
    ensures
        final(s)@ == old(s)@.push(c),
{
    s.push(c);
}

/// `char::is_whitespace`: the Unicode `White_Space` property.
pub open spec fn is_unicode_whitespace(c: char) -> bool {
    let u = c as u32;
    ||| 0x09 <= u <= 0x0D
    ||| u == 0x20
    ||| u == 0x85
    ||| u == 0xA0
    ||| u == 0x1680
    ||| 0x2000 <= u <= 0x200A
    ||| u == 0x2028
    ||| u == 0x2029
    ||| u == 0x202F
    ||| u == 0x205F
    ||| u == 0x3000
}

pub fn is_whitespace(c: char) -> (b: bool)
    ensures
        b == is_unicode_whitespace(c),
{
    let u = c as u32;
    (0x09 <= u && u <= 0x0D) || u == 0x20 || u == 0x85 || u == 0xA0 || u == 0x1680 || (0x2000
        <= u && u <= 0x200A) || u == 0x2028 || u == 0x2029 || u == 0x202F || u == 0x205F || u
        == 0x3000
}

/// Whether `s` is one of `list`.
pub open spec fn is_listed(list: Seq<String>, s: Seq<char>) -> bool {
    exists|i: int| 0 <= i < list.len() && #[trigger] list[i]@ == s
}

/// Whether `s` is one of `list`.
pub fn list_contains(list: &Vec<String>, s: &String) -> (b: bool)
    ensures
        b == is_listed(list@, s@),
{
    let n = list.len();
    for i in 0..n
        invariant
            n == list@.len(),
            forall|j: int| 0 <= j < i ==> #[trigger] list@[j]@ != s@,
    {
        if list[i] == *s {
            assert(list@[i as int]@ == s@);
            return true;
        }
    }
    false
}

/// Appends every character of `chars` to `out`.
pub fn push_all(out: &mut String, chars: &Vec<char>)
    ensures
        final(out)@ == old(out)@ + chars@,
{
    let n = chars.len();
    for i in 0..n
        invariant
            n == chars@.len(),
            out@ == old(out)@ + chars@.take(i as int),
    {
        string_push(out, chars[i]);
        proof {
            assert(chars@.take(i + 1) =~= chars@.take(i as int).push(chars@[i as int]));
        }
    }
    proof {
        assert(chars@.take(n as int) =~= chars@);
    }
}

/// The characters of a string, in order.
pub fn chars_of(s: &str) -> (v: Vec<char>)
    ensures
        v@ == s@,
{
    let mut v: Vec<char> = Vec::new();
    for c in it: s.chars()
        invariant
            it.seq() == s@,
            v@ == s@.take(it.index() as int),
    {
        proof {
            assert(s@.take(it.index() + 1) =~= s@.take(it.index() as int).push(c));
        }
        v.push(c);
    }
    proof {
        assert(s@.take(s@.len() as int) =~= s@);
    }
    v
}

} // verus!

verus! {

/// `md`, the description format of markdown content.
pub fn markdown_format() -> (s: String)
    ensures
        s@ == seq!['m', 'd'],
{
    let s = "md".to_owned();
    proof {
        reveal_strlit("md");
        assert(s@ =~= seq!['m', 'd']);
    }
    s
}

/// `text`, the description format of plain text content.
pub fn text_format() -> (s: String)
    ensures
        s@ == seq!['t', 'e', 'x', 't'],
{
    let s = "text".to_owned();
    proof {
        reveal_strlit("text");
        assert(s@ =~= seq!['t', 'e', 'x', 't']);
    }
    s
}

} // verus!
