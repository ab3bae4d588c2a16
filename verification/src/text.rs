use vstd::prelude::*;
use vstd::string::*;

verus! {

/// ASCII letters and digits: the characters that random names are drawn from.
pub open spec fn is_alphanumeric(c: char) -> bool {
    ('A' <= c && c <= 'Z') || ('a' <= c && c <= 'z') || ('0' <= c && c <= '9')
}

/// An ASCII capital letter.
pub open spec fn is_ascii_upper(c: char) -> bool {
    'A' <= c && c <= 'Z'
}

/// ASCII lowercase of one character: capitals map to the small letter, every
/// other character stays as it is.
pub open spec fn lower_char(c: char) -> char {
    if is_ascii_upper(c) {
        ((c as int) + 32) as char
    } else {
        c
    }
}

/// ASCII lowercase of a whole text, character by character.
pub open spec fn lower_text(s: Seq<char>) -> Seq<char> {
    Seq::new(s.len(), |i: int| lower_char(s[i]))
}

/// The text after the first `/`, or `None` where the text holds no `/`.
pub open spec fn after_first_slash(s: Seq<char>) -> Option<Seq<char>>
    decreases s.len(),
{
    if s.len() == 0 {
        None
    } else if s[0] == '/' {
        Some(s.drop_first())
    } else {
        after_first_slash(s.drop_first())
    }
}

/// Two texts joined by one `/`: how storage keys and block paths are built.
pub open spec fn slash_join(a: Seq<char>, b: Seq<char>) -> Seq<char> {
    a + seq!['/'] + b
}

/// The character whose code is the given byte.
pub fn char_of_byte(b: u8) -> (c: char)
    ensures
        c as int == b as int,
{
    b as char
}

/// ASCII lowercase of one character.
pub fn to_ascii_lower(c: char) -> (r: char)
    ensures
        r == lower_char(c),
{
    if 'A' <= c && c <= 'Z' {
        let code: u32 = c as u32;
        let lowered: u8 = (code + 32) as u8;
        lowered as char
    } else {
        c
    }
}

/// `String::push`: appends one character.
#[verifier::external_body]
pub(crate) fn push_char(s: &mut String, c: char)
    ensures
        final(s)@ == old(s)@.push(c),
{
    s.push(c)
}

/// ASCII lowercase of a text, as `str::to_ascii_lowercase` gives it.
pub fn ascii_lowercase(s: &str) -> (r: String)
    ensures
        r@ == lower_text(s@),
{
    let n = s.unicode_len();
    let mut r = String::new();
    let mut i: usize = 0;
    while i < n
        invariant
            n == s@.len(),
            i <= n,
            r@ == lower_text(s@.subrange(0, i as int)),
        decreases n - i,
    {
        let c = s.get_char(i);
        let l = to_ascii_lower(c);
        push_char(&mut r, l);
        i = i + 1;
        assert(r@ =~= lower_text(s@.subrange(0, i as int)));
    }
    assert(s@.subrange(0, n as int) =~= s@);
    r
}

/// `a`, a `/`, then `b`.
pub fn join_with_slash(a: &str, b: &str) -> (r: String)
    ensures
        r@ == slash_join(a@, b@),
{
    let mut r = String::from_str(a);
    push_char(&mut r, '/');
    r.append(b);
    r
}

proof fn lemma_after_first_slash_skip(s: Seq<char>, i: int)
    requires
        0 <= i < s.len(),
        s[i] != '/',
    ensures
        after_first_slash(s.skip(i)) == after_first_slash(s.skip(i + 1)),
{
    assert(s.skip(i).drop_first() =~= s.skip(i + 1));
}

/// The part of a text after its first `/`, as `str::split_once('/')` gives
/// its second half; `None` where the text holds no `/`.
pub fn split_after_first_slash(s: &str) -> (r: Option<String>)
    ensures
        r is Some <==> after_first_slash(s@) is Some,
        r matches Some(t) ==> t@ == after_first_slash(s@)->0,
{
    let n = s.unicode_len();
    let mut i: usize = 0;
    assert(s@.skip(0) =~= s@);
    while i < n
        invariant
            n == s@.len(),
            i <= n,
            after_first_slash(s@) == after_first_slash(s@.skip(i as int)),
        decreases n - i,
    {
        let c = s.get_char(i);
        if c == '/' {
            let rest = s.substring_char(i + 1, n);
            assert(s@.skip(i as int).drop_first() =~= s@.subrange(i + 1, n as int));
            return Some(String::from_str(rest));
        }
        proof {
            lemma_after_first_slash_skip(s@, i as int);
        }
        i = i + 1;
    }
    assert(s@.skip(n as int).len() == 0);
    None
}

} // verus!
