use vstd::prelude::*;
use vstd::string::*;

use crate::text::{char_of_byte, is_alphanumeric, is_ascii_upper, lower_text, push_char, to_ascii_lower, ascii_lowercase};

verus! {

/// How many random characters `generate_unique_name` appends to its prefix.
pub const UNIQUE_SUFFIX_LEN: usize = 20;

/// One byte drawn by `rand::Rng::sample` from `rand::distributions::Alphanumeric`
/// on the thread's generator. The crate's source draws it from the 62 bytes
/// `A`-`Z`, `a`-`z`, `0`-`9`; which one comes out is chance, so nothing more is
/// claimed.
#[verifier::external_body]
fn sample_alphanumeric() -> (b: u8)
    ensures
        is_alphanumeric(b as char),
{
    rand::Rng::sample(&mut rand::thread_rng(), rand::distributions::Alphanumeric)
}

/// What every random text of `generate_rand_str` satisfies.
pub open spec fn is_random_text(s: Seq<char>, len: nat, to_lowercase: bool) -> bool {
    &&& s.len() == len
    &&& forall|i: int| 0 <= i < s.len() ==> #[trigger] is_alphanumeric(s[i])
    &&& to_lowercase ==> forall|i: int| 0 <= i < s.len() ==> !is_ascii_upper(#[trigger] s[i])
}

/// `len` random ASCII letters and digits; capitals are lowered when
/// `to_lowercase` is set.
pub fn generate_rand_str(len: usize, to_lowercase: bool) -> (r: String)
    ensures
        is_random_text(r@, len as nat, to_lowercase),
{
    let mut r = String::new();
    let mut i: usize = 0;
    while i < len
        invariant
            i <= len,
            is_random_text(r@, i as nat, to_lowercase),
        decreases len - i,
    {
        let b = sample_alphanumeric();
        let c = char_of_byte(b);
        let c = if to_lowercase { to_ascii_lower(c) } else { c };
        let ghost before = r@;
        push_char(&mut r, c);
        assert(r@ == before.push(c));
        assert(forall|j: int| 0 <= j < before.len() ==> r@[j] == before[j]);
        i = i + 1;
    }
    r
}

/// What every name of `generate_unique_name` looks like: the prefix in ASCII
/// lowercase, a `-`, and twenty random lowercase letters or digits.
pub open spec fn is_unique_name(name: Seq<char>, prefix: Seq<char>) -> bool {
    &&& name.len() == prefix.len() + 1 + UNIQUE_SUFFIX_LEN
    &&& name.subrange(0, prefix.len() as int) == lower_text(prefix)
    &&& name[prefix.len() as int] == '-'
    &&& is_random_text(name.skip(prefix.len() + 1int), UNIQUE_SUFFIX_LEN as nat, true)
}

/// A fresh name: `prefix` in ASCII lowercase, `-`, then twenty random
/// lowercase letters or digits.
pub fn generate_unique_name(prefix: &str) -> (r: String)
    ensures
        is_unique_name(r@, prefix@),
{
    let mut r = ascii_lowercase(prefix);
    push_char(&mut r, '-');
    let suffix = generate_rand_str(UNIQUE_SUFFIX_LEN, true);
    let ghost head = r@;
    r.append(suffix.as_str());
    assert(r@.subrange(0, prefix@.len() as int) =~= lower_text(prefix@));
    assert(r@.skip(prefix@.len() + 1int) =~= suffix@);
    r
}

/// A lowercase hexadecimal digit.
pub open spec fn is_lower_hex(c: char) -> bool {
    ('0' <= c && c <= '9') || ('a' <= c && c <= 'f')
}

/// The hyphenated lowercase text of a random (version 4) UUID: 36 characters,
/// `-` at 8, 13, 18 and 23, lowercase hex digits elsewhere, the version digit
/// `4` at 14 and one of `8`, `9`, `a`, `b` at 19.
pub open spec fn is_uuid_v4_text(s: Seq<char>) -> bool {
    &&& s.len() == 36
    &&& forall|i: int|
        0 <= i < 36 ==> if i == 8 || i == 13 || i == 18 || i == 23 {
            #[trigger] s[i] == '-'
        } else {
            is_lower_hex(s[i])
        }
    &&& s[14] == '4'
    &&& (s[19] == '8' || s[19] == '9' || s[19] == 'a' || s[19] == 'b')
}

/// `uuid::Uuid::new_v4()`, written out by its `Display` impl. The crate's
/// source fills 122 random bits, sets the version nibble to 4 and the variant
/// bits to `10`, and writes the hyphenated lowercase form; which bits come out
/// is chance, so only that form is claimed.
#[verifier::external_body]
pub(crate) fn new_uuid_text() -> (s: String)
    ensures
        is_uuid_v4_text(s@),
{
    uuid::Uuid::new_v4().to_string()
}

/// `name` is a text that a draw of `new_uuid_text` gave back: a UUID drawn
/// at random, not one chosen by the caller.
pub closed spec fn uuid_drawn(name: String) -> bool {
    call_ensures(new_uuid_text, (), name)
}

/// What a call of `new_uuid_text` returned was drawn by it.
pub(crate) proof fn lemma_uuid_drawn(name: String)
    requires
        call_ensures(new_uuid_text, (), name),
    ensures
        uuid_drawn(name),
{
}

/// A drawn UUID is in the hyphenated form of a version 4 UUID.
pub proof fn lemma_drawn_uuid_form(name: String)
    requires
        uuid_drawn(name),
    ensures
        is_uuid_v4_text(name@),
{
}

/// The day before the Unix epoch, 1969-12-31, as days from the first day of
/// the common era.
pub const DAY_BEFORE_EPOCH: i32 = 719162;

/// Today's date on the local clock, as days from the first day of the common
/// era: `chrono::Local::now().date_naive().num_days_from_ce()`. It depends on
/// the clock and the time zone; what is claimed is what holds of every
/// reading: `Local::now` is `Utc::now` moved by the local offset, `Utc::now`
/// panics on a clock before the epoch, and an offset is less than a day, so
/// the date is never earlier than the day before the epoch.
#[verifier::external_body]
pub(crate) fn local_today() -> (days: i32)
    ensures
        days >= DAY_BEFORE_EPOCH,
{
    chrono::Datelike::num_days_from_ce(&chrono::Local::now().date_naive())
}

} // verus!
