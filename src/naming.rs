//! Storage names: a random upper-case hexadecimal token, a hyphen, and the
//! name the client asked for.
use vstd::prelude::*;

use uuid::Uuid;

verus! {

/// Number of characters of the random token that starts a storage name.
pub const TOKEN_LEN: usize = 12;

/// Whether `c` is a digit or one of the letters `A` to `F`.
pub open spec fn is_upper_hex(c: char) -> bool {
    ('0' <= c && c <= '9') || ('A' <= c && c <= 'F')
}

/// Whether `t` is a token of `TOKEN_LEN` upper-case hexadecimal digits.
pub open spec fn is_token(t: Seq<char>) -> bool {
    t.len() == TOKEN_LEN && forall|i: int| 0 <= i < t.len() ==> is_upper_hex(#[trigger] t[i])
}

/// The storage name made of `token` and the requested `name`.
pub open spec fn joined_name(token: Seq<char>, name: Seq<char>) -> Seq<char> {
    token + seq!['-'] + name
}

/// Whether `s` is a storage name for the requested `name`: a token, a
/// hyphen, then `name` itself.
pub open spec fn is_storage_name_for(s: Seq<char>, name: Seq<char>) -> bool {
    is_token(s.subrange(0, TOKEN_LEN as int)) && s.len() == TOKEN_LEN + 1 + name.len()
        && s == joined_name(s.subrange(0, TOKEN_LEN as int), name)
}

/// A storage name for `name` ends with a hyphen followed by `name`, and
/// what comes before that suffix is exactly `TOKEN_LEN` characters long.
pub proof fn lemma_storage_name_shape(s: Seq<char>, name: Seq<char>)
    requires
        is_storage_name_for(s, name),
    ensures
        s.len() >= name.len() + 1,
        s.subrange(s.len() - name.len() - 1, s.len() as int) == seq!['-'] + name,
        s.len() - (name.len() + 1) == TOKEN_LEN,
{
    assert(s.subrange(s.len() - name.len() - 1, s.len() as int) =~= seq!['-'] + name);
}

/// Relies on uuid's `Uuid::new_v4`, a fresh random UUID, and on
/// `Simple::encode_upper`, which writes its sixteen bytes as thirty-two
/// digits among `0`-`9` and `A`-`F`, without hyphens.
#[verifier::external_body]
fn random_hex() -> (r: String)
    ensures
        r@.len() == 32,
        forall|i: int| 0 <= i < r@.len() ==> is_upper_hex(#[trigger] r@[i]),
{
    Uuid::new_v4().simple().encode_upper(&mut Uuid::encode_buffer()).to_string()
}

/// Joins a token and a requested name into a storage name.
pub fn storage_name(token: &str, name: &str) -> (r: String)
    ensures
        r@ == joined_name(token@, name@),
{
    let mut s = String::from_str(token);
    s.append("-");
    s.append(name);
    proof {
        reveal_strlit("-");
        assert(s@ =~= joined_name(token@, name@));
    }
    s
}

/// The storage name for `name` whose token is the first `TOKEN_LEN`
/// characters of the drawn digits `hex`.
pub fn storage_name_from_hex(hex: &str, name: &str) -> (r: String)
    requires
        hex@.len() >= TOKEN_LEN,
    ensures
        r@ == joined_name(hex@.subrange(0, TOKEN_LEN as int), name@),
{
    let token = hex.substring_char(0, TOKEN_LEN);
    storage_name(token, name)
}

/// Storage names for one requested name differ wherever their drawn digits
/// differ within the first `TOKEN_LEN` characters.
pub proof fn lemma_distinct_draws(hex1: Seq<char>, hex2: Seq<char>, name: Seq<char>)
    requires
        hex1.len() >= TOKEN_LEN,
        hex2.len() >= TOKEN_LEN,
        hex1.subrange(0, TOKEN_LEN as int) != hex2.subrange(0, TOKEN_LEN as int),
    ensures
        joined_name(hex1.subrange(0, TOKEN_LEN as int), name) != joined_name(
            hex2.subrange(0, TOKEN_LEN as int),
            name,
        ),
{
    let t1 = hex1.subrange(0, TOKEN_LEN as int);
    let t2 = hex2.subrange(0, TOKEN_LEN as int);
    let j1 = joined_name(t1, name);
    let j2 = joined_name(t2, name);
    assert(j1.subrange(0, TOKEN_LEN as int) =~= t1);
    assert(j2.subrange(0, TOKEN_LEN as int) =~= t2);
}

/// Prepend a random token to `name`.
pub fn prepend_uuid(name: &str) -> (r: String)
    ensures
        is_storage_name_for(r@, name@),
{
    let hex = random_hex();
    let r = storage_name_from_hex(hex.as_str(), name);
    assert(r@.subrange(0, TOKEN_LEN as int) =~= hex@.subrange(0, TOKEN_LEN as int));
    r
}

} // verus!
