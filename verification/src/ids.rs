//! Identifiers of control requests: a running count and a random suffix.

use crate::text::{decimal, is_digit, lemma_decimal_injective, lemma_decimal_is_decimal, u64_to_string};
use vstd::prelude::*;
use vstd::string::StringExecFns;
use vstd::string::StrSliceExecFns;

verus! {

/// The identifier made of a count and a suffix: `req_`, the count in decimal,
/// an underscore, the suffix.
pub open spec fn request_id_text(count: u64, suffix: Seq<char>) -> Seq<char> {
    "req_"@ + decimal(count as nat) + "_"@ + suffix
}

/// Whether `id` is an identifier of that count, with a suffix of eight characters.
pub open spec fn is_request_id(id: Seq<char>, count: u64) -> bool {
    exists|suffix: Seq<char>| suffix.len() == 8 && id == #[trigger] request_id_text(count, suffix)
}

/// The count that follows `count`; after the largest comes zero.
pub open spec fn next_count(count: u64) -> u64 {
    if count == u64::MAX {
        0
    } else {
        (count + 1) as u64
    }
}

/// Identifiers of different counts differ, whatever their suffixes are.
pub proof fn lemma_request_ids_differ(c1: u64, s1: Seq<char>, c2: u64, s2: Seq<char>)
    requires
        c1 != c2,
    ensures
        request_id_text(c1, s1) != request_id_text(c2, s2),
{
    reveal_strlit("req_");
    reveal_strlit("_");
    let a = decimal(c1 as nat);
    let b = decimal(c2 as nat);
    let x = request_id_text(c1, s1);
    let y = request_id_text(c2, s2);
    lemma_decimal_is_decimal(c1 as nat);
    lemma_decimal_is_decimal(c2 as nat);
    if x == y {
        // the digits of the count end where the first underscore after them stands
        assert forall|i: int| 0 <= i < a.len() implies x[4 + i] == a[i] by {}
        assert forall|i: int| 0 <= i < b.len() implies y[4 + i] == b[i] by {}
        assert(x[4 + a.len() as int] == '_');
        assert(y[4 + b.len() as int] == '_');
        if a.len() < b.len() {
            assert(y[4 + a.len() as int] == b[a.len() as int]);
            assert(is_digit(b[a.len() as int]));
        } else if b.len() < a.len() {
            assert(x[4 + b.len() as int] == a[b.len() as int]);
            assert(is_digit(a[b.len() as int]));
        } else {
            assert forall|i: int| 0 <= i < a.len() implies a[i] == b[i] by {
                assert(x[4 + i] == a[i]);
                assert(y[4 + i] == b[i]);
            }
            assert(a =~= b);
            lemma_decimal_injective(c1 as nat, c2 as nat);
        }
    }
}

/// `uuid::Uuid::new_v4` shown by `to_string`: the hyphenated form, which has
/// thirty-six characters whatever the random bits are.
#[verifier::external_body]
fn random_uuid_text() -> (r: String)
    ensures
        r@.len() == 36,
{
    uuid::Uuid::new_v4().to_string()
}

/// The first eight characters of a text, or all of it where it has fewer.
pub open spec fn first_eight(text: Seq<char>) -> Seq<char> {
    if text.len() < 8 {
        text
    } else {
        text.subrange(0, 8)
    }
}

/// The identifier of the request of that count, with the first eight
/// characters of `random` as its suffix.
pub fn request_id_from(count: u64, random: &str) -> (r: String)
    ensures
        r@ == request_id_text(count, first_eight(random@)),
{
    let mut id = String::from_str("req_");
    let digits = u64_to_string(count);
    id.append(digits.as_str());
    id.append("_");
    let n = random.unicode_len();
    if n < 8 {
        id.append(random);
    } else {
        id.append(random.substring_char(0, 8));
    }
    id
}

/// A fresh request identifier: the count, then random characters. The count
/// moves on by one, so that the next identifier differs from this one.
pub fn generate_request_id(counter: &mut u64) -> (r: String)
    ensures
        is_request_id(r@, *old(counter)),
        *final(counter) == next_count(*old(counter)),
{
    let count = *counter;
    let random = random_uuid_text();
    let id = request_id_from(count, random.as_str());
    proof {
        let suffix = first_eight(random@);
        assert(suffix.len() == 8);
        assert(id@ == request_id_text(count, suffix));
    }
    *counter = if count == u64::MAX {
        0
    } else {
        count + 1
    };
    id
}

} // verus!
