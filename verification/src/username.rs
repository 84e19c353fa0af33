//! Username derivation: lowercase the display name, join its first two
//! whitespace-separated tokens, append the current wall-clock time in
//! milliseconds, and clamp the result to at most 25 characters.

use vstd::prelude::*;

use crate::text::{decimal_rep, decimal_string, lemma_decimal_rep_nonempty};

verus! {

/// What `str::to_lowercase` returns for a given character sequence.
pub uninterp spec fn lower_of(s: Seq<char>) -> Seq<char>;

/// Whether `char::is_whitespace` holds of a character.
pub uninterp spec fn is_space(c: char) -> bool;

/// Every character of `s` is white space (vacuously true of the empty
/// sequence).
pub open spec fn all_space(s: Seq<char>) -> bool {
    forall|j: int| 0 <= j < s.len() ==> is_space(s[j])
}

/// Relies on str::to_lowercase: the result depends on the characters alone,
/// and characters without a lowercase mapping, white space among them, are
/// left unchanged, so a string of white space alone maps to itself.
#[verifier::external_body]
fn lowercase(s: &str) -> (r: String)
    ensures
        r@ == lower_of(s@),
        s@.len() == 0 ==> r@.len() == 0,
        all_space(s@) ==> r@ == s@,
{
    s.to_lowercase()
}

/// Relies on char::is_whitespace: Unicode white space is a property of the
/// character alone.
#[verifier::external_body]
fn is_space_char(c: char) -> (r: bool)
    ensures
        r == is_space(c),
{
    c.is_whitespace()
}

/// Relies on std::time::SystemTime::now: milliseconds since the Unix epoch
/// (zero if the clock reads before the epoch). Nothing is assumed of the
/// reading: callers state what holds for every value.
#[verifier::external_body]
pub(crate) fn now_unix_millis() -> (r: u128) {
    std::time::SystemTime::now()
        .duration_since(std::time::UNIX_EPOCH)
        .unwrap_or(std::time::Duration::ZERO)
        .as_millis()
}

/// `s` with its leading white space removed.
pub open spec fn skip_leading_space(s: Seq<char>) -> Seq<char>
    decreases s.len(),
{
    if s.len() == 0 {
        s
    } else if is_space(s.first()) {
        skip_leading_space(s.drop_first())
    } else {
        s
    }
}

/// The maximal run of non-white-space characters at the head of `s`.
pub open spec fn leading_word(s: Seq<char>) -> Seq<char>
    decreases s.len(),
{
    if s.len() == 0 || is_space(s.first()) {
        Seq::<char>::empty()
    } else {
        seq![s.first()] + leading_word(s.drop_first())
    }
}

/// `s` with its leading word removed.
pub open spec fn after_leading_word(s: Seq<char>) -> Seq<char>
    decreases s.len(),
{
    if s.len() == 0 || is_space(s.first()) {
        s
    } else {
        after_leading_word(s.drop_first())
    }
}

/// The first two whitespace-separated tokens of `s`, concatenated.
/// Missing tokens contribute nothing.
pub open spec fn first_two_tokens_joined(s: Seq<char>) -> Seq<char> {
    let tail1 = skip_leading_space(s);
    let rest = skip_leading_space(after_leading_word(tail1));
    leading_word(tail1) + leading_word(rest)
}

/// `s` clamped to its first 25 characters.
pub open spec fn clamp25(s: Seq<char>) -> Seq<char> {
    if s.len() <= 25 {
        s
    } else {
        s.subrange(0, 25)
    }
}

/// The username derived from the lowercased display name `low` at time `ts`
/// (milliseconds since the epoch): the first two tokens joined, then the
/// decimal digits of `ts`, clamped to at most 25 characters.
pub open spec fn derive_spec(low: Seq<char>, ts: nat) -> Seq<char> {
    clamp25(first_two_tokens_joined(low) + decimal_rep(ts))
}

/// `u` is the clamped decimal digits of some clock reading and nothing more.
pub open spec fn timestamp_only(u: Seq<char>) -> bool {
    exists|ts: nat| u == clamp25(decimal_rep(ts))
}

/// Some clock reading makes `u` the username derived from display name `name`.
pub open spec fn derived_from(u: Seq<char>, name: Seq<char>) -> bool {
    exists|ts: nat| u == derive_spec(lower_of(name), ts)
}

/// The first index at or after `i` holding a non-white-space character.
fn find_word_start(s: &str, i: usize) -> (r: usize)
    requires
        i <= s@.len(),
    ensures
        i <= r <= s@.len(),
        skip_leading_space(s@.skip(i as int)) == s@.skip(r as int),
    decreases s@.len() - i,
{
    if i < s.unicode_len() {
        let c = s.get_char(i);
        if is_space_char(c) {
            let r = find_word_start(s, i + 1);
            proof {
                assert(s@.skip(i as int).drop_first() =~= s@.skip(i + 1));
            }
            r
        } else {
            i
        }
    } else {
        proof {
            assert(s@.skip(i as int) =~= s@.skip(i as int));
        }
        i
    }
}

/// The first index at or after `i` holding white space (or the end).
fn find_word_end(s: &str, i: usize) -> (r: usize)
    requires
        i <= s@.len(),
    ensures
        i <= r <= s@.len(),
        leading_word(s@.skip(i as int)) == s@.subrange(i as int, r as int),
        after_leading_word(s@.skip(i as int)) == s@.skip(r as int),
    decreases s@.len() - i,
{
    if i < s.unicode_len() {
        let c = s.get_char(i);
        if !is_space_char(c) {
            let r = find_word_end(s, i + 1);
            proof {
                assert(s@.skip(i as int).drop_first() =~= s@.skip(i + 1));
                assert(seq![s@.skip(i as int).first()] + s@.subrange(i + 1, r as int) =~= s@.subrange(
                    i as int,
                    r as int,
                ));
            }
            r
        } else {
            proof {
                assert(s@.subrange(i as int, i as int) =~= Seq::<char>::empty());
            }
            i
        }
    } else {
        proof {
            assert(s@.subrange(i as int, i as int) =~= Seq::<char>::empty());
        }
        i
    }
}

/// Derives the username for `name` at time `now_ms`, exactly as
/// `derive_spec` describes it. A name that is empty or all white space
/// yields the timestamp digits alone, clamped.
pub fn derive_username(name: &str, now_ms: u128) -> (r: String)
    ensures
        r@ == derive_spec(lower_of(name@), now_ms as nat),
        all_space(name@) ==> r@ == clamp25(decimal_rep(now_ms as nat)),
{
    let low = lowercase(name);
    let lo = low.as_str();
    let len = lo.unicode_len();
    let a1 = find_word_start(lo, 0);
    let b1 = find_word_end(lo, a1);
    let a2 = find_word_start(lo, b1);
    let b2 = find_word_end(lo, a2);
    proof {
        assert(lo@.skip(0) =~= lo@);
    }
    let mut joined = String::from_str(lo.substring_char(a1, b1));
    joined.append(lo.substring_char(a2, b2));
    let digits = decimal_string(now_ms);
    joined.append(digits.as_str());
    proof {
        assert(joined@ == first_two_tokens_joined(lower_of(name@)) + decimal_rep(now_ms as nat));
    }
    proof {
        if all_space(name@) {
            lemma_derive_no_tokens(lower_of(name@), now_ms as nat);
        }
    }
    let jlen = joined.as_str().unicode_len();
    if jlen <= 25 {
        joined
    } else {
        String::from_str(joined.as_str().substring_char(0, 25))
    }
}

/// Law: a derived username has at least 1 and at most 25 characters,
/// whatever the display name and the clock reading.
pub proof fn lemma_derive_len(low: Seq<char>, ts: nat)
    ensures
        1 <= derive_spec(low, ts).len() <= 25,
{
    lemma_decimal_rep_nonempty(ts);
}

/// Law: a derived username begins with the first two whitespace-separated
/// tokens of the lowercased name, joined, up to the truncation boundary.
pub proof fn lemma_derive_prefix(low: Seq<char>, ts: nat)
    ensures
        forall|j: int|
            0 <= j < first_two_tokens_joined(low).len() && j < 25 ==> derive_spec(low, ts)[j]
                == first_two_tokens_joined(low)[j],
{
}

/// White space alone holds no token.
proof fn lemma_skip_all_space(s: Seq<char>)
    requires
        forall|j: int| 0 <= j < s.len() ==> is_space(s[j]),
    ensures
        skip_leading_space(s) == Seq::<char>::empty(),
    decreases s.len(),
{
    if s.len() > 0 {
        assert(is_space(s.first()));
        lemma_skip_all_space(s.drop_first());
    } else {
        assert(s =~= Seq::<char>::empty());
    }
}

/// Law: when the lowercased name is empty or all white space, the derived
/// username is exactly the timestamp digits, clamped to 25 characters.
pub proof fn lemma_derive_no_tokens(low: Seq<char>, ts: nat)
    requires
        all_space(low),
    ensures
        derive_spec(low, ts) == clamp25(decimal_rep(ts)),
{
    lemma_skip_all_space(low);
    assert(first_two_tokens_joined(low) =~= Seq::<char>::empty());
    assert(first_two_tokens_joined(low) + decimal_rep(ts) =~= decimal_rep(ts));
}

} // verus!
