//! Output naming and window labels.
//!
//! Outputs are matched against the configured priority list purely by a
//! display name.  The compositor-reported name is used when present; absent
//! metadata degrades to a synthesized decimal id or, failing that, to a
//! random alphanumeric token, so name resolution can never fail or panic.
//! Window labels are derived from the output identity with every
//! non-alphanumeric character stripped, because the UI layer only accepts
//! protocol-safe identifiers.

use rand::Rng;
use vstd::prelude::*;

verus! {

/// An ASCII letter or digit.
pub open spec fn is_ascii_alnum(c: char) -> bool {
    ||| 48 <= (c as u32) && (c as u32) <= 57
    ||| 65 <= (c as u32) && (c as u32) <= 90
    ||| 97 <= (c as u32) && (c as u32) <= 122
}

fn is_ascii_alnum_char(c: char) -> (b: bool)
    ensures
        b == is_ascii_alnum(c),
{
    let u = c as u32;
    (48 <= u && u <= 57) || (65 <= u && u <= 90) || (97 <= u && u <= 122)
}

/// The character for one decimal digit.
pub open spec fn decimal_digit(d: nat) -> char {
    if d == 0 { '0' } else if d == 1 { '1' } else if d == 2 { '2' } else if d == 3 { '3' }
    else if d == 4 { '4' } else if d == 5 { '5' } else if d == 6 { '6' } else if d == 7 { '7' }
    else if d == 8 { '8' } else { '9' }
}

/// Decimal rendering of `n`, most significant digit first.
pub open spec fn spec_decimal(n: nat) -> Seq<char>
    decreases n,
{
    if n < 10 {
        seq![decimal_digit(n)]
    } else {
        spec_decimal(n / 10).push(decimal_digit(n % 10))
    }
}

/// A sequence of ASCII bytes read as characters.
pub open spec fn chars_of_bytes(s: Seq<u8>) -> Seq<char> {
    s.map_values(|b: u8| b as char)
}

/// Relies on `String::from_utf8`: ASCII bytes are valid UTF-8 and decode to
/// one character per byte.
#[verifier::external_body]
fn string_from_ascii(bytes: Vec<u8>) -> (r: String)
    requires
        forall|i: int| 0 <= i < bytes@.len() ==> bytes@[i] < 128,
    ensures
        r@ == chars_of_bytes(bytes@),
{
    match String::from_utf8(bytes) {
        Ok(s) => s,
        Err(_) => String::new(),
    }
}

/// Relies on `rand`'s `Alphanumeric` distribution: every sampled byte is an
/// ASCII letter or digit; the token's length is fixed by `take`.
#[verifier::external_body]
pub fn rand_string() -> (r: String)
    ensures
        r@.len() == 32,
        forall|i: int| 0 <= i < r@.len() ==> is_ascii_alnum(#[trigger] r@[i]),
{
    rand::thread_rng()
        .sample_iter(&rand::distributions::Alphanumeric)
        .take(32)
        .map(char::from)
        .collect()
}

/// Render `n` in decimal.
pub fn u32_to_decimal(n: u32) -> (r: String)
    ensures
        r@ == spec_decimal(n as nat),
{
    let mut digits: Vec<u8> = Vec::new();
    let mut m: u32 = n;
    proof {
        assert(spec_decimal(n as nat) =~= spec_decimal(n as nat) + chars_of_bytes(digits@));
    }
    while m >= 10
        invariant
            forall|i: int| 0 <= i < digits@.len() ==> digits@[i] < 128,
            spec_decimal(n as nat) == spec_decimal(m as nat) + chars_of_bytes(digits@),
        decreases m,
    {
        let d: u8 = (m % 10) as u8;
        let ghost old_digits = digits@;
        let ghost old_m = m as nat;
        digits.insert(0, d + 48);
        m = m / 10;
        proof {
            assert(chars_of_bytes(old_digits.insert(0, (d + 48) as u8))
                =~= seq![((d + 48) as u8) as char] + chars_of_bytes(old_digits));
            assert(((d + 48) as u8) as char == decimal_digit(old_m % 10));
            assert(spec_decimal(old_m) == spec_decimal(old_m / 10).push(decimal_digit(old_m % 10)));
            assert(spec_decimal(old_m / 10).push(decimal_digit(old_m % 10))
                =~= spec_decimal(old_m / 10) + seq![decimal_digit(old_m % 10)]);
            assert(spec_decimal(n as nat)
                =~= spec_decimal(m as nat) + chars_of_bytes(digits@));
        }
    }
    let ghost old_digits = digits@;
    let ghost final_m = m as nat;
    let d: u8 = m as u8;
    digits.insert(0, d + 48);
    proof {
        assert(chars_of_bytes(old_digits.insert(0, (d + 48) as u8))
            =~= seq![((d + 48) as u8) as char] + chars_of_bytes(old_digits));
        assert(((d + 48) as u8) as char == decimal_digit(final_m));
        assert(spec_decimal(final_m) =~= seq![decimal_digit(final_m)]);
        assert(spec_decimal(n as nat) =~= chars_of_bytes(digits@));
    }
    string_from_ascii(digits)
}

/// Resolve the display name for an output, per the degradation ladder:
/// the compositor-reported name when present, else the decimal object id
/// when the output's metadata was available, else a random 32-character
/// alphanumeric token.
pub fn resolve_name(reported: Option<String>, id: Option<u32>) -> (r: String)
    ensures
        match reported {
            Some(n) => r == n,
            None => match id {
                Some(i) => r@ == spec_decimal(i as nat),
                None => r@.len() == 32 && forall|k: int|
                    0 <= k < r@.len() ==> is_ascii_alnum(#[trigger] r@[k]),
            },
        },
{
    match reported {
        Some(n) => n,
        None => match id {
            Some(i) => u32_to_decimal(i),
            None => rand_string(),
        },
    }
}

/// `s` with every non-alphanumeric character stripped.
pub open spec fn alnum_only(s: Seq<char>) -> Seq<char> {
    s.filter(|c: char| is_ascii_alnum(c))
}

/// Label for the UI window covering an output: `lock-` followed by the
/// output identity with every non-alphanumeric character stripped.
pub fn get_output_window_label(identity: &str) -> (r: String)
    ensures
        r@ == "lock-"@ + alnum_only(identity@),
{
    let n: usize = identity.unicode_len();
    let mut kept: Vec<u8> = Vec::new();
    let mut i: usize = 0;
    proof {
        reveal(Seq::filter);
        assert(chars_of_bytes(kept@) =~= alnum_only(identity@.subrange(0, 0)));
    }
    while i < n
        invariant
            0 <= i <= n,
            n == identity@.len(),
            forall|k: int| 0 <= k < kept@.len() ==> kept@[k] < 128,
            chars_of_bytes(kept@) == alnum_only(identity@.subrange(0, i as int)),
        decreases n - i,
    {
        let c: char = identity.get_char(i);
        let ghost prefix = identity@.subrange(0, i as int);
        proof {
            reveal(Seq::filter);
            let s2 = prefix.push(identity@[i as int]);
            assert(identity@.subrange(0, i + 1) =~= s2);
            assert(s2.drop_last() =~= prefix);
            assert(s2.last() == c);
            assert(alnum_only(s2) == if is_ascii_alnum(c) {
                alnum_only(prefix).push(c)
            } else {
                alnum_only(prefix)
            });
        }
        if is_ascii_alnum_char(c) {
            let ghost old_kept = kept@;
            kept.push(c as u8);
            proof {
                assert((c as u8) as char == c);
                assert(chars_of_bytes(old_kept.push(c as u8))
                    =~= chars_of_bytes(old_kept).push((c as u8) as char));
            }
        }
        i = i + 1;
    }
    let tail = string_from_ascii(kept);
    let mut r = String::new();
    r.append("lock-");
    r.append(tail.as_str());
    proof {
        assert(identity@.subrange(0, n as int) =~= identity@);
    }
    r
}

} // verus!
