//! Power-control decisions.
//!
//! Power actions (poweroff, reboot, suspend) are method calls on logind
//! over the system bus, performed by the surrounding program.  What the
//! library owns is the reply classification: a GTK cancellation surfacing
//! as an unmapped GError quark with code 19 is treated as success, every
//! other method error is reported.

use vstd::prelude::*;

verus! {

/// `needle` occurs contiguously somewhere in `s`.
pub open spec fn contains_seq(s: Seq<char>, needle: Seq<char>) -> bool {
    exists|i: int|
        0 <= i && i + needle.len() <= s.len() && #[trigger] s.subrange(i, i + needle.len())
            == needle
}

/// Whether `s` matches `needle` at position `at`.
fn matches_at(s: &str, needle: &str, at: usize) -> (r: bool)
    requires
        at + needle@.len() <= s@.len(),
    ensures
        r == (s@.subrange(at as int, at as int + needle@.len()) == needle@),
{
    let sn: usize = s.unicode_len();
    let m: usize = needle.unicode_len();
    let mut k: usize = 0;
    while k < m
        invariant
            0 <= k <= m,
            m == needle@.len(),
            sn == s@.len(),
            at + m <= sn,
            forall|q: int| 0 <= q < k ==> s@[at + q] == needle@[q],
        decreases m - k,
    {
        if s.get_char(at + k) != needle.get_char(k) {
            proof {
                assert(s@.subrange(at as int, at as int + m)[k as int] != needle@[k as int]);
            }
            return false;
        }
        k = k + 1;
    }
    proof {
        assert(s@.subrange(at as int, at as int + m as int) =~= needle@);
    }
    true
}

/// Whether `needle` occurs anywhere in `s`.
fn str_contains(s: &str, needle: &str) -> (r: bool)
    ensures
        r == contains_seq(s@, needle@),
{
    let n: usize = s.unicode_len();
    let m: usize = needle.unicode_len();
    if m > n {
        return false;
    }
    if m == 0 {
        proof {
            assert(s@.subrange(0, 0 + needle@.len() as int) =~= needle@);
            assert(contains_seq(s@, needle@));
        }
        return true;
    }
    let mut i: usize = 0;
    while i <= n - m
        invariant
            0 <= i <= n - m + 1,
            1 <= m <= n,
            n == s@.len(),
            m == needle@.len(),
            forall|q: int|
                0 <= q < i ==> #[trigger] s@.subrange(q, q + needle@.len()) != needle@,
        decreases n - i,
    {
        if matches_at(s, needle, i) {
            return true;
        }
        i = i + 1;
    }
    proof {
        assert(!contains_seq(s@, needle@)) by {
            if contains_seq(s@, needle@) {
                let w = choose|w: int|
                    0 <= w && w + needle@.len() <= s@.len() && #[trigger] s@.subrange(
                        w,
                        w + needle@.len(),
                    ) == needle@;
                assert(s@.subrange(w, w + needle@.len()) != needle@);
            }
        };
    }
    false
}

/// Whether a method error's name identifies the benign GTK cancellation
/// (`G_IO_ERROR_CANCELLED`, code 19) that a power request may answer with;
/// such a reply is treated as success rather than reported.
pub fn dbus_error_is_benign(name: &str) -> (r: bool)
    ensures
        r == (contains_seq(name@, "org.gtk.GDBus.UnmappedGError.Quark"@) && contains_seq(
            name@,
            ".Code19"@,
        )),
{
    str_contains(name, "org.gtk.GDBus.UnmappedGError.Quark") && str_contains(name, ".Code19")
}

} // verus!
