//! Input validation: a substring blacklist that blocks destructive SQL
//! keywords ("drop", "delete", "insert", "update") in any letter case.
//!
//! The policy is deliberately a blunt, case-insensitive substring match on
//! the whole input, not a SQL parser; the keywords are ASCII, so folding is
//! ASCII case folding.

use vstd::prelude::*;

verus! {

/// ASCII lower-casing of one character: maps 'A'..='Z' to 'a'..='z' and
/// leaves every other character unchanged.
pub open spec fn ascii_lower(c: char) -> char {
    if 'A' <= c && c <= 'Z' {
        ((c as u32) + 32) as char
    } else {
        c
    }
}

/// A sequence of characters, ASCII-lower-cased pointwise.
pub open spec fn lower_seq(s: Seq<char>) -> Seq<char> {
    s.map_values(|c: char| ascii_lower(c))
}

/// `w` occurs in `s` starting at position `i`.
pub open spec fn contains_at(s: Seq<char>, w: Seq<char>, i: int) -> bool {
    0 <= i && i + w.len() <= s.len() && s.subrange(i, i + w.len() as int) == w
}

/// `w` occurs somewhere in `s` as a contiguous substring.
pub open spec fn contains_sub(s: Seq<char>, w: Seq<char>) -> bool {
    exists|i: int| contains_at(s, w, i)
}

/// The blacklisted keywords, in lower case.
pub open spec fn keywords() -> Seq<Seq<char>> {
    seq![
        seq!['d', 'r', 'o', 'p'],
        seq!['d', 'e', 'l', 'e', 't', 'e'],
        seq!['i', 'n', 's', 'e', 'r', 't'],
        seq!['u', 'p', 'd', 'a', 't', 'e'],
    ]
}

/// The input contains some blacklisted keyword, in any letter case, at any
/// position: its lower-cased text has one of the keywords as a substring.
pub open spec fn blacklisted(s: Seq<char>) -> bool {
    exists|k: int| 0 <= k < keywords().len() && contains_sub(lower_seq(s), keywords()[k])
}

/// One case-insensitive character comparison: `c` matches the lower-case
/// ASCII letter `k` exactly when `c` lower-cases to `k`.
fn char_matches(c: char, k: char) -> (r: bool)
    requires
        97 <= k as u32 <= 122,
    ensures
        r == (ascii_lower(c) == k),
{
    let cu = c as u32;
    let ku = k as u32;
    cu == ku || cu + 32 == ku
}

/// The keyword `kw` (lower-case ASCII) occurs at position `i` of the
/// lower-cased text of `s`.
fn keyword_at(s: &str, i: usize, kw: &str) -> (r: bool)
    requires
        forall|j: int| 0 <= j < kw@.len() ==> 97 <= #[trigger] (kw@[j] as u32) <= 122,
        i + kw@.len() <= s@.len(),
        s@.len() <= usize::MAX,
        kw@.len() <= usize::MAX,
    ensures
        r == contains_at(lower_seq(s@), kw@, i as int),
{
    let klen = kw.unicode_len();
    let mut j: usize = 0;
    while j < klen
        invariant
            0 <= j <= klen,
            klen == kw@.len(),
            i + klen <= s@.len(),
            s@.len() <= usize::MAX,
            forall|j: int| 0 <= j < kw@.len() ==> 97 <= #[trigger] (kw@[j] as u32) <= 122,
            forall|t: int| 0 <= t < j ==> ascii_lower(s@[i + t]) == kw@[t],
        decreases klen - j,
    {
        if !char_matches(s.get_char(i + j), kw.get_char(j)) {
            proof {
                assert(lower_seq(s@)[i + j] == ascii_lower(s@[i + j]));
                assert(lower_seq(s@).subrange(i as int, i + kw@.len()) != kw@) by {
                    let sub = lower_seq(s@).subrange(i as int, i + kw@.len());
                    assert(sub[j as int] == ascii_lower(s@[i + j]));
                }
            }
            return false;
        }
        j += 1;
    }
    proof {
        assert(lower_seq(s@).subrange(i as int, i + kw@.len()) =~= kw@) by {
            let sub = lower_seq(s@).subrange(i as int, i + kw@.len());
            assert(forall|t: int|
                0 <= t < kw@.len() ==> #[trigger] sub[t] == ascii_lower(s@[i + t]));
        }
    }
    true
}

/// The keyword `kw` (lower-case ASCII) occurs somewhere in the lower-cased
/// text of `s`.
fn contains_keyword(s: &str, kw: &str) -> (r: bool)
    requires
        forall|j: int| 0 <= j < kw@.len() ==> 97 <= #[trigger] (kw@[j] as u32) <= 122,
        kw@.len() >= 1,
    ensures
        r == contains_sub(lower_seq(s@), kw@),
{
    let n = s.unicode_len();
    let k = kw.unicode_len();
    if k > n {
        proof {
            assert(forall|i: int| !contains_at(lower_seq(s@), kw@, i));
        }
        return false;
    }
    let mut i: usize = 0;
    loop
        invariant
            0 <= i <= n - k + 1,
            n == s@.len(),
            k == kw@.len(),
            1 <= k <= n,
            n <= usize::MAX,
            forall|j: int| 0 <= j < kw@.len() ==> 97 <= #[trigger] (kw@[j] as u32) <= 122,
            forall|t: int| 0 <= t < i ==> !contains_at(lower_seq(s@), kw@, t),
        decreases n - k + 1 - i,
    {
        if i > n - k {
            proof {
                assert(forall|t: int| contains_at(lower_seq(s@), kw@, t) ==> 0 <= t <= n - k);
            }
            return false;
        }
        if keyword_at(s, i, kw) {
            return true;
        }
        i += 1;
    }
}

/// Accepts the input exactly when its lower-cased text contains none of the
/// blacklisted keywords "drop", "delete", "insert", "update" as a substring.
///
/// This is the whole law of the validator: for every string that contains a
/// keyword in any letter case at any position the result is `false`, and for
/// every string that contains none of them it is `true`.
pub fn validate_input(input: &str) -> (ok: bool)
    ensures
        ok == !blacklisted(input@),
{
    proof {
        reveal_strlit("drop");
        reveal_strlit("delete");
        reveal_strlit("insert");
        reveal_strlit("update");
        assert("drop"@ =~= keywords()[0]);
        assert("delete"@ =~= keywords()[1]);
        assert("insert"@ =~= keywords()[2]);
        assert("update"@ =~= keywords()[3]);
    }
    let blocked = contains_keyword(input, "drop") || contains_keyword(input, "delete")
        || contains_keyword(input, "insert") || contains_keyword(input, "update");
    proof {
        if blocked {
            assert(blacklisted(input@)) by {
                if contains_sub(lower_seq(input@), "drop"@) {
                    assert(contains_sub(lower_seq(input@), keywords()[0]));
                } else if contains_sub(lower_seq(input@), "delete"@) {
                    assert(contains_sub(lower_seq(input@), keywords()[1]));
                } else if contains_sub(lower_seq(input@), "insert"@) {
                    assert(contains_sub(lower_seq(input@), keywords()[2]));
                } else {
                    assert(contains_sub(lower_seq(input@), keywords()[3]));
                }
            }
        } else {
            assert(!blacklisted(input@)) by {
                assert(forall|k: int| 0 <= k < keywords().len()
                    ==> !contains_sub(lower_seq(input@), #[trigger] keywords()[k])) by {
                    assert(keywords().len() == 4);
                }
            }
        }
    }
    !blocked
}

} // verus!
