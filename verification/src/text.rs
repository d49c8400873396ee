//! Plain-text groundwork: substring search over `&str` with exact
//! first-occurrence contracts, and decimal rendering of integers, both used
//! by the URL builders and the result classifier.

use vstd::prelude::*;

verus! {

/// The pattern `p` occurs in `t` starting at position `i`.
pub open spec fn match_at(t: Seq<char>, p: Seq<char>, i: int) -> bool {
    &&& 0 <= i
    &&& i + p.len() <= t.len()
    &&& t.subrange(i, i + p.len() as int) == p
}

/// The pattern `p` occurs somewhere in `t`.
pub open spec fn contains_seq(t: Seq<char>, p: Seq<char>) -> bool {
    exists|i: int| match_at(t, p, i)
}

/// The pattern `p` occurs in `t` at some position at or after `from`.
pub open spec fn has_match_from(t: Seq<char>, p: Seq<char>, from: int) -> bool {
    exists|i: int| from <= i && match_at(t, p, i)
}

/// `i` is the first position at or after `from` where `p` occurs in `t`.
pub open spec fn is_first_match_from(t: Seq<char>, p: Seq<char>, from: int, i: int) -> bool {
    &&& from <= i
    &&& match_at(t, p, i)
    &&& forall|j: int| from <= j < i ==> !match_at(t, p, j)
}

/// The first position at or after `from` where `p` occurs in `t`; meaningful
/// only when `has_match_from(t, p, from)` holds.
pub open spec fn first_match_from(t: Seq<char>, p: Seq<char>, from: int) -> int {
    choose|i: int| is_first_match_from(t, p, from, i)
}

/// The first occurrence position is unique, so any position shown to be a
/// first match equals `first_match_from`.
pub proof fn lemma_first_match_unique(t: Seq<char>, p: Seq<char>, from: int, i: int)
    requires
        is_first_match_from(t, p, from, i),
    ensures
        has_match_from(t, p, from),
        first_match_from(t, p, from) == i,
{
    assert(has_match_from(t, p, from));
    let i2 = first_match_from(t, p, from);
    assert(is_first_match_from(t, p, from, i2));
    if i2 < i {
        assert(!match_at(t, p, i2));
    } else if i < i2 {
        assert(!match_at(t, p, i));
    }
}

/// Finds the first occurrence of `p` in `t` at or after character position
/// `from`, returning its character index.
pub fn find_from(t: &str, p: &str, from: usize) -> (r: Option<usize>)
    ensures
        match r {
            Some(i) => is_first_match_from(t@, p@, from as int, i as int),
            None => !has_match_from(t@, p@, from as int),
        },
{
    let tl = t.unicode_len();
    let pl = p.unicode_len();
    if from > tl || pl > tl - from {
        assert(forall|j: int| from <= j ==> !match_at(t@, p@, j));
        return None;
    }
    let mut i: usize = from;
    loop
        invariant
            from <= i <= tl - pl,
            tl == t@.len(),
            pl == p@.len(),
            pl <= tl,
            forall|j: int| from <= j < i ==> !match_at(t@, p@, j),
        decreases tl - pl - i,
    {
        let mut k: usize = 0;
        let mut mismatch = false;
        while k < pl
            invariant
                0 <= k <= pl,
                i + pl <= tl,
                tl == t@.len(),
                pl == p@.len(),
                !mismatch ==> forall|m: int| 0 <= m < k ==> t@[i + m] == p@[m],
                mismatch ==> exists|m: int| 0 <= m < p@.len() && t@[i + m] != p@[m],
            decreases pl - k,
        {
            if t.get_char(i + k) != p.get_char(k) {
                mismatch = true;
                k = pl;
            } else {
                k = k + 1;
            }
        }
        if !mismatch {
            proof {
                assert(t@.subrange(i as int, i + p@.len() as int) =~= p@);
                assert(match_at(t@, p@, i as int));
            }
            return Some(i);
        }
        proof {
            let m = choose|m: int| 0 <= m < p@.len() && t@[i + m] != p@[m];
            assert(t@.subrange(i as int, i + p@.len() as int)[m] == t@[i + m]);
            assert(!match_at(t@, p@, i as int));
        }
        if i == tl - pl {
            assert(forall|j: int| from <= j ==> !match_at(t@, p@, j));
            return None;
        }
        i = i + 1;
    }
}

/// Whether `t` contains `p` anywhere.
pub fn contains_sub(t: &str, p: &str) -> (r: bool)
    ensures
        r == contains_seq(t@, p@),
{
    let r = find_from(t, p, 0);
    proof {
        if r is Some {
            assert(contains_seq(t@, p@));
        } else {
            assert(forall|i: int| match_at(t@, p@, i) ==> 0 <= i && !match_at(t@, p@, i));
        }
    }
    r.is_some()
}

/// The character for one decimal digit.
pub open spec fn digit_char(d: int) -> char {
    if d == 0 {
        '0'
    } else if d == 1 {
        '1'
    } else if d == 2 {
        '2'
    } else if d == 3 {
        '3'
    } else if d == 4 {
        '4'
    } else if d == 5 {
        '5'
    } else if d == 6 {
        '6'
    } else if d == 7 {
        '7'
    } else if d == 8 {
        '8'
    } else {
        '9'
    }
}

/// The decimal rendering of a nonnegative integer, most significant digit
/// first, with no leading zeros (a single `'0'` for zero).
pub open spec fn dec_spec(n: int) -> Seq<char>
    decreases n,
{
    if n < 10 {
        seq![digit_char(n)]
    } else {
        dec_spec(n / 10).push(digit_char(n % 10))
    }
}

/// The decimal rendering of `n` left-padded with `'0'` to 10 characters, as
/// the legacy result-page template requires.
pub open spec fn pad10_spec(n: int) -> Seq<char> {
    let d = dec_spec(n);
    if d.len() >= 10 {
        d
    } else {
        Seq::new((10 - d.len()) as nat, |j: int| '0') + d
    }
}

fn digit_str(d: u64) -> (r: &'static str)
    requires
        d < 10,
    ensures
        r@ == seq![digit_char(d as int)],
{
    proof {
        reveal_strlit("0");
        reveal_strlit("1");
        reveal_strlit("2");
        reveal_strlit("3");
        reveal_strlit("4");
        reveal_strlit("5");
        reveal_strlit("6");
        reveal_strlit("7");
        reveal_strlit("8");
        reveal_strlit("9");
    }
    let r = if d == 0 {
        "0"
    } else if d == 1 {
        "1"
    } else if d == 2 {
        "2"
    } else if d == 3 {
        "3"
    } else if d == 4 {
        "4"
    } else if d == 5 {
        "5"
    } else if d == 6 {
        "6"
    } else if d == 7 {
        "7"
    } else if d == 8 {
        "8"
    } else {
        "9"
    };
    proof {
        assert(r@ =~= seq![digit_char(d as int)]);
    }
    r
}

/// Renders `n` in decimal.
pub fn u64_to_dec(n: u64) -> (s: String)
    ensures
        s@ == dec_spec(n as int),
    decreases n,
{
    if n < 10 {
        String::from_str(digit_str(n))
    } else {
        let mut s = u64_to_dec(n / 10);
        s.append(digit_str(n % 10));
        proof {
            assert(s@ =~= dec_spec(n as int));
        }
        s
    }
}

/// Renders `n` in decimal, left-padded with zeros to 10 characters.
pub fn u64_to_dec_pad10(n: u64) -> (s: String)
    ensures
        s@ == pad10_spec(n as int),
{
    let d = u64_to_dec(n);
    let dl = d.as_str().unicode_len();
    if dl >= 10 {
        return d;
    }
    let mut s = String::new();
    let mut j: usize = 0;
    while j < 10 - dl
        invariant
            dl == dec_spec(n as int).len(),
            dl < 10,
            0 <= j <= 10 - dl,
            s@ =~= Seq::new(j as nat, |m: int| '0'),
        decreases 10 - dl - j,
    {
        proof {
            reveal_strlit("0");
        }
        s.append("0");
        proof {
            assert(s@ =~= Seq::new((j + 1) as nat, |m: int| '0'));
        }
        j = j + 1;
    }
    s.append(d.as_str());
    proof {
        assert(s@ =~= pad10_spec(n as int));
    }
    s
}

} // verus!
