use vstd::prelude::*;
use vstd::string::StrSliceExecFns;
use vstd::string::StringExecFns;

verus! {

pub open spec fn is_digit(c: char) -> bool {
    '0' <= c && c <= '9'
}

pub open spec fn digit_value(c: char) -> nat {
    (c as nat - '0' as nat) as nat
}

pub open spec fn digit_char(d: nat) -> char {
    ((d + '0' as nat) as u8) as char
}

pub open spec fn all_digits(s: Seq<char>) -> bool {
    forall|i: int| 0 <= i < s.len() ==> is_digit(#[trigger] s[i])
}

/// The number written by a string of decimal digits.
pub open spec fn digits_value(s: Seq<char>) -> nat
    decreases s.len(),
{
    if s.len() == 0 {
        0
    } else {
        digits_value(s.drop_last()) * 10 + digit_value(s.last())
    }
}

/// `t` without its leading zeros.
pub open spec fn strip_zeros(t: Seq<char>) -> Seq<char>
    decreases t.len(),
{
    if t.len() > 0 && t[0] == '0' {
        strip_zeros(t.subrange(1, t.len() as int))
    } else {
        t
    }
}

/// The decimal digits `t` counted up by one, carrying from the right.
pub open spec fn inc_digits(t: Seq<char>) -> Seq<char>
    decreases t.len(),
{
    if t.len() == 0 {
        seq!['1']
    } else if t.last() == '9' {
        inc_digits(t.drop_last()) + seq!['0']
    } else {
        t.drop_last() + seq![digit_char(digit_value(t.last()) + 1)]
    }
}

pub open spec fn is_marker_at(s: Seq<char>, p: int) -> bool {
    0 <= p && p + 1 < s.len() && s[p] == ' ' && s[p + 1] == 'v'
}

/// Last position at or before `end` where the two characters `" v"` start.
pub open spec fn marker_at_or_before(s: Seq<char>, end: int) -> Option<int>
    decreases end + 1,
{
    if end < 0 {
        None
    } else if is_marker_at(s, end) {
        Some(end)
    } else {
        marker_at_or_before(s, end - 1)
    }
}

/// Last occurrence of `" v"` in `s`.
pub open spec fn last_marker(s: Seq<char>) -> Option<int> {
    marker_at_or_before(s, s.len() - 2)
}

/// Where the trailing `" v<digits>"` of `s` starts, if it has one.
pub open spec fn version_suffix(s: Seq<char>) -> Option<int> {
    match last_marker(s) {
        Some(p) => {
            let tail = s.subrange(p + 2, s.len() as int);
            if tail.len() > 0 && all_digits(tail) {
                Some(p)
            } else {
                None
            }
        },
        None => None,
    }
}

/// The name of a copy: a trailing `" v<N>"` becomes `" v<N+1>"`; any other
/// name gets `" v2"` appended.
pub open spec fn bumped_name(s: Seq<char>) -> Seq<char> {
    match version_suffix(s) {
        Some(p) => s.subrange(0, p) + seq![' ', 'v'] + inc_digits(
            strip_zeros(s.subrange(p + 2, s.len() as int)),
        ),
        None => s + seq![' ', 'v', '2'],
    }
}

fn digit_str(d: u64) -> (r: &'static str)
    requires
        d < 10,
    ensures
        r@ == seq![digit_char(d as nat)],
{
    proof {
        reveal_strlit("0");
        reveal_strlit("1");
        reveal_strlit("2");
        reveal_strlit("3");
        reveal_strlit("4");
        reveal_strlit("5");
        reveal_strlit("6");
        reveal_strlit("7");
        reveal_strlit("8");
        reveal_strlit("9");
    }
    let r = if d == 0 {
        "0"
    } else if d == 1 {
        "1"
    } else if d == 2 {
        "2"
    } else if d == 3 {
        "3"
    } else if d == 4 {
        "4"
    } else if d == 5 {
        "5"
    } else if d == 6 {
        "6"
    } else if d == 7 {
        "7"
    } else if d == 8 {
        "8"
    } else {
        "9"
    };
    assert(r@ =~= seq![digit_char(d as nat)]);
    r
}

/// Appends `inc_digits` of the characters `lo..hi` of `s`.
fn append_incremented(out: &mut String, s: &str, lo: usize, hi: usize)
    requires
        lo <= hi <= s@.len(),
        all_digits(s@.subrange(lo as int, hi as int)),
    ensures
        final(out)@ == old(out)@ + inc_digits(s@.subrange(lo as int, hi as int)),
    decreases hi - lo,
{
    let ghost t = s@.subrange(lo as int, hi as int);
    if hi == lo {
        out.append("1");
        proof {
            reveal_strlit("1");
        }
        assert(final(out)@ =~= old(out)@ + inc_digits(t));
        return;
    }
    assert(t.drop_last() =~= s@.subrange(lo as int, hi - 1));
    assert(t.last() == s@[hi - 1]);
    let c = s.get_char(hi - 1);
    proof {
        assert(is_digit(t[t.len() - 1]));
        assert(all_digits(s@.subrange(lo as int, hi - 1))) by {
            assert forall|i: int| 0 <= i < hi - 1 - lo implies is_digit(#[trigger] s@.subrange(lo as int, hi - 1)[i]) by {
                assert(s@.subrange(lo as int, hi - 1)[i] == t[i]);
            }
        }
    }
    if c == '9' {
        append_incremented(out, s, lo, hi - 1);
        out.append("0");
        proof {
            reveal_strlit("0");
        }
        assert(final(out)@ =~= old(out)@ + inc_digits(t));
    } else {
        out.append(s.substring_char(lo, hi - 1));
        let d = (c as u32 - '0' as u32) as u64;
        out.append(digit_str(d + 1));
        assert(final(out)@ =~= old(out)@ + inc_digits(t));
    }
}

/// Finds the last `" v"` in `s`.
fn find_last_marker(s: &str) -> (r: Option<usize>)
    ensures
        r matches Some(p) ==> last_marker(s@) == Some(p as int) && is_marker_at(s@, p as int),
        r is None ==> last_marker(s@) is None,
{
    let n = s.unicode_len();
    if n < 2 {
        return None;
    }
    let mut end: usize = n - 1;
    while end > 0
        invariant
            n == s@.len(),
            0 <= end < n,
            marker_at_or_before(s@, n - 2) == marker_at_or_before(s@, end as int - 1),
        decreases end,
    {
        let p = end - 1;
        if s.get_char(p) == ' ' && s.get_char(end) == 'v' {
            return Some(p);
        }
        end = p;
    }
    None
}

/// The name that a copy of a preset named `name` receives.
pub fn bump_version_name(name: &str) -> (r: String)
    ensures
        r@ == bumped_name(name@),
{
    let n = name.unicode_len();
    match find_last_marker(name) {
        Some(p) => {
            let start = p + 2;
            let ghost tail = name@.subrange(start as int, n as int);
            let mut k: usize = start;
            let mut digits = start < n;
            while k < n
                invariant
                    start <= k <= n,
                    n == name@.len(),
                    tail == name@.subrange(start as int, n as int),
                    digits ==> start < n,
                    digits ==> forall|i: int| start <= i < k ==> is_digit(#[trigger] name@[i]),
                    !digits ==> !(tail.len() > 0 && all_digits(tail)),
                decreases n - k,
            {
                let c = name.get_char(k);
                if !('0' <= c && c <= '9') && digits {
                    assert(!is_digit(tail[k - start]));
                    digits = false;
                }
                k = k + 1;
            }
            if digits {
                assert(all_digits(tail)) by {
                    assert forall|i: int| 0 <= i < tail.len() implies is_digit(#[trigger] tail[i]) by {
                        assert(tail[i] == name@[start + i]);
                    }
                }
                let mut z: usize = start;
                while z < n && name.get_char(z) == '0'
                    invariant
                        start <= z <= n,
                        n == name@.len(),
                        tail == name@.subrange(start as int, n as int),
                        all_digits(tail),
                        strip_zeros(tail) == strip_zeros(name@.subrange(z as int, n as int)),
                    decreases n - z,
                {
                    assert(name@.subrange(z as int, n as int).subrange(1, (n - z) as int) =~= name@.subrange(
                        z + 1,
                        n as int,
                    ));
                    z = z + 1;
                }
                assert(strip_zeros(name@.subrange(z as int, n as int)) == name@.subrange(z as int, n as int));
                assert(all_digits(name@.subrange(z as int, n as int))) by {
                    assert forall|i: int| 0 <= i < n - z implies is_digit(#[trigger] name@.subrange(z as int, n as int)[i]) by {
                        assert(name@.subrange(z as int, n as int)[i] == tail[z - start + i]);
                    }
                }
                let mut out = String::from_str(name.substring_char(0, p));
                out.append(" v");
                proof {
                    reveal_strlit(" v");
                }
                append_incremented(&mut out, name, z, n);
                assert(version_suffix(name@) == Some(p as int));
                assert(out@ =~= bumped_name(name@));
                return out;
            }
        },
        None => {},
    }
    let mut out = String::from_str(name);
    out.append(" v2");
    proof {
        reveal_strlit(" v2");
    }
    out
}

/// Copying a name that carries no version suffix twice numbers it 2, then 3.
pub proof fn lemma_bump_twice(x: Seq<char>)
    requires
        version_suffix(x) is None,
    ensures
        bumped_name(x) == x + seq![' ', 'v', '2'],
        bumped_name(bumped_name(x)) == x + seq![' ', 'v', '3'],
{
    let y = x + seq![' ', 'v', '2'];
    let n = x.len() as int;
    assert(y[n] == ' ' && y[n + 1] == 'v' && y[n + 2] == '2');
    assert(is_marker_at(y, n));
    assert(marker_at_or_before(y, n) == Some(n));
    assert(!is_marker_at(y, n + 1));
    assert(marker_at_or_before(y, n + 1) == Some(n));
    let two = seq!['2'];
    assert(y.subrange(n + 2, y.len() as int) =~= two);
    assert(all_digits(two));
    assert(version_suffix(y) == Some(n));
    assert(strip_zeros(two) == two);
    assert(two.drop_last() =~= Seq::<char>::empty());
    assert(digit_value('2') == 2);
    assert(digit_char(3) == '3');
    assert(inc_digits(two) =~= seq!['3']);
    assert(y.subrange(0, n) =~= x);
    assert(bumped_name(y) =~= x + seq![' ', 'v', '3']);
}

/// Counting up digits gives the next number.
pub proof fn lemma_inc_digits_value(t: Seq<char>)
    requires
        all_digits(t),
    ensures
        all_digits(inc_digits(t)),
        digits_value(inc_digits(t)) == digits_value(t) + 1,
    decreases t.len(),
{
    if t.len() > 0 {
        let u = t.drop_last();
        assert(all_digits(u)) by {
            assert forall|i: int| 0 <= i < u.len() implies is_digit(#[trigger] u[i]) by {
                assert(u[i] == t[i]);
            }
        }
        assert(is_digit(t[t.len() - 1]));
        if t.last() == '9' {
            lemma_inc_digits_value(u);
            let r = inc_digits(u) + seq!['0'];
            assert(r.drop_last() =~= inc_digits(u));
            assert(r.last() == '0');
            assert(digit_value('0') == 0);
            assert(digit_value('9') == 9);
            assert(digits_value(r) == digits_value(inc_digits(u)) * 10 + 0);
            assert(digits_value(t) == digits_value(u) * 10 + 9);
            assert(all_digits(r)) by {
                assert forall|i: int| 0 <= i < r.len() implies is_digit(#[trigger] r[i]) by {
                    if i < r.len() - 1 {
                        assert(r[i] == inc_digits(u)[i]);
                    }
                }
            }
        } else {
            let d = digit_value(t.last());
            assert(d < 9);
            let c = digit_char(d + 1);
            assert(digit_value(c) == d + 1);
            let r = u + seq![c];
            assert(r.drop_last() =~= u);
            assert(r.last() == c);
            assert(digits_value(r) == digits_value(u) * 10 + d + 1);
            assert(digits_value(t) == digits_value(u) * 10 + d);
            assert(all_digits(r)) by {
                assert forall|i: int| 0 <= i < r.len() implies is_digit(#[trigger] r[i]) by {
                    if i < r.len() - 1 {
                        assert(r[i] == u[i]);
                    }
                }
            }
        }
    } else {
        assert(seq!['1'].drop_last() =~= Seq::<char>::empty());
        assert(digit_value('1') == 1);
        assert(digits_value(Seq::<char>::empty()) == 0);
        assert(seq!['1'].last() == '1');
        assert(digits_value(seq!['1']) == 1);
        assert(all_digits(seq!['1']));
    }
}


proof fn lemma_leading_zero_value(u: Seq<char>)
    ensures
        digits_value(seq!['0'] + u) == digits_value(u),
    decreases u.len(),
{
    let w = seq!['0'] + u;
    if u.len() == 0 {
        assert(w.drop_last() =~= Seq::<char>::empty());
        assert(digit_value('0') == 0);
        assert(w.last() == '0');
        assert(digits_value(Seq::<char>::empty()) == 0);
        assert(digits_value(w) == digits_value(w.drop_last()) * 10 + digit_value(w.last()));
        assert(u =~= Seq::<char>::empty());
    } else {
        lemma_leading_zero_value(u.drop_last());
        assert(w.drop_last() =~= seq!['0'] + u.drop_last());
        assert(w.last() == u.last());
        assert(digits_value(w) == digits_value(w.drop_last()) * 10 + digit_value(w.last()));
        assert(digits_value(u) == digits_value(u.drop_last()) * 10 + digit_value(u.last()));
    }
}

proof fn lemma_strip_zeros_value(t: Seq<char>)
    ensures
        digits_value(strip_zeros(t)) == digits_value(t),
    decreases t.len(),
{
    if t.len() > 0 && t[0] == '0' {
        let u = t.subrange(1, t.len() as int);
        lemma_strip_zeros_value(u);
        lemma_leading_zero_value(u);
        assert(seq!['0'] + u =~= t);
    }
}

/// The number at the end of a copy's name is the number at the end of the
/// original name plus one.
pub proof fn lemma_bumped_number(s: Seq<char>)
    requires
        version_suffix(s) is Some,
    ensures
        ({
            let p = version_suffix(s).unwrap();
            let tail = s.subrange(p + 2, s.len() as int);
            let new_tail = inc_digits(strip_zeros(tail));
            &&& bumped_name(s) == s.subrange(0, p) + seq![' ', 'v'] + new_tail
            &&& digits_value(new_tail) == digits_value(tail) + 1
        }),
{
    let p = version_suffix(s).unwrap();
    let tail = s.subrange(p + 2, s.len() as int);
    lemma_strip_zeros_value(tail);
    lemma_strip_digits(tail);
    lemma_inc_digits_value(strip_zeros(tail));
}

proof fn lemma_strip_digits(t: Seq<char>)
    requires
        all_digits(t),
    ensures
        all_digits(strip_zeros(t)),
    decreases t.len(),
{
    if t.len() > 0 && t[0] == '0' {
        let u = t.subrange(1, t.len() as int);
        assert(all_digits(u)) by {
            assert forall|i: int| 0 <= i < u.len() implies is_digit(#[trigger] u[i]) by {
                assert(u[i] == t[i + 1]);
            }
        }
        lemma_strip_digits(u);
    }
}

} // verus!
