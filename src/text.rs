//! Text helpers shared by the filter, the configuration and the supervisor.

use vstd::prelude::*;

verus! {

/// Whether std classifies `c` as white space (the Unicode `White_Space` property).
pub uninterp spec fn white_space(c: char) -> bool;

/// Relies on `char::is_whitespace`: the answer depends on the character alone.
#[verifier::external_body]
fn is_space(c: char) -> (r: bool)
    ensures
        r == white_space(c),
{
    c.is_whitespace()
}

/// Character-wise equality of two strings.
pub fn same_text(a: &str, b: &str) -> (r: bool)
    ensures
        r == (a@ == b@),
{
    let n = a.unicode_len();
    if n != b.unicode_len() {
        return false;
    }
    let mut i: usize = 0;
    while i < n
        invariant
            n == a@.len(),
            n == b@.len(),
            i <= n,
            forall|j: int| 0 <= j < i ==> a@[j] == b@[j],
        decreases n - i,
    {
        if a.get_char(i) != b.get_char(i) {
            return false;
        }
        i = i + 1;
    }
    assert(a@ =~= b@);
    true
}


/// The white-space separated words of `s`, in order: the maximal runs of
/// characters that are not white space.
pub open spec fn words(s: Seq<char>) -> Seq<Seq<char>>
    decreases s.len(),
{
    if s.len() == 0 {
        seq![]
    } else {
        let w = words(s.drop_last());
        let c = s.last();
        if white_space(c) {
            w
        } else if s.len() >= 2 && !white_space(s[s.len() - 2]) && w.len() > 0 {
            w.drop_last().push(w.last().push(c))
        } else {
            w.push(seq![c])
        }
    }
}

proof fn lemma_words_step(s: Seq<char>, i: int)
    requires
        0 <= i < s.len(),
    ensures
        words(s.subrange(0, i + 1)) == ({
            let w = words(s.subrange(0, i));
            let c = s[i];
            if white_space(c) {
                w
            } else if i >= 1 && !white_space(s[i - 1]) && w.len() > 0 {
                w.drop_last().push(w.last().push(c))
            } else {
                w.push(seq![c])
            }
        }),
{
    assert(s.subrange(0, i + 1).drop_last() =~= s.subrange(0, i));
}

/// Splits `s` into its white-space separated words.
pub fn split_words(s: &str) -> (r: Vec<String>)
    ensures
        r@.map_values(|w: String| w@) == words(s@),
{
    let n = s.unicode_len();
    let mut out: Vec<String> = Vec::new();
    let mut start: usize = 0;
    let mut inside: bool = false;
    let mut i: usize = 0;
    while i < n
        invariant
            n == s@.len(),
            i <= n,
            start <= i,
            inside ==> i > 0 && !white_space(s@[i - 1]),
            !inside ==> (i == 0 || white_space(s@[i - 1])),
            inside ==> forall|j: int| start <= j < i ==> !white_space(#[trigger] s@[j]),
            inside ==> start < i,
            !inside ==> out@.map_values(|w: String| w@) == words(s@.subrange(0, i as int)),
            inside ==> out@.map_values(|w: String| w@).push(s@.subrange(start as int, i as int))
                == words(s@.subrange(0, i as int)),
        decreases n - i,
    {
        let c = s.get_char(i);
        proof {
            lemma_words_step(s@, i as int);
        }
        if is_space(c) {
            if inside {
                let ghost before = out@;
                let w = s.substring_char(start, i).to_owned();
                out.push(w);
                proof {
                    assert(out@.map_values(|w: String| w@) =~= before.map_values(|w: String| w@).push(s@.subrange(start as int, i as int)));
                }
                inside = false;
            }
        } else {
            if !inside {
                start = i;
                inside = true;
                assert(s@.subrange(start as int, i + 1) =~= seq![c]);
            } else {
                let ghost w = out@.map_values(|w: String| w@).push(s@.subrange(start as int, i as int));
                assert(w.drop_last() =~= out@.map_values(|w: String| w@));
                assert(s@.subrange(start as int, i + 1) =~= s@.subrange(start as int, i as int).push(c));
            }
        }
        i = i + 1;
    }
    if inside {
        let ghost before = out@;
        let w = s.substring_char(start, n).to_owned();
        out.push(w);
        proof {
            assert(out@.map_values(|w: String| w@) =~= before.map_values(|w: String| w@).push(s@.subrange(start as int, n as int)));
        }
    }
    assert(s@.subrange(0, n as int) =~= s@);
    proof {
        assert(out@.map_values(|w: String| w@) =~= words(s@));
    }
    out
}


/// Whether every character of `d` is an ASCII decimal digit.
pub open spec fn all_digits(d: Seq<char>) -> bool {
    forall|i: int| 0 <= i < d.len() ==> '0' <= #[trigger] d[i] <= '9'
}

/// The number that the decimal digits `d` spell, most significant first.
pub open spec fn digits_value(d: Seq<char>) -> nat
    decreases d.len(),
{
    if d.len() == 0 {
        0
    } else {
        digits_value(d.drop_last()) * 10 + ((d.last() as u32) - ('0' as u32)) as nat
    }
}

/// What `str::parse` gives for an unsigned type whose largest value is
/// `max`: an optional `+` followed by one or more decimal digits whose value
/// is at most `max`; anything else is rejected.
pub open spec fn decimal_upto(s: Seq<char>, max: nat) -> Option<nat> {
    let d = if s.len() > 0 && s[0] == '+' { s.drop_first() } else { s };
    if d.len() > 0 && all_digits(d) && digits_value(d) <= max {
        Some(digits_value(d))
    } else {
        None
    }
}

/// What `str::parse::<u16>` gives.
pub open spec fn decimal_u16(s: Seq<char>) -> Option<u16> {
    match decimal_upto(s, 65535) {
        Some(v) => Some(v as u16),
        None => None,
    }
}

/// The process identifiers among the words `ws`, in order: each word that
/// reads as a 32-bit decimal number.
pub open spec fn pids_of(ws: Seq<Seq<char>>) -> Seq<u32>
    decreases ws.len(),
{
    if ws.len() == 0 {
        seq![]
    } else {
        let rest = pids_of(ws.drop_last());
        match decimal_upto(ws.last(), u32::MAX as nat) {
            Some(v) => rest.push(v as u32),
            None => rest,
        }
    }
}

proof fn lemma_digits_value_grows(d: Seq<char>, k: int)
    requires
        0 <= k <= d.len(),
        all_digits(d),
    ensures
        digits_value(d.subrange(0, k)) <= digits_value(d),
    decreases d.len() - k,
{
    if k < d.len() {
        let e = d.subrange(0, k + 1);
        assert(e.drop_last() =~= d.subrange(0, k));
        assert('0' <= d[k] <= '9');
        lemma_digits_value_grows(d, k + 1);
    } else {
        assert(d.subrange(0, k) =~= d);
    }
}

/// Reads an unsigned decimal number of at most `max`, as `str::parse` does
/// for an unsigned type whose largest value is `max`.
pub fn parse_decimal(s: &str, max: u32) -> (r: Option<u32>)
    ensures
        match r {
            Some(v) => decimal_upto(s@, max as nat) == Some(v as nat),
            None => decimal_upto(s@, max as nat) is None,
        },
{
    let n = s.unicode_len();
    let mut i: usize = 0;
    if n > 0 && s.get_char(0) == '+' {
        i = 1;
    }
    let first = i;
    let ghost d = s@.subrange(first as int, n as int);
    assert(d == (if s@.len() > 0 && s@[0] == '+' { s@.drop_first() } else { s@ }));
    if first == n {
        return None;
    }
    let mut value: u64 = 0;
    while i < n
        invariant
            n == s@.len(),
            first <= i <= n,
            d == s@.subrange(first as int, n as int),
            d == (if s@.len() > 0 && s@[0] == '+' { s@.drop_first() } else { s@ }),
            all_digits(d.subrange(0, i - first)),
            value as nat == digits_value(d.subrange(0, i - first)),
            value <= max,
        decreases n - i,
    {
        let c = s.get_char(i);
        proof {
            assert(d.subrange(0, i + 1 - first).drop_last() =~= d.subrange(0, i - first));
        }
        assert(d[i - first] == c);
        if c < '0' || c > '9' {
            assert(!('0' <= d[i - first] <= '9'));
            assert(!all_digits(d));
            return None;
        }
        let digit: u64 = ((c as u32) - ('0' as u32)) as u64;
        let next: u64 = value * 10 + digit;
        if next > max as u64 {
            proof {
                let e = d.subrange(0, i + 1 - first);
                assert(e.last() == c);
                assert(digits_value(e) == digits_value(e.drop_last()) * 10 + digit);
                if all_digits(d) {
                    lemma_digits_value_grows(d, i + 1 - first);
                }
            }
            return None;
        }
        proof {
            let e = d.subrange(0, i + 1 - first);
            assert(e.last() == c);
            assert(digits_value(e) == digits_value(e.drop_last()) * 10 + digit);
            assert forall|j: int| 0 <= j < e.len() implies '0' <= #[trigger] e[j] <= '9' by {
                if j < e.len() - 1 {
                    assert(e[j] == e.drop_last()[j]);
                }
            }
        }
        value = next;
        i = i + 1;
    }
    assert(d.subrange(0, n - first) =~= d);
    Some(value as u32)
}

/// Reads a 16-bit unsigned decimal number, as `str::parse::<u16>` does.
pub fn parse_decimal_u16(s: &str) -> (r: Option<u16>)
    ensures
        r == decimal_u16(s@),
{
    match parse_decimal(s, 65535) {
        Some(v) => Some(v as u16),
        None => None,
    }
}

/// The process identifiers listed in `text`: each white-space separated
/// word that reads as a 32-bit number, in order; other words are passed over.
pub fn pid_list(text: &str) -> (r: Vec<u32>)
    ensures
        r@ == pids_of(words(text@)),
{
    let ws = split_words(text);
    let ghost wv = ws@.map_values(|w: String| w@);
    let mut out: Vec<u32> = Vec::new();
    let mut i: usize = 0;
    while i < ws.len()
        invariant
            i <= ws.len(),
            wv == ws@.map_values(|w: String| w@),
            out@ == pids_of(wv.subrange(0, i as int)),
        decreases ws.len() - i,
    {
        proof {
            assert(wv.subrange(0, i + 1).drop_last() =~= wv.subrange(0, i as int));
            assert(wv.subrange(0, i + 1).last() == ws@[i as int]@);
        }
        match parse_decimal(ws[i].as_str(), 4294967295) {
            Some(v) => out.push(v),
            None => {},
        }
        i = i + 1;
    }
    assert(wv.subrange(0, ws.len() as int) =~= wv);
    out
}

} // verus!
