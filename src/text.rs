use vstd::prelude::*;

verus! {

/// `c` is one of the ASCII digits `0` to `9`.
pub open spec fn is_digit(c: char) -> bool {
    '0' <= c && c <= '9'
}

pub open spec fn all_digits(d: Seq<char>) -> bool {
    forall|i: int| 0 <= i < d.len() ==> is_digit(#[trigger] d[i])
}

/// The number that a string of decimal digits denotes.
pub open spec fn digits_value(d: Seq<char>) -> nat
    decreases d.len(),
{
    if d.len() == 0 {
        0
    } else {
        (digits_value(d.drop_last()) * 10 + (d.last() as nat - '0' as nat)) as nat
    }
}

/// The digits of an unsigned number's text: one leading `+` is allowed.
pub open spec fn unsigned_digits(t: Seq<char>) -> Seq<char> {
    if t.len() > 0 && t[0] == '+' {
        t.drop_first()
    } else {
        t
    }
}

/// What reading `t` as a `u64` gives: at least one digit, an optional
/// leading `+`, nothing else, and a value that fits.
pub open spec fn parsed_u64(t: Seq<char>) -> Option<u64> {
    let d = unsigned_digits(t);
    if d.len() > 0 && all_digits(d) && digits_value(d) <= u64::MAX {
        Some(digits_value(d) as u64)
    } else {
        None
    }
}

/// The decimal text of `n`, without leading zeros.
pub open spec fn decimal(n: nat) -> Seq<char>
    decreases n,
{
    if n < 10 {
        seq![digit_char(n)]
    } else {
        decimal(n / 10).push(digit_char(n % 10))
    }
}

pub open spec fn digit_char(n: nat) -> char {
    ('0' as nat + n) as char
}

proof fn lemma_prefix_value_le(d: Seq<char>, k: int)
    requires
        all_digits(d),
        0 <= k <= d.len(),
    ensures
        digits_value(d.subrange(0, k)) <= digits_value(d),
    decreases d.len(),
{
    if k < d.len() {
        let r = d.drop_last();
        assert(r.subrange(0, k) =~= d.subrange(0, k));
        lemma_prefix_value_le(r, k);
    } else {
        assert(d.subrange(0, k) =~= d);
    }
}

/// Reads a decimal `u64` the way `str::parse::<u64>` does.
pub fn parse_u64(s: &str) -> (r: Option<u64>)
    ensures
        r == parsed_u64(s@),
{
    let n = s.unicode_len();
    let mut start: usize = 0;
    if n > 0 && s.get_char(0) == '+' {
        start = 1;
    }
    let ghost d = unsigned_digits(s@);
    assert(d =~= s@.subrange(start as int, n as int));
    if start == n {
        return None;
    }
    let mut i: usize = start;
    while i < n
        invariant
            start <= i <= n,
            n == s@.len(),
            d == s@.subrange(start as int, n as int),
            d == unsigned_digits(s@),
            forall|j: int| start <= j < i ==> is_digit(#[trigger] s@[j]),
        decreases n - i,
    {
        if !('0' <= s.get_char(i) && s.get_char(i) <= '9') {
            assert(!is_digit(d[i - start]));
            return None;
        }
        i = i + 1;
    }
    assert(all_digits(d));
    let mut acc: u64 = 0;
    let mut i: usize = start;
    while i < n
        invariant
            start <= i <= n,
            n == s@.len(),
            d == s@.subrange(start as int, n as int),
            d == unsigned_digits(s@),
            all_digits(d),
            acc as nat == digits_value(d.subrange(0, i - start)),
        decreases n - i,
    {
        let c = s.get_char(i);
        assert(is_digit(d[i - start]));
        let v: u64 = (c as u32 - '0' as u32) as u64;
        let ghost pre = d.subrange(0, i - start + 1);
        assert(pre.drop_last() =~= d.subrange(0, i - start));
        assert(pre.last() == c);
        if acc > (u64::MAX - v) / 10 {
            assert(digits_value(pre) > u64::MAX) by (nonlinear_arith)
                requires
                    acc > (u64::MAX - v) / 10,
                    digits_value(pre) == acc * 10 + v,
            ;
            proof {
                lemma_prefix_value_le(d, i - start + 1);
            }
            return None;
        }
        assert(acc * 10 + v <= u64::MAX) by (nonlinear_arith)
            requires
                acc <= (u64::MAX - v) / 10,
                v <= 9,
        ;
        acc = acc * 10 + v;
        i = i + 1;
    }
    assert(d.subrange(0, n - start) =~= d);
    Some(acc)
}

/// The decimal text of `n`.
pub fn decimal_text(n: u64) -> (r: String)
    ensures
        r@ == decimal(n as nat),
{
    let digits = "0123456789";
    proof {
        reveal_strlit("0123456789");
    }
    let mut rev: Vec<u64> = Vec::new();
    let mut m: u64 = n;
    while m >= 10
        invariant
            decimal(n as nat) == decimal(m as nat) + rev@.reverse().map_values(
                |x: u64| digit_char(x as nat),
            ),
            forall|k: int| 0 <= k < rev@.len() ==> #[trigger] rev@[k] < 10,
        decreases m,
    {
        let ghost old_rev = rev@;
        rev.push(m % 10);
        assert(rev@.reverse() =~= seq![m % 10].add(old_rev.reverse()));
        assert(decimal(m as nat) == decimal((m / 10) as nat).push(digit_char((m % 10) as nat)));
        m = m / 10;
    }
    assert(digits@.len() == 10);
    assert forall|j: int| 0 <= j < 10 implies digits@[j] == digit_char(j as nat) by {
        assert(digits@ =~= seq!['0', '1', '2', '3', '4', '5', '6', '7', '8', '9']);
    }
    let mut out = digits.substring_char(m as usize, m as usize + 1).to_owned();
    assert(out@ =~= decimal(m as nat));
    let mut k: usize = rev.len();
    while k > 0
        invariant
            k <= rev@.len(),
            forall|j: int| 0 <= j < rev@.len() ==> #[trigger] rev@[j] < 10,
            digits@.len() == 10,
            forall|j: int| 0 <= j < 10 ==> digits@[j] == digit_char(j as nat),
            decimal(n as nat) == out@ + rev@.subrange(0, k as int).reverse().map_values(
                |x: u64| digit_char(x as nat),
            ),
        decreases k,
    {
        k = k - 1;
        let x = rev[k] as usize;
        let piece = digits.substring_char(x, x + 1);
        assert(piece@ =~= seq![digit_char(x as nat)]);
        let ghost before = out@;
        out.append(piece);
        assert(rev@.subrange(0, k + 1).reverse() =~= seq![rev@[k as int]].add(
            rev@.subrange(0, k as int).reverse(),
        ));
        assert(out@ + rev@.subrange(0, k as int).reverse().map_values(|x: u64| digit_char(x as nat))
            =~= before + rev@.subrange(0, k + 1).reverse().map_values(|x: u64| digit_char(x as nat)));
    }
    assert(rev@.subrange(0, 0).reverse().map_values(|x: u64| digit_char(x as nat)) =~= Seq::<char>::empty());
    assert(out@ + Seq::<char>::empty() =~= out@);
    out
}

} // verus!
