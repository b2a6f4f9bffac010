//! Decimal text of numbers and ASCII case-insensitive comparison of text.

use vstd::prelude::*;

verus! {

/// The ten decimal digits, in order.
pub open spec fn digit_chars() -> Seq<char> {
    seq!['0', '1', '2', '3', '4', '5', '6', '7', '8', '9']
}

/// The digit that stands for `d` (for `d < 10`).
pub open spec fn digit_char(d: nat) -> char {
    digit_chars()[d as int]
}

/// Decimal text of a natural number, with no leading zero.
pub open spec fn nat_text(n: nat) -> Seq<char>
    decreases n,
{
    if n < 10 {
        seq![digit_char(n)]
    } else {
        nat_text(n / 10).push(digit_char(n % 10))
    }
}

/// Text of the number `t / 10`: a minus sign for negative numbers, the whole part,
/// and `.` with the tenths digit only where that digit is not zero
/// (so 10 gives "1", 1 gives "0.1", -10000 gives "-1000").
pub open spec fn tenths_text(t: int) -> Seq<char> {
    let a = if t < 0 { -t } else { t };
    let sign = if t < 0 { seq!['-'] } else { Seq::<char>::empty() };
    if a % 10 == 0 {
        sign + nat_text((a / 10) as nat)
    } else {
        sign + nat_text((a / 10) as nat) + seq!['.', digit_char((a % 10) as nat)]
    }
}

/// The code of a character with ASCII upper-case letters taken to lower case.
pub open spec fn lower_code(c: char) -> int {
    let v = c as int;
    if 65 <= v <= 90 {
        v + 32
    } else {
        v
    }
}

/// Two texts are equal once ASCII letters are taken to one case.
pub open spec fn eq_ignore_ascii_case(a: Seq<char>, b: Seq<char>) -> bool {
    &&& a.len() == b.len()
    &&& forall|i: int| 0 <= i < a.len() ==> #[trigger] lower_code(a[i]) == lower_code(b[i])
}

/// Appends the decimal text of `n` to `out`.
pub fn append_nat_text(out: &mut String, n: u64)
    ensures
        final(out)@ == old(out)@ + nat_text(n as nat),
    decreases n,
{
    if n >= 10 {
        append_nat_text(out, n / 10);
    }
    let d = (n % 10) as usize;
    let digits = "0123456789";
    proof {
        reveal_strlit("0123456789");
        assert(digits@ =~= digit_chars());
    }
    let one = digits.substring_ascii(d, d + 1);
    proof {
        assert(one@ =~= seq![digit_char(d as nat)]);
    }
    out.append(one);
    proof {
        assert(out@ =~= old(out)@ + nat_text(n as nat));
    }
}

/// Appends the text of `tenths / 10` (see `tenths_text`) to `out`.
pub fn append_tenths_text(out: &mut String, tenths: i32)
    ensures
        final(out)@ == old(out)@ + tenths_text(tenths as int),
{
    let a: u64 = if tenths < 0 {
        (-(tenths as i64)) as u64
    } else {
        tenths as u64
    };
    if tenths < 0 {
        out.append("-");
        proof {
            reveal_strlit("-");
        }
    }
    append_nat_text(out, a / 10);
    if a % 10 != 0 {
        out.append(".");
        proof {
            reveal_strlit(".");
        }
        append_nat_text(out, a % 10);
        proof {
            assert(nat_text((a % 10) as nat) =~= seq![digit_char((a % 10) as nat)]);
        }
    }
    proof {
        assert(out@ =~= old(out)@ + tenths_text(tenths as int));
    }
}

/// Whether `a` and `b` are equal once ASCII letters are taken to one case
/// (the comparison that `str::eq_ignore_ascii_case` makes).
pub fn same_ignoring_ascii_case(a: &str, b: &str) -> (r: bool)
    ensures
        r == eq_ignore_ascii_case(a@, b@),
{
    let n = a.unicode_len();
    let m = b.unicode_len();
    if n != m {
        return false;
    }
    let mut i: usize = 0;
    while i < n
        invariant
            n == a@.len(),
            m == b@.len(),
            n == m,
            i <= n,
            forall|j: int| 0 <= j < i ==> #[trigger] lower_code(a@[j]) == lower_code(b@[j]),
        decreases n - i,
    {
        let x = a.get_char(i) as u32;
        let y = b.get_char(i) as u32;
        let lx: u32 = if x >= 65 && x <= 90 { x + 32 } else { x };
        let ly: u32 = if y >= 65 && y <= 90 { y + 32 } else { y };
        if lx != ly {
            assert(lower_code(a@[i as int]) != lower_code(b@[i as int]));
            return false;
        }
        i = i + 1;
    }
    true
}

/// The number that a text of decimal digits stands for.
pub open spec fn decimal_value(s: Seq<char>) -> int
    decreases s.len(),
{
    if s.len() == 0 {
        0
    } else {
        decimal_value(s.drop_last()) * 10 + (s.last() as int - 48)
    }
}

/// The decimal text of `n` is made of digits only, starts with `0` only for `n == 0`,
/// and reads back as `n`.
pub proof fn lemma_nat_text_reads_back(n: nat)
    ensures
        nat_text(n).len() >= 1,
        forall|i: int| 0 <= i < nat_text(n).len() ==> 48 <= #[trigger] nat_text(n)[i] as int <= 57,
        nat_text(n)[0] == '0' ==> n == 0,
        decimal_value(nat_text(n)) == n,
    decreases n,
{
    assert(digit_chars() =~= seq!['0', '1', '2', '3', '4', '5', '6', '7', '8', '9']);
    assert forall|d: nat| d < 10 implies #[trigger] digit_char(d) as int == 48 + d by {
        assert(digit_chars()[d as int] as int == 48 + d);
    }
    if n < 10 {
        assert(nat_text(n) =~= seq![digit_char(n)]);
        assert(nat_text(n).drop_last() =~= Seq::<char>::empty());
        assert(decimal_value(Seq::<char>::empty()) == 0);
        assert(decimal_value(nat_text(n)) == decimal_value(nat_text(n).drop_last()) * 10 + (
        nat_text(n).last() as int - 48));
    } else {
        lemma_nat_text_reads_back(n / 10);
        let t = nat_text(n);
        assert(t.drop_last() =~= nat_text(n / 10));
        assert(t[0] == nat_text(n / 10)[0]);
        assert(n / 10 > 0);
        assert(digit_char(n % 10) as int == 48 + n % 10);
        assert(t.last() == digit_char(n % 10));
        assert(decimal_value(t) == decimal_value(t.drop_last()) * 10 + (t.last() as int - 48));
        assert((n / 10) * 10 + n % 10 == n);
    }
}

/// The text of a number of tenths: a negative number is written as `-` before the text
/// of its magnitude, and a whole number of tens `10 * n` is written as the decimal text
/// of `n`, which reads back as `n`.
pub proof fn lemma_tenths_text(t: int, n: nat)
    ensures
        t < 0 ==> tenths_text(t) == seq!['-'] + tenths_text(-t),
        tenths_text(10 * n as int) == nat_text(n),
        decimal_value(tenths_text(10 * n as int)) == n,
{
    lemma_nat_text_reads_back(n);
    assert(tenths_text(10 * n as int) =~= nat_text(n));
    if t < 0 {
        assert(tenths_text(t) =~= seq!['-'] + tenths_text(-t));
    }
}

} // verus!
