use crate::compare::Changes;
use crate::player::PlayerData;
use vstd::prelude::*;
use vstd::string::*;

verus! {

/// The decimal digit character for `d` in `0 ..= 9`.
pub open spec fn digit_char(d: int) -> char {
    if d == 0 {
        '0'
    } else if d == 1 {
        '1'
    } else if d == 2 {
        '2'
    } else if d == 3 {
        '3'
    } else if d == 4 {
        '4'
    } else if d == 5 {
        '5'
    } else if d == 6 {
        '6'
    } else if d == 7 {
        '7'
    } else if d == 8 {
        '8'
    } else {
        '9'
    }
}

/// The decimal digits of `n`, most significant first, without leading
/// zeros (`0` itself is written as the single digit `0`).
pub open spec fn dec_digits(n: nat) -> Seq<char>
    decreases n,
{
    if n < 10 {
        seq![digit_char(n as int)]
    } else {
        dec_digits(n / 10) + seq![digit_char((n % 10) as int)]
    }
}

/// Inserts a comma before each group of three characters, counting from
/// the right.
pub open spec fn group3(s: Seq<char>) -> Seq<char>
    decreases s.len(),
{
    if s.len() <= 3 {
        s
    } else {
        group3(s.take(s.len() - 3)) + seq![','] + s.skip(s.len() - 3)
    }
}

/// The rendering of `num` with thousands separators: its decimal digits
/// grouped by three, a `-` prefix when negative, and, when `include_pos`
/// is set, a `+` prefix otherwise.
pub open spec fn spec_add_commas(num: int, include_pos: bool) -> Seq<char> {
    let mag = if num == 0 {
        seq!['0']
    } else {
        group3(dec_digits(vstd::math::abs(num)))
    };
    if num < 0 {
        seq!['-'] + mag
    } else if include_pos {
        seq!['+'] + mag
    } else {
        mag
    }
}

/// The characters the formatter emits.
pub open spec fn is_fmt_char(c: char) -> bool {
    ||| c == '0'
    ||| c == '1'
    ||| c == '2'
    ||| c == '3'
    ||| c == '4'
    ||| c == '5'
    ||| c == '6'
    ||| c == '7'
    ||| c == '8'
    ||| c == '9'
    ||| c == ','
    ||| c == '-'
    ||| c == '+'
    ||| c == '.'
}

fn digit_to_char(d: u64) -> (c: char)
    requires
        d < 10,
    ensures
        c == digit_char(d as int),
        is_fmt_char(c),
{
    match d {
        0 => '0',
        1 => '1',
        2 => '2',
        3 => '3',
        4 => '4',
        5 => '5',
        6 => '6',
        7 => '7',
        8 => '8',
        _ => '9',
    }
}

fn append_char(s: &mut String, c: char)
    requires
        is_fmt_char(c),
    ensures
        final(s)@ == old(s)@.push(c),
{
    match c {
        '0' => {
            s.append("0");
            proof {
                reveal_strlit("0");
                assert(s@ =~= old(s)@.push('0'));
            }
        },
        '1' => {
            s.append("1");
            proof {
                reveal_strlit("1");
                assert(s@ =~= old(s)@.push('1'));
            }
        },
        '2' => {
            s.append("2");
            proof {
                reveal_strlit("2");
                assert(s@ =~= old(s)@.push('2'));
            }
        },
        '3' => {
            s.append("3");
            proof {
                reveal_strlit("3");
                assert(s@ =~= old(s)@.push('3'));
            }
        },
        '4' => {
            s.append("4");
            proof {
                reveal_strlit("4");
                assert(s@ =~= old(s)@.push('4'));
            }
        },
        '5' => {
            s.append("5");
            proof {
                reveal_strlit("5");
                assert(s@ =~= old(s)@.push('5'));
            }
        },
        '6' => {
            s.append("6");
            proof {
                reveal_strlit("6");
                assert(s@ =~= old(s)@.push('6'));
            }
        },
        '7' => {
            s.append("7");
            proof {
                reveal_strlit("7");
                assert(s@ =~= old(s)@.push('7'));
            }
        },
        '8' => {
            s.append("8");
            proof {
                reveal_strlit("8");
                assert(s@ =~= old(s)@.push('8'));
            }
        },
        '9' => {
            s.append("9");
            proof {
                reveal_strlit("9");
                assert(s@ =~= old(s)@.push('9'));
            }
        },
        ',' => {
            s.append(",");
            proof {
                reveal_strlit(",");
                assert(s@ =~= old(s)@.push(','));
            }
        },
        '-' => {
            s.append("-");
            proof {
                reveal_strlit("-");
                assert(s@ =~= old(s)@.push('-'));
            }
        },
        '+' => {
            s.append("+");
            proof {
                reveal_strlit("+");
                assert(s@ =~= old(s)@.push('+'));
            }
        },
        _ => {
            s.append(".");
            proof {
                reveal_strlit(".");
                assert(s@ =~= old(s)@.push('.'));
            }
        },
    }
}

/// Builds the string whose characters are `v` read back to front.
fn rev_chars_to_string(v: &Vec<char>) -> (r: String)
    requires
        forall|i: int| 0 <= i < v@.len() ==> is_fmt_char(v@[i]),
    ensures
        r@ == v@.reverse(),
{
    let mut r = String::new();
    let mut i: usize = v.len();
    while i > 0
        invariant
            i <= v@.len(),
            forall|j: int| 0 <= j < v@.len() ==> is_fmt_char(v@[j]),
            r@ == v@.subrange(i as int, v@.len() as int).reverse(),
        decreases i,
    {
        i = i - 1;
        append_char(&mut r, v[i]);
        proof {
            assert(r@ =~= v@.subrange(i as int, v@.len() as int).reverse());
        }
    }
    proof {
        assert(v@.subrange(0, v@.len() as int) =~= v@);
    }
    r
}

/// The comma emitted, while walking digits from the least significant
/// end, just before the digit at position `count` (positions count from
/// zero at the units digit).
spec fn comma_seq(count: nat) -> Seq<char> {
    if count != 0 && count % 3 == 0 {
        seq![',']
    } else {
        Seq::empty()
    }
}

/// The grouped digits of `n` in emission order: least significant digit
/// first, each comma standing right before the digit it precedes in
/// that order. `count` is the position of `n`'s units digit.
spec fn rev_group_digits(n: nat, count: nat) -> Seq<char>
    decreases n,
{
    if n == 0 {
        Seq::empty()
    } else {
        comma_seq(count) + seq![digit_char((n % 10) as int)] + rev_group_digits(
            n / 10,
            (count + 1) as nat,
        )
    }
}

/// The digits of `s` in display order with each comma standing right
/// after the digit at position `count + (distance from s's last)`.
spec fn interleave(s: Seq<char>, count: nat) -> Seq<char>
    decreases s.len(),
{
    if s.len() == 0 {
        Seq::empty()
    } else {
        interleave(s.drop_last(), (count + 1) as nat) + seq![s.last()] + comma_seq(count)
    }
}

/// Reversing the emission-order grouping gives the display-order one.
proof fn lemma_rev_reverse(n: nat, count: nat)
    requires
        n >= 1,
    ensures
        rev_group_digits(n, count).reverse() == interleave(dec_digits(n), count),
    decreases n,
{
    if n < 10 {
        assert(rev_group_digits(n / 10, (count + 1) as nat) == Seq::<char>::empty());
        assert(dec_digits(n) == seq![digit_char(n as int)]);
        assert(dec_digits(n).drop_last() =~= Seq::<char>::empty());
        assert(interleave(Seq::<char>::empty(), (count + 1) as nat) == Seq::<char>::empty());
        assert(rev_group_digits(n, count).reverse() =~= seq![digit_char(n as int)] + comma_seq(
            count,
        ));
        assert(interleave(dec_digits(n), count) =~= seq![digit_char(n as int)] + comma_seq(count));
    } else {
        lemma_rev_reverse(n / 10, (count + 1) as nat);
        assert(dec_digits(n) == dec_digits(n / 10) + seq![digit_char((n % 10) as int)]);
        assert(dec_digits(n).drop_last() =~= dec_digits(n / 10));
        assert(dec_digits(n).last() == digit_char((n % 10) as int));
        assert(rev_group_digits(n, count).reverse() =~= rev_group_digits(
            n / 10,
            (count + 1) as nat,
        ).reverse() + seq![digit_char((n % 10) as int)] + comma_seq(count));
        assert(interleave(dec_digits(n), count) == interleave(dec_digits(n / 10), (count + 1) as nat)
            + seq![dec_digits(n).last()] + comma_seq(count));
    }
}

/// Comma positions repeat with period three: away from the units digit,
/// shifting the starting position by three changes nothing.
proof fn lemma_interleave_shift(s: Seq<char>, count: nat)
    requires
        count >= 1,
    ensures
        interleave(s, (count + 3) as nat) == interleave(s, count),
    decreases s.len(),
{
    if s.len() > 0 {
        lemma_interleave_shift(s.drop_last(), (count + 1) as nat);
        assert(comma_seq((count + 3) as nat) == comma_seq(count)) by {
            assert((count + 3) % 3 == count % 3);
        }
    }
}

/// Starting three positions in, the walk emits exactly one extra
/// trailing comma.
proof fn lemma_interleave_wrap(s: Seq<char>)
    requires
        s.len() >= 1,
    ensures
        interleave(s, 3) == interleave(s, 0) + seq![','],
{
    if s.len() == 1 {
        assert(s.drop_last() =~= Seq::<char>::empty());
        assert(interleave(Seq::<char>::empty(), 4) == Seq::<char>::empty());
        assert(interleave(Seq::<char>::empty(), 1) == Seq::<char>::empty());
        assert(interleave(s, 3) == interleave(s.drop_last(), 4) + seq![s.last()] + seq![',']);
        assert(interleave(s, 0) == interleave(s.drop_last(), 1) + seq![s.last()]
            + Seq::<char>::empty());
        assert(interleave(s, 3) =~= interleave(s, 0) + seq![',']);
    } else {
        lemma_interleave_shift(s.drop_last(), 1);
        assert(interleave(s, 3) == interleave(s.drop_last(), 4) + seq![s.last()] + seq![',']);
        assert(interleave(s, 0) == interleave(s.drop_last(), 1) + seq![s.last()]
            + Seq::<char>::empty());
        assert(interleave(s, 3) =~= interleave(s, 0) + seq![',']);
    }
}

/// The digit walk from the units digit produces the standard grouping:
/// a comma before each block of three, counted from the right.
proof fn lemma_interleave_group3(s: Seq<char>)
    ensures
        interleave(s, 0) == group3(s),
    decreases s.len(),
{
    let n = s.len() as int;
    if s.len() == 0 {
    } else if s.len() <= 3 {
        let s1 = s.drop_last();
        if s.len() == 1 {
            assert(s1 =~= Seq::<char>::empty());
            assert(interleave(Seq::<char>::empty(), 1) == Seq::<char>::empty());
            assert(interleave(s, 0) == interleave(s1, 1) + seq![s.last()] + Seq::<char>::empty());
            assert(interleave(s, 0) =~= s);
        } else if s.len() == 2 {
            let s2 = s1.drop_last();
            assert(s2 =~= Seq::<char>::empty());
            assert(interleave(Seq::<char>::empty(), 2) == Seq::<char>::empty());
            assert(interleave(s1, 1) == interleave(s2, 2) + seq![s1.last()] + Seq::<char>::empty());
            assert(interleave(s, 0) == interleave(s1, 1) + seq![s.last()] + Seq::<char>::empty());
            assert(interleave(s, 0) =~= s);
        } else {
            let s2 = s1.drop_last();
            let s3 = s2.drop_last();
            assert(s3 =~= Seq::<char>::empty());
            assert(interleave(Seq::<char>::empty(), 3) == Seq::<char>::empty());
            assert(interleave(s2, 2) == interleave(s3, 3) + seq![s2.last()] + Seq::<char>::empty());
            assert(interleave(s1, 1) == interleave(s2, 2) + seq![s1.last()] + Seq::<char>::empty());
            assert(interleave(s, 0) == interleave(s1, 1) + seq![s.last()] + Seq::<char>::empty());
            assert(interleave(s, 0) =~= s);
        }
    } else {
        let s1 = s.drop_last();
        let s2 = s1.drop_last();
        let s3 = s2.drop_last();
        assert(interleave(s, 0) == interleave(s1, 1) + seq![s.last()] + Seq::<char>::empty());
        assert(interleave(s1, 1) == interleave(s2, 2) + seq![s1.last()] + Seq::<char>::empty());
        assert(interleave(s2, 2) == interleave(s3, 3) + seq![s2.last()] + Seq::<char>::empty());
        lemma_interleave_wrap(s3);
        lemma_interleave_group3(s3);
        assert(s3 =~= s.take(n - 3));
        assert(interleave(s, 0) =~= group3(s.take(n - 3)) + seq![','] + s.skip(n - 3));
    }
}

/// Renders `num` in decimal with a comma between each group of three
/// digits, a `-` prefix when negative, and, when `include_pos` is set, a
/// `+` prefix otherwise.
pub fn add_commas(num: i64, include_pos: bool) -> (r: String)
    requires
        num > i64::MIN,
    ensures
        r@ == spec_add_commas(num as int, include_pos),
{
    let is_negative = num < 0;
    let mut n: u64 = if is_negative {
        (-num) as u64
    } else {
        num as u64
    };
    let ghost n0 = n as nat;
    proof {
        assert(n0 == vstd::math::abs(num as int));
    }
    let mut rev: Vec<char> = Vec::new();
    if n == 0 {
        rev.push('0');
    }
    let mut count: u64 = 0;
    while n > 0
        invariant
            n0 <= u64::MAX,
            n as nat <= n0,
            count as nat <= n0 - n as nat,
            n0 > 0 ==> rev_group_digits(n0, 0) == rev@ + rev_group_digits(n as nat, count as nat),
            n0 == 0 ==> n == 0 && rev@ == seq!['0'],
            forall|i: int| 0 <= i < rev@.len() ==> is_fmt_char(rev@[i]),
        decreases n,
    {
        let ghost rev_before = rev@;
        if count % 3 == 0 && count != 0 {
            rev.push(',');
        }
        let d = n % 10;
        let c = digit_to_char(d);
        rev.push(c);
        proof {
            assert(rev@ =~= rev_before + comma_seq(count as nat) + seq![
                digit_char((n as nat % 10) as int),
            ]);
            assert(rev_group_digits(n as nat, count as nat) == comma_seq(count as nat) + seq![
                digit_char((n as nat % 10) as int),
            ] + rev_group_digits(n as nat / 10, (count + 1) as nat));
            assert(rev_before + rev_group_digits(n as nat, count as nat) =~= rev@
                + rev_group_digits(n as nat / 10, (count + 1) as nat));
            assert(n as nat / 10 < n as nat) by (nonlinear_arith)
                requires
                    n >= 1,
            ;
        }
        n = n / 10;
        count = count + 1;
    }
    if is_negative {
        rev.push('-');
    } else if include_pos {
        rev.push('+');
    }
    let r = rev_chars_to_string(&rev);
    proof {
        let sign: Seq<char> = if num < 0 {
            seq!['-']
        } else if include_pos {
            seq!['+']
        } else {
            Seq::empty()
        };
        if n0 == 0 {
            assert(rev@ =~= seq!['0'] + sign);
            assert(r@ =~= spec_add_commas(num as int, include_pos));
        } else {
            assert(rev@ =~= rev_group_digits(n0, 0) + sign);
            lemma_rev_reverse(n0, 0);
            lemma_interleave_group3(dec_digits(n0));
            assert(r@ =~= sign + interleave(dec_digits(n0), 0));
            assert(r@ =~= spec_add_commas(num as int, include_pos));
        }
    }
    r
}

/// The four fractional digits of a fixed-point value, zero-padded, for
/// `frac` in `0 .. 10000`.
pub open spec fn pad4(frac: nat) -> Seq<char> {
    seq![
        digit_char((frac / 1000) as int),
        digit_char(((frac / 100) % 10) as int),
        digit_char(((frac / 10) % 10) as int),
        digit_char((frac % 10) as int),
    ]
}

/// `s` with its trailing `0` characters removed.
pub open spec fn trim_zeros(s: Seq<char>) -> Seq<char>
    decreases s.len(),
{
    if s.len() > 0 && s.last() == '0' {
        trim_zeros(s.drop_last())
    } else {
        s
    }
}

/// The decimal rendering of a fixed-point value held in units of one
/// ten-thousandth: the integer part, then, unless the fractional part is
/// zero, a point and the fractional digits with trailing zeros removed.
/// A `-` prefix when negative; when `include_pos` is set, a `+` prefix
/// otherwise.
/// The unsigned part of a fixed-point rendering: the integer part,
/// then, unless the fractional part is zero, a point and the fractional
/// digits with trailing zeros removed.
pub open spec fn mag_fixed4(a: nat) -> Seq<char> {
    dec_digits(a / 10000) + if a % 10000 == 0 {
        Seq::<char>::empty()
    } else {
        seq!['.'] + trim_zeros(pad4(a % 10000))
    }
}

pub open spec fn spec_fixed4(v: int, include_pos: bool) -> Seq<char> {
    if v < 0 {
        seq!['-'] + mag_fixed4(vstd::math::abs(v))
    } else if include_pos {
        seq!['+'] + mag_fixed4(vstd::math::abs(v))
    } else {
        mag_fixed4(vstd::math::abs(v))
    }
}

/// The digits of `n` least significant first, empty for zero.
spec fn rev_digits(n: nat) -> Seq<char>
    decreases n,
{
    if n == 0 {
        Seq::empty()
    } else {
        seq![digit_char((n % 10) as int)] + rev_digits(n / 10)
    }
}

/// Reversing the least-significant-first digits gives the display order.
proof fn lemma_rev_digits(n: nat)
    requires
        n >= 1,
    ensures
        rev_digits(n).reverse() == dec_digits(n),
    decreases n,
{
    if n < 10 {
        assert(rev_digits(n / 10) == Seq::<char>::empty());
        assert(rev_digits(n).reverse() =~= seq![digit_char(n as int)]);
    } else {
        lemma_rev_digits(n / 10);
        assert(rev_digits(n).reverse() =~= rev_digits(n / 10).reverse() + seq![
            digit_char((n % 10) as int),
        ]);
    }
}

/// Builds the unsigned fixed-point rendering of `a`, back to front.
#[verifier::rlimit(50)]
fn fixed4_rev(a: u64) -> (rev: Vec<char>)
    ensures
        rev@ == mag_fixed4(a as nat).reverse(),
        forall|i: int| 0 <= i < rev@.len() ==> is_fmt_char(rev@[i]),
{
    let mut ip: u64 = a / 10000;
    let frac: u64 = a % 10000;
    let ghost ip0 = ip as nat;
    let mut rev: Vec<char> = Vec::new();
    if frac > 0 {
        let mut f4: Vec<char> = Vec::new();
        f4.push(digit_to_char(frac / 1000));
        f4.push(digit_to_char((frac / 100) % 10));
        f4.push(digit_to_char((frac / 10) % 10));
        f4.push(digit_to_char(frac % 10));
        proof {
            assert(f4@ =~= pad4(frac as nat));
        }
        while f4.len() > 0 && f4[f4.len() - 1] == '0'
            invariant
                trim_zeros(pad4(frac as nat)) == trim_zeros(f4@),
                forall|i: int| 0 <= i < f4@.len() ==> is_fmt_char(f4@[i]),
            decreases f4.len(),
        {
            let ghost before = f4@;
            f4.pop();
            proof {
                assert(f4@ =~= before.drop_last());
                assert(trim_zeros(before) == trim_zeros(f4@));
            }
        }
        proof {
            assert(trim_zeros(f4@) == f4@);
        }
        let mut j: usize = f4.len();
        while j > 0
            invariant
                j <= f4@.len(),
                forall|i: int| 0 <= i < f4@.len() ==> is_fmt_char(f4@[i]),
                rev@ == f4@.subrange(j as int, f4@.len() as int).reverse(),
            decreases j,
        {
            j = j - 1;
            rev.push(f4[j]);
            proof {
                assert(rev@ =~= f4@.subrange(j as int, f4@.len() as int).reverse());
            }
        }
        rev.push('.');
        proof {
            assert(f4@.subrange(0, f4@.len() as int) =~= f4@);
            assert(rev@ =~= trim_zeros(pad4(frac as nat)).reverse() + seq!['.']);
        }
    }
    let ghost rev_mid = rev@;
    if ip == 0 {
        rev.push('0');
    } else {
        while ip > 0
            invariant
                rev@ + rev_digits(ip as nat) == rev_mid + rev_digits(ip0),
                forall|i: int| 0 <= i < rev@.len() ==> is_fmt_char(rev@[i]),
            decreases ip,
        {
            let c = digit_to_char(ip % 10);
            rev.push(c);
            proof {
                assert(rev@ + rev_digits(ip as nat / 10) =~= rev_mid + rev_digits(ip0));
                assert(ip as nat / 10 < ip as nat) by (nonlinear_arith)
                    requires
                        ip >= 1,
                ;
            }
            ip = ip / 10;
        }
    }
    proof {
        let fpart: Seq<char> = if frac == 0 {
            Seq::<char>::empty()
        } else {
            seq!['.'] + trim_zeros(pad4(frac as nat))
        };
        assert(rev_mid =~= fpart.reverse());
        if ip0 == 0 {
            assert(rev@ =~= rev_mid + seq!['0']);
            assert(dec_digits(ip0) == seq!['0']);
            assert(rev@ =~= (dec_digits(ip0) + fpart).reverse());
        } else {
            lemma_rev_digits(ip0);
            assert(rev@ =~= rev_mid + rev_digits(ip0));
            assert(rev@ =~= (rev_digits(ip0).reverse() + fpart).reverse());
        }
        assert(rev@ =~= mag_fixed4(a as nat).reverse());
    }
    rev
}

/// Renders a fixed-point value held in units of one ten-thousandth as a
/// decimal numeral, dropping trailing fractional zeros and the point
/// itself when the fraction is zero, with the same sign prefixes as
/// [`add_commas`].
pub fn format_fixed4(v: i64, include_pos: bool) -> (r: String)
    requires
        v > i64::MIN,
    ensures
        r@ == spec_fixed4(v as int, include_pos),
{
    let is_negative = v < 0;
    let a: u64 = if is_negative {
        (-v) as u64
    } else {
        v as u64
    };
    proof {
        assert(a as nat == vstd::math::abs(v as int));
    }
    let mut rev = fixed4_rev(a);
    if is_negative {
        rev.push('-');
    } else if include_pos {
        rev.push('+');
    }
    let r = rev_chars_to_string(&rev);
    proof {
        let sign: Seq<char> = if v < 0 {
            seq!['-']
        } else if include_pos {
            seq!['+']
        } else {
            Seq::empty()
        };
        assert(rev@ =~= mag_fixed4(a as nat).reverse() + sign);
        assert(r@ =~= sign + mag_fixed4(a as nat).reverse().reverse());
        assert(mag_fixed4(a as nat).reverse().reverse() =~= mag_fixed4(a as nat));
        assert(r@ =~= spec_fixed4(v as int, include_pos));
    }
    r
}

/// The plain decimal rendering of `v`: its digits, with a `-` prefix
/// when negative.
pub open spec fn spec_decimal(v: int) -> Seq<char> {
    if v < 0 {
        seq!['-'] + dec_digits(vstd::math::abs(v))
    } else {
        dec_digits(vstd::math::abs(v))
    }
}

/// Renders `v` in plain decimal, without separators.
pub fn plain_int(v: i64) -> (r: String)
    requires
        v > i64::MIN,
    ensures
        r@ == spec_decimal(v as int),
{
    let is_negative = v < 0;
    let mut n: u64 = if is_negative {
        (-v) as u64
    } else {
        v as u64
    };
    let ghost n0 = n as nat;
    proof {
        assert(n0 == vstd::math::abs(v as int));
    }
    let mut rev: Vec<char> = Vec::new();
    if n == 0 {
        rev.push('0');
        proof {
            assert(dec_digits(n0) == seq!['0']);
            assert(rev@ =~= rev_digits(n0) + seq!['0']);
        }
    } else {
        while n > 0
            invariant
                rev@ + rev_digits(n as nat) == rev_digits(n0),
                forall|i: int| 0 <= i < rev@.len() ==> is_fmt_char(rev@[i]),
            decreases n,
        {
            let c = digit_to_char(n % 10);
            rev.push(c);
            proof {
                assert(rev@ + rev_digits(n as nat / 10) =~= rev_digits(n0));
                assert(n as nat / 10 < n as nat) by (nonlinear_arith)
                    requires
                        n >= 1,
                ;
            }
            n = n / 10;
        }
    }
    if is_negative {
        rev.push('-');
    }
    let r = rev_chars_to_string(&rev);
    proof {
        if n0 == 0 {
            assert(rev@ =~= seq!['0']);
            assert(r@ =~= spec_decimal(v as int));
        } else {
            lemma_rev_digits(n0);
            if v < 0 {
                assert(rev@ =~= rev_digits(n0) + seq!['-']);
                assert(r@ =~= seq!['-'] + rev_digits(n0).reverse());
            } else {
                assert(r@ =~= rev_digits(n0).reverse());
            }
            assert(r@ =~= spec_decimal(v as int));
        }
    }
    r
}

/// The separator put before a delta annotation: on its own line, or
/// beside the value, always opening an inline code span.
pub open spec fn delta_sep(newline: bool) -> Seq<char> {
    if newline {
        "\n`"@
    } else {
        " `"@
    }
}

/// `base` with the rendered change appended when the field changed and
/// the player is not new; `base` alone otherwise.
pub open spec fn with_change(
    base: Seq<char>,
    changed: bool,
    is_new: bool,
    newline: bool,
    body: Seq<char>,
) -> Seq<char> {
    if changed && !is_new {
        base + delta_sep(newline) + body + "`"@
    } else {
        base
    }
}

pub open spec fn total_score_text(d: PlayerData, c: Changes, is_new: bool) -> Seq<char> {
    with_change(
        spec_add_commas(d.scoreStats.totalScore as int, false),
        c.tScore,
        is_new,
        true,
        spec_add_commas(c.tScore_change as int, true),
    )
}

pub open spec fn total_ranked_score_text(d: PlayerData, c: Changes, is_new: bool) -> Seq<char> {
    with_change(
        spec_add_commas(d.scoreStats.totalRankedScore as int, false),
        c.rScore,
        is_new,
        true,
        spec_add_commas(c.rScore_change as int, true),
    )
}

pub open spec fn total_play_count_text(d: PlayerData, c: Changes, is_new: bool) -> Seq<char> {
    with_change(
        spec_add_commas(d.scoreStats.totalPlayCount as int, false),
        c.tCount,
        is_new,
        false,
        spec_add_commas(c.tCount_change as int, true),
    )
}

pub open spec fn ranked_play_count_text(d: PlayerData, c: Changes, is_new: bool) -> Seq<char> {
    with_change(
        spec_add_commas(d.scoreStats.rankedPlayCount as int, false),
        c.rCount,
        is_new,
        false,
        spec_add_commas(c.rCount_change as int, true),
    )
}

pub open spec fn replays_text(d: PlayerData, c: Changes, is_new: bool) -> Seq<char> {
    with_change(
        spec_decimal(d.scoreStats.replaysWatched as int),
        c.replays,
        is_new,
        true,
        spec_add_commas(c.replays_change as int, true),
    )
}

pub open spec fn pp_text(d: PlayerData, c: Changes, is_new: bool) -> Seq<char> {
    with_change(
        spec_fixed4(d.pp as int, false),
        c.pp,
        is_new,
        true,
        spec_fixed4(c.pp_change as int, true),
    )
}

pub open spec fn accuracy_text(d: PlayerData, c: Changes, is_new: bool) -> Seq<char> {
    with_change(
        spec_fixed4(d.scoreStats.averageRankedAccuracy as int, false),
        c.rAccuracy,
        is_new,
        true,
        spec_fixed4(c.rAccuracy_change as int, true),
    )
}

pub open spec fn rank_text(d: PlayerData, c: Changes, is_new: bool) -> Seq<char> {
    with_change(
        spec_add_commas(d.rank as int, false),
        c.rank,
        is_new,
        false,
        spec_add_commas(c.rank_change as int, true),
    )
}

pub open spec fn country_rank_text(d: PlayerData, c: Changes, is_new: bool) -> Seq<char> {
    with_change(
        spec_add_commas(d.countryRank as int, false),
        c.cRank,
        is_new,
        false,
        spec_add_commas(c.cRank_change as int, true),
    )
}

pub open spec fn description_text(d: PlayerData, c: Changes, is_new: bool) -> Seq<char> {
    "Rank: **#"@ + rank_text(d, c, is_new) + "**\nCountry Rank ("@ + d.country@ + "): **#"@
        + country_rank_text(d, c, is_new) + "**\nFirst Seen: "@ + d.firstSeen@.take(10)
}

pub open spec fn author_text(d: PlayerData) -> Seq<char> {
    d.name@ + " #"@ + spec_decimal(d.rank as int)
}

pub open spec fn color_spec(d: PlayerData) -> u32 {
    if d.name@ == "ColGuy20"@ {
        5505024
    } else {
        0
    }
}

/// The machine-limit side conditions under which a snapshot can be
/// rendered: every numeric field negatable, and a first-seen timestamp
/// of at least ten characters, so its date part can be cut off.
pub open spec fn renderable(d: PlayerData) -> bool {
    &&& d.pp > i64::MIN
    &&& d.rank > i64::MIN
    &&& d.countryRank > i64::MIN
    &&& d.scoreStats.totalScore > i64::MIN
    &&& d.scoreStats.totalRankedScore > i64::MIN
    &&& d.scoreStats.averageRankedAccuracy > i64::MIN
    &&& d.scoreStats.totalPlayCount > i64::MIN
    &&& d.scoreStats.rankedPlayCount > i64::MIN
    &&& d.scoreStats.replaysWatched > i64::MIN
    &&& d.firstSeen@.len() >= 10
}

/// The machine-limit side condition under which a delta can be
/// rendered: every magnitude negatable.
pub open spec fn renderable_changes(c: Changes) -> bool {
    &&& c.pp_change > i64::MIN
    &&& c.rAccuracy_change > i64::MIN
    &&& c.rank_change > i64::MIN
    &&& c.cRank_change > i64::MIN
    &&& c.tScore_change > i64::MIN
    &&& c.rScore_change > i64::MIN
    &&& c.tCount_change > i64::MIN
    &&& c.rCount_change > i64::MIN
    &&& c.replays_change > i64::MIN
}

/// The rendered notification payload: every displayed field as text,
/// ready for the notification sink to lay out.
#[derive(Debug, Clone)]
pub struct RenderedStats {
    pub author_name: String,
    pub icon_url: String,
    pub color: u32,
    pub description: String,
    pub total_score: String,
    pub total_ranked_score: String,
    pub accuracy: String,
    pub pp: String,
    pub ranked_play_count: String,
    pub total_play_count: String,
    pub replays_watched: String,
}

fn append_delta(base: &mut String, newline: bool, body: &str)
    ensures
        final(base)@ == old(base)@ + delta_sep(newline) + body@ + "`"@,
{
    if newline {
        base.append("\n`");
    } else {
        base.append(" `");
    }
    base.append(body);
    base.append("`");
}

/// Renders a snapshot and its delta into the notification payload.
/// Deterministic, with no error path. Changed fields carry their signed
/// magnitude beneath or beside the value; when `new_user` is set, no
/// delta annotation appears anywhere, whatever `changes` holds.
pub fn formatdata(data: &PlayerData, changes: &Changes, new_user: bool) -> (r: RenderedStats)
    requires
        renderable(*data),
        renderable_changes(*changes),
    ensures
        r.author_name@ == author_text(*data),
        r.icon_url@ == data.profilePicture@,
        r.color == color_spec(*data),
        r.description@ == description_text(*data, *changes, new_user),
        r.total_score@ == total_score_text(*data, *changes, new_user),
        r.total_ranked_score@ == total_ranked_score_text(*data, *changes, new_user),
        r.accuracy@ == accuracy_text(*data, *changes, new_user),
        r.pp@ == pp_text(*data, *changes, new_user),
        r.ranked_play_count@ == ranked_play_count_text(*data, *changes, new_user),
        r.total_play_count@ == total_play_count_text(*data, *changes, new_user),
        r.replays_watched@ == replays_text(*data, *changes, new_user),
{
    let mut total_score = add_commas(data.scoreStats.totalScore, false);
    if !new_user && changes.tScore {
        let body = add_commas(changes.tScore_change, true);
        append_delta(&mut total_score, true, body.as_str());
    }
    let mut total_ranked_score = add_commas(data.scoreStats.totalRankedScore, false);
    if !new_user && changes.rScore {
        let body = add_commas(changes.rScore_change, true);
        append_delta(&mut total_ranked_score, true, body.as_str());
    }
    let mut total_play_count = add_commas(data.scoreStats.totalPlayCount, false);
    if !new_user && changes.tCount {
        let body = add_commas(changes.tCount_change, true);
        append_delta(&mut total_play_count, false, body.as_str());
    }
    let mut ranked_play_count = add_commas(data.scoreStats.rankedPlayCount, false);
    if !new_user && changes.rCount {
        let body = add_commas(changes.rCount_change, true);
        append_delta(&mut ranked_play_count, false, body.as_str());
    }
    let mut replays_watched = plain_int(data.scoreStats.replaysWatched);
    if !new_user && changes.replays {
        let body = add_commas(changes.replays_change, true);
        append_delta(&mut replays_watched, true, body.as_str());
    }
    let mut pp = format_fixed4(data.pp, false);
    if !new_user && changes.pp {
        let body = format_fixed4(changes.pp_change, true);
        append_delta(&mut pp, true, body.as_str());
    }
    let mut accuracy = format_fixed4(data.scoreStats.averageRankedAccuracy, false);
    if !new_user && changes.rAccuracy {
        let body = format_fixed4(changes.rAccuracy_change, true);
        append_delta(&mut accuracy, true, body.as_str());
    }
    let mut rank = add_commas(data.rank, false);
    if !new_user && changes.rank {
        let body = add_commas(changes.rank_change, true);
        append_delta(&mut rank, false, body.as_str());
    }
    let mut country_rank = add_commas(data.countryRank, false);
    if !new_user && changes.cRank {
        let body = add_commas(changes.cRank_change, true);
        append_delta(&mut country_rank, false, body.as_str());
    }
    let mut description = String::from_str("Rank: **#");
    description.append(rank.as_str());
    description.append("**\nCountry Rank (");
    description.append(data.country.as_str());
    description.append("): **#");
    description.append(country_rank.as_str());
    description.append("**\nFirst Seen: ");
    let first_seen_date = data.firstSeen.as_str().substring_char(0, 10);
    description.append(first_seen_date);
    proof {
        assert(description@ =~= description_text(*data, *changes, new_user));
    }
    let mut author_name = data.name.clone();
    author_name.append(" #");
    let rank_plain = plain_int(data.rank);
    author_name.append(rank_plain.as_str());
    let me = String::from_str("ColGuy20");
    let color: u32 = if data.name == me {
        5505024
    } else {
        0
    };
    RenderedStats {
        author_name,
        icon_url: data.profilePicture.clone(),
        color,
        description,
        total_score,
        total_ranked_score,
        accuracy,
        pp,
        ranked_play_count,
        total_play_count,
        replays_watched,
    }
}

/// Law: for a new player the renderer never emits a delta annotation.
/// Every displayed field is the same whatever the delta record holds.
pub proof fn lemma_new_user_ignores_changes(d: PlayerData, c1: Changes, c2: Changes)
    ensures
        description_text(d, c1, true) == description_text(d, c2, true),
        total_score_text(d, c1, true) == total_score_text(d, c2, true),
        total_ranked_score_text(d, c1, true) == total_ranked_score_text(d, c2, true),
        accuracy_text(d, c1, true) == accuracy_text(d, c2, true),
        pp_text(d, c1, true) == pp_text(d, c2, true),
        ranked_play_count_text(d, c1, true) == ranked_play_count_text(d, c2, true),
        total_play_count_text(d, c1, true) == total_play_count_text(d, c2, true),
        replays_text(d, c1, true) == replays_text(d, c2, true),
{
}

} // verus!
