use vstd::prelude::*;
use crate::fixed::{Fixed, SCALE, MAX_RAW};
use crate::text::{str_to_chars, chars_to_string};

verus! {

/// Decimal text for scalars. A numeral is `[-] digits [ '.' digits ]` with
/// one to nine fraction digits; rendering always emits the canonical form
/// (no leading zeros beyond a single `0`, fraction trimmed of trailing
/// zeros and omitted when zero).
pub open spec fn is_digit(c: char) -> bool {
    c == '0' || c == '1' || c == '2' || c == '3' || c == '4' || c == '5' || c == '6' || c == '7'
        || c == '8' || c == '9'
}

pub open spec fn digit_val(c: char) -> int {
    if c == '0' {
        0
    } else if c == '1' {
        1
    } else if c == '2' {
        2
    } else if c == '3' {
        3
    } else if c == '4' {
        4
    } else if c == '5' {
        5
    } else if c == '6' {
        6
    } else if c == '7' {
        7
    } else if c == '8' {
        8
    } else {
        9
    }
}

pub open spec fn digit_char(d: int) -> char {
    if d == 0 {
        '0'
    } else if d == 1 {
        '1'
    } else if d == 2 {
        '2'
    } else if d == 3 {
        '3'
    } else if d == 4 {
        '4'
    } else if d == 5 {
        '5'
    } else if d == 6 {
        '6'
    } else if d == 7 {
        '7'
    } else if d == 8 {
        '8'
    } else {
        '9'
    }
}

pub open spec fn all_digits(s: Seq<char>) -> bool {
    forall|i: int| 0 <= i < s.len() ==> is_digit(#[trigger] s[i])
}

/// The decimal numeral of `n`, most significant digit first.
pub open spec fn digits_of(n: nat) -> Seq<char>
    decreases n,
{
    if n < 10 {
        seq![digit_char(n as int)]
    } else {
        digits_of(n / 10).push(digit_char((n % 10) as int))
    }
}

/// The `k`-digit zero-padded numeral of `n % 10^k`.
pub open spec fn digits_k(n: nat, k: nat) -> Seq<char>
    decreases k,
{
    if k == 0 {
        Seq::empty()
    } else {
        digits_k(n / 10, (k - 1) as nat).push(digit_char((n % 10) as int))
    }
}

/// The numeric value of a digit string.
pub open spec fn num_of(s: Seq<char>) -> int
    decreases s.len(),
{
    if s.len() == 0 {
        0
    } else {
        num_of(s.drop_last()) * 10 + digit_val(s.last())
    }
}

pub open spec fn pow10(k: nat) -> nat
    decreases k,
{
    if k == 0 {
        1
    } else {
        10 * pow10((k - 1) as nat)
    }
}

/// A digit string with its trailing zeros removed.
pub open spec fn trim_zeros(s: Seq<char>) -> Seq<char>
    decreases s.len(),
{
    if s.len() == 0 {
        Seq::empty()
    } else if s.last() == '0' {
        trim_zeros(s.drop_last())
    } else {
        s
    }
}

/// Index of the first `.` in `s` at or after `i`, or `s.len()` if none.
pub open spec fn find_dot(s: Seq<char>, i: int) -> int
    decreases s.len() - i,
{
    if i < 0 || i >= s.len() {
        s.len() as int
    } else if s[i] == '.' {
        i
    } else {
        find_dot(s, i + 1)
    }
}

/// What a numeral means: the canonical scalar of the parsed raw value, or
/// nothing when the text is not a numeral the scalar domain can hold.
pub open spec fn parse_fixed_spec(s: Seq<char>) -> Option<Fixed> {
    let neg = s.len() > 0 && s[0] == '-';
    let body = if neg {
        s.skip(1)
    } else {
        s
    };
    let d = find_dot(body, 0);
    if d == body.len() {
        if body.len() >= 1 && all_digits(body) && num_of(body) * SCALE as int <= MAX_RAW as int {
            Some(canon_fixed(neg, num_of(body) * SCALE as int))
        } else {
            None
        }
    } else {
        let ip = body.take(d);
        let fp = body.skip(d + 1);
        let raw = num_of(ip) * SCALE as int + num_of(fp) * pow10((9 - fp.len()) as nat) as int;
        if ip.len() >= 1 && 1 <= fp.len() <= 9 && all_digits(ip) && all_digits(fp) && raw
            <= MAX_RAW as int {
            Some(canon_fixed(neg, raw))
        } else {
            None
        }
    }
}

pub open spec fn canon_fixed(neg: bool, raw: int) -> Fixed {
    Fixed { neg: neg && raw > 0, mag: raw as u128 }
}

/// The canonical text of a scalar.
pub open spec fn render_fixed_spec(f: Fixed) -> Seq<char> {
    let sign = if f.neg {
        seq!['-']
    } else {
        Seq::<char>::empty()
    };
    let ip = digits_of((f.mag / SCALE) as nat);
    let fr = (f.mag % SCALE) as nat;
    if fr == 0 {
        sign + ip
    } else {
        sign + ip + seq!['.'] + trim_zeros(digits_k(fr, 9))
    }
}

proof fn lemma_digits_of(n: nat)
    ensures
        digits_of(n).len() >= 1,
        all_digits(digits_of(n)),
        num_of(digits_of(n)) == n,
    decreases n,
{
    if n < 10 {
        let s = seq![digit_char(n as int)];
        assert(digits_of(n) == s);
        assert(s.drop_last() =~= Seq::<char>::empty());
        assert(num_of(Seq::<char>::empty()) == 0);
        assert(s.last() == digit_char(n as int));
        assert(digit_val(digit_char(n as int)) == n);
        assert(num_of(s) == num_of(s.drop_last()) * 10 + digit_val(s.last()));
    } else {
        lemma_digits_of(n / 10);
        let s = digits_of(n / 10);
        let c = digit_char((n % 10) as int);
        assert(s.push(c).drop_last() =~= s);
        assert(s.push(c).last() == c);
        assert(digit_val(c) == n % 10);
        assert(num_of(digits_of(n)) == (n / 10) * 10 + n % 10);
        assert(n == 10 * (n / 10) + n % 10) by {
            vstd::arithmetic::div_mod::lemma_fundamental_div_mod(n as int, 10);
        }
        assert forall|i: int| 0 <= i < s.push(c).len() implies is_digit(#[trigger] s.push(c)[i]) by {
            if i < s.len() {
                assert(s.push(c)[i] == s[i]);
            }
        }
    }
}

proof fn lemma_pow10_mono(a: nat, b: nat)
    requires
        a <= b,
    ensures
        pow10(a) <= pow10(b),
    decreases b,
{
    if a < b {
        lemma_pow10_mono(a, (b - 1) as nat);
        lemma_pow10_pos((b - 1) as nat);
    }
}

proof fn lemma_pow10_pos(k: nat)
    ensures
        pow10(k) >= 1,
    decreases k,
{
    if k > 0 {
        lemma_pow10_pos((k - 1) as nat);
    }
}

proof fn lemma_digits_k(n: nat, k: nat)
    ensures
        digits_k(n, k).len() == k,
        all_digits(digits_k(n, k)),
        num_of(digits_k(n, k)) == n % pow10(k),
    decreases k,
{
    if k == 0 {
        assert(n % 1 == 0) by {
            vstd::arithmetic::div_mod::lemma_small_mod(0, 1);
            vstd::arithmetic::div_mod::lemma_mod_multiples_basic(n as int, 1);
        }
    } else {
        lemma_digits_k(n / 10, (k - 1) as nat);
        lemma_pow10_pos((k - 1) as nat);
        let s = digits_k(n / 10, (k - 1) as nat);
        let c = digit_char((n % 10) as int);
        assert(digits_k(n, k) == s.push(c));
        assert(s.push(c).drop_last() =~= s);
        assert(s.push(c).last() == c);
        assert(digit_val(c) == n % 10);
        assert(num_of(s.push(c)) == num_of(s) * 10 + digit_val(c));
        assert(num_of(digits_k(n, k)) == ((n / 10) % pow10((k - 1) as nat)) * 10 + n % 10);
        assert(pow10(k) == 10 * pow10((k - 1) as nat));
        assert((n as int) % (10 * pow10((k - 1) as nat) as int) == 10 * ((n as int / 10) % (pow10(
            (k - 1) as nat,
        ) as int)) + (n as int) % 10) by {
            vstd::arithmetic::div_mod::lemma_mod_breakdown(
                n as int,
                10,
                pow10((k - 1) as nat) as int,
            );
        }
        assert forall|i: int| 0 <= i < s.push(c).len() implies is_digit(#[trigger] s.push(c)[i]) by {
            if i < s.len() {
                assert(s.push(c)[i] == s[i]);
            }
        }
    }
}

proof fn lemma_num_nonneg(s: Seq<char>)
    ensures
        num_of(s) >= 0,
    decreases s.len(),
{
    if s.len() > 0 {
        lemma_num_nonneg(s.drop_last());
    }
}

/// Trimming trailing zeros divides the value by the matching power of ten.
proof fn lemma_trim_zeros(s: Seq<char>)
    requires
        all_digits(s),
    ensures
        trim_zeros(s).len() <= s.len(),
        trim_zeros(s) =~= s.take(trim_zeros(s).len() as int),
        all_digits(trim_zeros(s)),
        num_of(trim_zeros(s)) * pow10((s.len() - trim_zeros(s).len()) as nat) == num_of(s),
        num_of(s) > 0 ==> trim_zeros(s).len() > 0,
    decreases s.len(),
{
    if s.len() == 0 {
        assert(trim_zeros(s) == Seq::<char>::empty());
        assert(num_of(Seq::<char>::empty()) == 0);
        assert(s.take(0) =~= Seq::<char>::empty());
    } else if s.last() == '0' {
        let s2 = s.drop_last();
        assert(all_digits(s2)) by {
            assert(forall|i: int| 0 <= i < s2.len() ==> s2[i] == s[i]);
        }
        lemma_trim_zeros(s2);
        let t = trim_zeros(s);
        assert(t == trim_zeros(s2));
        assert(digit_val(s.last()) == 0);
        assert(num_of(s) == num_of(s2) * 10);
        let p2 = pow10((s2.len() - t.len()) as nat);
        assert(pow10((s.len() - t.len()) as nat) == 10 * p2);
        assert(num_of(t) * (10 * p2) == (num_of(t) * p2) * 10) by (nonlinear_arith);
        assert(num_of(t) * p2 == num_of(s2));
        assert(num_of(t) * pow10((s.len() - t.len()) as nat) == num_of(s2) * 10);
        assert(t =~= s.take(t.len() as int)) by {
            assert(t =~= s2.take(t.len() as int));
            assert(forall|i: int| 0 <= i < t.len() ==> s2.take(t.len() as int)[i] == s.take(
                t.len() as int,
            )[i]);
        }
    } else {
        assert(trim_zeros(s) == s);
        assert(s =~= s.take(s.len() as int));
        assert(pow10(0) == 1);
        assert(num_of(s) * 1 == num_of(s)) by (nonlinear_arith);
    }
}

/// A string of digits contains no dot.
proof fn lemma_find_dot_none(s: Seq<char>, i: int)
    requires
        0 <= i <= s.len(),
        all_digits(s),
    ensures
        find_dot(s, i) == s.len(),
    decreases s.len() - i,
{
    if i < s.len() {
        assert(is_digit(s[i]));
        lemma_find_dot_none(s, i + 1);
    }
}

/// The first dot is where the first dot is.
proof fn lemma_find_dot_at(s: Seq<char>, i: int, p: int)
    requires
        0 <= i <= p <= s.len(),
        forall|k: int| i <= k < p ==> s[k] != '.',
        p < s.len() ==> s[p] == '.',
    ensures
        find_dot(s, i) == if p < s.len() {
            p
        } else {
            s.len() as int
        },
    decreases p - i,
{
    if i < p {
        lemma_find_dot_at(s, i + 1, p);
    }
}

proof fn lemma_pow10_adds(a: nat, b: nat)
    ensures
        pow10(a) * pow10(b) == pow10((a + b) as nat),
    decreases a,
{
    if a == 0 {
        assert(pow10(0) == 1);
    } else {
        lemma_pow10_adds((a - 1) as nat, b);
        assert((10 * pow10((a - 1) as nat)) * pow10(b) == 10 * (pow10((a - 1) as nat) * pow10(b)))
            by (nonlinear_arith);
    }
}

/// A longer digit prefix never has a smaller value.
proof fn lemma_num_prefix_mono(s: Seq<char>, t: int)
    requires
        all_digits(s),
        0 <= t <= s.len(),
    ensures
        num_of(s.take(t)) <= num_of(s),
    decreases s.len() - t,
{
    if t == s.len() {
        assert(s.take(t) =~= s);
    } else {
        lemma_num_prefix_mono(s, t + 1);
        lemma_num_nonneg(s.take(t));
        assert(s.take(t + 1).drop_last() =~= s.take(t));
        assert(s.take(t + 1).last() == s[t]);
        assert(digit_val(s[t]) >= 0);
        assert(num_of(s.take(t + 1)) == num_of(s.take(t)) * 10 + digit_val(s[t]));
    }
}

/// Parsing undoes rendering: the codec is lossless on well-formed scalars.
pub proof fn lemma_parse_render(f: Fixed)
    requires
        f.wf(),
    ensures
        parse_fixed_spec(render_fixed_spec(f)) == Some(f),
{
    let ip = (f.mag / SCALE) as nat;
    let fr = (f.mag % SCALE) as nat;
    let ipd = digits_of(ip);
    lemma_digits_of(ip);
    let s = render_fixed_spec(f);
    assert(f.mag == SCALE * ip + fr) by {
        vstd::arithmetic::div_mod::lemma_fundamental_div_mod(f.mag as int, SCALE as int);
    }
    assert(ip * SCALE <= MAX_RAW) by (nonlinear_arith)
        requires
            SCALE * ip + fr == f.mag,
            f.mag <= MAX_RAW,
            fr >= 0,
    ;
    if fr == 0 {
        let body = if f.neg {
            s.skip(1)
        } else {
            s
        };
        assert(body =~= ipd);
        assert(!is_digit('-'));
        if f.neg {
            assert(s[0] == '-');
        } else {
            assert(is_digit(s[0]));
            assert(s[0] != '-');
        }
        lemma_find_dot_none(body, 0);
        assert(num_of(body) * SCALE as int == ip * SCALE);
        assert(parse_fixed_spec(s) == Some(canon_fixed(f.neg, ip * SCALE as int)));
        assert(canon_fixed(f.neg, ip * SCALE as int) == f);
    } else {
        lemma_digits_k(fr, 9);
        assert(pow10(9) == SCALE) by {
            reveal_with_fuel(pow10, 10);
        }
        assert(fr % pow10(9) == fr) by {
            vstd::arithmetic::div_mod::lemma_small_mod(fr, pow10(9));
        }
        let f9 = digits_k(fr, 9);
        lemma_trim_zeros(f9);
        let fpd = trim_zeros(f9);
        lemma_num_nonneg(fpd);
        assert(num_of(f9) == fr);
        assert(fpd.len() >= 1);
        let body = if f.neg {
            s.skip(1)
        } else {
            s
        };
        assert(body =~= ipd + seq!['.'] + fpd);
        assert(!is_digit('-'));
        if f.neg {
            assert(s[0] == '-');
        } else {
            assert(body[0] == ipd[0]);
            assert(is_digit(body[0]));
            assert(s[0] != '-');
        }
        let d = ipd.len() as int;
        assert forall|k: int| 0 <= k < d implies body[k] != '.' by {
            assert(body[k] == ipd[k]);
            assert(is_digit(ipd[k]));
        }
        assert(body[d] == '.');
        lemma_find_dot_at(body, 0, d);
        assert(find_dot(body, 0) == d);
        assert(body.take(d) =~= ipd);
        assert(body.skip(d + 1) =~= fpd);
        let raw = num_of(ipd) * SCALE as int + num_of(fpd) * pow10((9 - fpd.len()) as nat) as int;
        assert(num_of(fpd) * pow10((9 - fpd.len()) as nat) == fr);
        assert(raw == ip * SCALE + fr);
        assert(raw == f.mag);
        assert(parse_fixed_spec(s) == Some(canon_fixed(f.neg, raw)));
        assert(canon_fixed(f.neg, raw) == f);
    }
}

fn digit_to_char(d: u128) -> (c: char)
    requires
        d < 10,
    ensures
        c == digit_char(d as int),
{
    if d == 0 {
        '0'
    } else if d == 1 {
        '1'
    } else if d == 2 {
        '2'
    } else if d == 3 {
        '3'
    } else if d == 4 {
        '4'
    } else if d == 5 {
        '5'
    } else if d == 6 {
        '6'
    } else if d == 7 {
        '7'
    } else if d == 8 {
        '8'
    } else {
        '9'
    }
}

fn is_digit_exec(c: char) -> (r: bool)
    ensures
        r == is_digit(c),
{
    c == '0' || c == '1' || c == '2' || c == '3' || c == '4' || c == '5' || c == '6' || c == '7'
        || c == '8' || c == '9'
}

fn digit_val_exec(c: char) -> (r: u128)
    requires
        is_digit(c),
    ensures
        r == digit_val(c),
        r < 10,
{
    if c == '0' {
        0
    } else if c == '1' {
        1
    } else if c == '2' {
        2
    } else if c == '3' {
        3
    } else if c == '4' {
        4
    } else if c == '5' {
        5
    } else if c == '6' {
        6
    } else if c == '7' {
        7
    } else if c == '8' {
        8
    } else {
        9
    }
}

fn pow10_exec(k: usize) -> (r: u128)
    requires
        k <= 9,
    ensures
        r as nat == pow10(k as nat),
        r <= 1_000_000_000,
{
    proof {
        reveal_with_fuel(pow10, 11);
    }
    if k == 0 {
        1
    } else if k == 1 {
        10
    } else if k == 2 {
        100
    } else if k == 3 {
        1_000
    } else if k == 4 {
        10_000
    } else if k == 5 {
        100_000
    } else if k == 6 {
        1_000_000
    } else if k == 7 {
        10_000_000
    } else if k == 8 {
        100_000_000
    } else {
        1_000_000_000
    }
}

fn push_digits(n: u128, out: &mut Vec<char>)
    ensures
        final(out)@ == old(out)@ + digits_of(n as nat),
    decreases n,
{
    if n < 10 {
        out.push(digit_to_char(n));
        assert(out@ =~= old(out)@ + digits_of(n as nat));
    } else {
        push_digits(n / 10, out);
        out.push(digit_to_char(n % 10));
        assert(out@ =~= old(out)@ + digits_of(n as nat));
    }
}

fn push_digits_k(n: u128, k: usize, out: &mut Vec<char>)
    ensures
        final(out)@ == old(out)@ + digits_k(n as nat, k as nat),
    decreases k,
{
    if k == 0 {
        assert(out@ =~= old(out)@ + digits_k(n as nat, 0));
    } else {
        push_digits_k(n / 10, k - 1, out);
        out.push(digit_to_char(n % 10));
        assert(out@ =~= old(out)@ + digits_k(n as nat, k as nat));
    }
}

/// The canonical decimal text of a scalar, as characters.
#[verifier::loop_isolation(false)]
pub fn render_fixed_chars(f: Fixed) -> (v: Vec<char>)
    requires
        f.wf(),
    ensures
        v@ == render_fixed_spec(f),
{
    let mut out: Vec<char> = Vec::new();
    if f.neg {
        out.push('-');
    }
    let ghost head = out@;
    push_digits(f.mag / SCALE, &mut out);
    let fr = f.mag % SCALE;
    if fr > 0 {
        out.push('.');
        let mut tail: Vec<char> = Vec::new();
        push_digits_k(fr, 9, &mut tail);
        assert(tail@ == digits_k(fr as nat, 9));
        while tail.len() > 0 && tail[tail.len() - 1] == '0'
            invariant
                trim_zeros(tail@) == trim_zeros(digits_k(fr as nat, 9)),
            decreases tail.len(),
        {
            let ghost before = tail@;
            tail.pop();
            assert(tail@ == before.drop_last());
        }
        assert(trim_zeros(tail@) == tail@);
        let mut q: usize = 0;
        let ghost mid = out@;
        while q < tail.len()
            invariant
                0 <= q <= tail.len(),
                out@ == mid + tail@.take(q as int),
            decreases tail.len() - q,
        {
            out.push(tail[q]);
            assert(out@ =~= mid + tail@.take(q as int + 1));
            q = q + 1;
        }
        assert(tail@.take(tail@.len() as int) =~= tail@);
        assert(out@ =~= render_fixed_spec(f));
    } else {
        assert(out@ =~= render_fixed_spec(f));
    }
    out
}

/// Read a scalar from decimal text, as characters.
#[verifier::loop_isolation(false)]
#[verifier::rlimit(100)]
#[verifier::spinoff_prover]
pub fn parse_fixed_chars(v: &Vec<char>) -> (r: Option<Fixed>)
    ensures
        r == parse_fixed_spec(v@),
        r matches Some(f) ==> f.wf(),
{
    let ghost s = v@;
    let n = v.len();
    let neg = n > 0 && v[0] == '-';
    let off: usize = if neg {
        1
    } else {
        0
    };
    let ghost body = if neg {
        s.skip(1)
    } else {
        s
    };
    assert(body.len() == n - off);
    assert(forall|k: int| 0 <= k < body.len() ==> body[k] == s[k + off]);

    // locate the first dot
    let mut j: usize = off;
    while j < n && v[j] != '.'
        invariant
            off <= j <= n,
            n == s.len(),
            forall|k: int| off <= k < j ==> s[k] != '.',
        decreases n - j,
    {
        j = j + 1;
    }
    let dot = j;
    proof {
        lemma_find_dot_at(body, 0, dot - off);
    }
    let ghost drel = find_dot(body, 0);
    assert(drel == if dot < n {
        dot - off
    } else {
        body.len() as int
    });
    let ghost ip = if drel == body.len() {
        body
    } else {
        body.take(drel)
    };
    assert(body.take(body.len() as int) =~= body);
    assert(ip =~= body.take(dot - off));

    if dot == off {
        // empty integer part
        return None;
    }
    // read the integer part
    let mut acc: u128 = 0;
    let mut i: usize = off;
    while i < dot
        invariant
            off <= i <= dot <= n,
            n == s.len(),
            body.len() == n - off,
            forall|k: int| 0 <= k < body.len() ==> body[k] == s[k + off],
            ip =~= body.take(dot - off),
            acc as int == num_of(ip.take(i - off)),
            acc <= 10_000_000_000,
            all_digits(ip.take(i - off)),
        decreases dot - i,
    {
        let c = v[i];
        assert(c == ip[i - off]);
        if !is_digit_exec(c) {
            assert(!all_digits(ip));
            return None;
        }
        let d = digit_val_exec(c);
        let acc2 = acc * 10 + d;
        proof {
            assert(ip.take(i - off + 1).drop_last() =~= ip.take(i - off));
            assert(ip.take(i - off + 1).last() == ip[i - off]);
        }
        if acc2 > 10_000_000_000 {
            proof {
                if all_digits(ip) {
                    lemma_num_prefix_mono(ip, i - off + 1);
                    assert(num_of(ip) >= acc2);
                    assert(num_of(ip) * SCALE as int > MAX_RAW as int) by (nonlinear_arith)
                        requires
                            num_of(ip) >= 10_000_000_001,
                    ;
                    let fps = body.skip(drel + 1);
                    lemma_num_nonneg(fps);
                    let pw = pow10((9 - fps.len()) as nat) as int;
                    assert(num_of(fps) * pw >= 0) by (nonlinear_arith)
                        requires
                            num_of(fps) >= 0,
                            pw >= 0,
                    ;
                }
            }
            return None;
        }
        acc = acc2;
        i = i + 1;
        assert(all_digits(ip.take(i - off))) by {
            assert(forall|k: int|
                0 <= k < i - off - 1 ==> #[trigger] ip.take(i - off)[k] == ip.take(i - off - 1)[k]);
        }
    }
    assert(ip.take(dot - off) =~= ip);
    assert(acc as int == num_of(ip));
    assert(all_digits(ip));

    if dot == n {
        // no fraction
        proof {
            assert(acc * SCALE <= MAX_RAW) by (nonlinear_arith)
                requires
                    acc <= 10_000_000_000u128,
                    SCALE == 1_000_000_000u128,
                    MAX_RAW == 10_000_000_000_000_000_000u128,
            ;
        }
        let raw = acc * SCALE;
        let out = Fixed { neg: neg && raw > 0, mag: raw };
        proof {
            lemma_num_nonneg(body);
        }
        assert(Some(out) == parse_fixed_spec(s));
        return Some(out);
    }
    // read the fraction
    let fl = n - dot - 1;
    let ghost fp = body.skip(dot - off + 1);
    assert(fp.len() == fl);
    assert(forall|k: int| 0 <= k < fp.len() ==> fp[k] == s[k + dot + 1]);
    if fl < 1 || fl > 9 {
        return None;
    }
    let mut facc: u128 = 0;
    let mut t: usize = dot + 1;
    while t < n
        invariant
            dot + 1 <= t <= n,
            n == s.len(),
            fp.len() == n - dot - 1,
            forall|k: int| 0 <= k < fp.len() ==> fp[k] == s[k + dot + 1],
            facc as int == num_of(fp.take(t - dot - 1)),
            (facc as nat) < pow10((t - dot - 1) as nat),
            all_digits(fp.take(t - dot - 1)),
        decreases n - t,
    {
        let c = v[t];
        assert(c == fp[t - dot - 1]);
        if !is_digit_exec(c) {
            assert(!all_digits(fp));
            return None;
        }
        let d = digit_val_exec(c);
        proof {
            assert(fp.take(t - dot) .drop_last() =~= fp.take(t - dot - 1));
            assert(fp.take(t - dot).last() == fp[t - dot - 1]);
            assert(pow10((t - dot) as nat) == 10 * pow10((t - dot - 1) as nat));
            lemma_pow10_mono((t - dot - 1) as nat, 8);
            reveal_with_fuel(pow10, 11);
            assert(pow10(8) == 100_000_000);
        }
        facc = facc * 10 + d;
        t = t + 1;
        assert(all_digits(fp.take(t - dot - 1))) by {
            assert(forall|k: int|
                0 <= k < t - dot - 2 ==> #[trigger] fp.take(t - dot - 1)[k] == fp.take(t - dot - 2)[k]);
        }
    }
    assert(fp.take(fp.len() as int) =~= fp);
    assert(facc as int == num_of(fp));
    assert(all_digits(fp));
    let p = pow10_exec(9 - fl);
    proof {
        lemma_pow10_adds(fl as nat, (9 - fl) as nat);
        reveal_with_fuel(pow10, 11);
        assert(facc * p < SCALE) by (nonlinear_arith)
            requires
                (facc as nat) < pow10(fl as nat),
                p as nat == pow10((9 - fl) as nat),
                pow10(fl as nat) * pow10((9 - fl) as nat) == pow10(9),
                pow10(9) == SCALE,
        ;
        assert(acc * SCALE <= MAX_RAW) by (nonlinear_arith)
            requires
                acc <= 10_000_000_000u128,
                SCALE == 1_000_000_000u128,
                MAX_RAW == 10_000_000_000_000_000_000u128,
        ;
    }
    let raw = acc * SCALE + facc * p;
    if raw > MAX_RAW {
        return None;
    }
    let out = Fixed { neg: neg && raw > 0, mag: raw };
    proof {
        lemma_num_nonneg(ip);
        lemma_num_nonneg(fp);
    }
    assert(Some(out) == parse_fixed_spec(s));
    Some(out)
}

/// Read a scalar from decimal text.
pub fn parse_number(s: &str) -> (r: Option<Fixed>)
    ensures
        r == parse_fixed_spec(s@),
        r matches Some(f) ==> f.wf(),
{
    let v = str_to_chars(s);
    parse_fixed_chars(&v)
}

/// The canonical decimal text of a scalar.
pub fn render_number(f: Fixed) -> (s: String)
    requires
        f.wf(),
    ensures
        s@ == render_fixed_spec(f),
{
    let v = render_fixed_chars(f);
    chars_to_string(&v)
}

} // verus!
