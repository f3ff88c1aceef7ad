use vstd::prelude::*;

verus! {

/// The lowercase hexadecimal digit for `d`.
pub open spec fn digit_char(d: nat) -> char {
    if d == 0 { '0' } else if d == 1 { '1' } else if d == 2 { '2' } else if d == 3 { '3' }
    else if d == 4 { '4' } else if d == 5 { '5' } else if d == 6 { '6' } else if d == 7 { '7' }
    else if d == 8 { '8' } else if d == 9 { '9' } else if d == 10 { 'a' } else if d == 11 { 'b' }
    else if d == 12 { 'c' } else if d == 13 { 'd' } else if d == 14 { 'e' } else { 'f' }
}

/// `n` written in `base` (10 or 16) without leading zeros.
pub open spec fn num_text(n: nat, base: nat) -> Seq<char>
    decreases n via num_text_decreases
{
    if base < 2 || n < base {
        seq![digit_char(n)]
    } else {
        num_text(n / base, base).push(digit_char(n % base))
    }
}

#[via_fn]
proof fn num_text_decreases(n: nat, base: nat) {
    if !(base < 2 || n < base) {
        assert(n / base < n) by (nonlinear_arith)
            requires
                base >= 2,
                n >= base,
        ;
    }
}

/// `n` in decimal.
pub open spec fn dec_text(n: nat) -> Seq<char> {
    num_text(n, 10)
}

/// `n` in lowercase hexadecimal.
pub open spec fn hex_text(n: nat) -> Seq<char> {
    num_text(n, 16)
}

fn digit_str(d: u64) -> (r: &'static str)
    requires
        d < 16,
    ensures
        r@ == seq![digit_char(d as nat)],
{
    proof {
        reveal_strlit("0"); reveal_strlit("1"); reveal_strlit("2"); reveal_strlit("3");
        reveal_strlit("4"); reveal_strlit("5"); reveal_strlit("6"); reveal_strlit("7");
        reveal_strlit("8"); reveal_strlit("9"); reveal_strlit("a"); reveal_strlit("b");
        reveal_strlit("c"); reveal_strlit("d"); reveal_strlit("e"); reveal_strlit("f");
    }
    let r = if d == 0 { "0" } else if d == 1 { "1" } else if d == 2 { "2" } else if d == 3 { "3" }
    else if d == 4 { "4" } else if d == 5 { "5" } else if d == 6 { "6" } else if d == 7 { "7" }
    else if d == 8 { "8" } else if d == 9 { "9" } else if d == 10 { "a" } else if d == 11 { "b" }
    else if d == 12 { "c" } else if d == 13 { "d" } else if d == 14 { "e" } else { "f" };
    assert(r@ =~= seq![digit_char(d as nat)]);
    r
}

/// Appends `n`, written in `base`, to `s`.
pub fn push_num(s: &mut String, n: u64, base: u64)
    requires
        base == 10 || base == 16,
    ensures
        final(s)@ == old(s)@ + num_text(n as nat, base as nat),
    decreases n,
{
    if n < base {
        s.append(digit_str(n));
    } else {
        push_num(s, n / base, base);
        s.append(digit_str(n % base));
        assert(num_text(n as nat, base as nat) == num_text((n / base) as nat, base as nat).push(
            digit_char((n % base) as nat),
        ));
    }
    assert(final(s)@ =~= old(s)@ + num_text(n as nat, base as nat));
}

/// Appends a string literal to `s`.
pub fn push_str(s: &mut String, t: &str)
    ensures
        final(s)@ == old(s)@ + t@,
{
    s.append(t);
}

/// Dotted-quad text of four address bytes.
pub open spec fn ipv4_text(b: Seq<u8>) -> Seq<char> {
    dec_text(b[0] as nat) + seq!['.'] + dec_text(b[1] as nat) + seq!['.'] + dec_text(b[2] as nat)
        + seq!['.'] + dec_text(b[3] as nat)
}

/// Appends the dotted-quad text of `b` to `s`.
pub fn push_ipv4(s: &mut String, b: &[u8; 4])
    ensures
        final(s)@ == old(s)@ + ipv4_text(b@),
{
    let ghost s0 = s@;
    proof { reveal_strlit("."); }
    push_num(s, b[0] as u64, 10);
    push_str(s, ".");
    push_num(s, b[1] as u64, 10);
    push_str(s, ".");
    push_num(s, b[2] as u64, 10);
    push_str(s, ".");
    push_num(s, b[3] as u64, 10);
    assert(s@ =~= s0 + ipv4_text(b@));
}

/// The eight 16-bit groups of an IPv6 address, most significant byte first.
pub open spec fn ipv6_groups(b: Seq<u8>) -> Seq<u16> {
    Seq::new(8, |i: int| (b[2 * i] as u16 * 256 + b[2 * i + 1] as u16) as u16)
}

/// Length of the run of zero groups that ends just before index `i`.
pub open spec fn zero_run(g: Seq<u16>, i: int) -> int
    decreases i,
{
    if i <= 0 {
        0
    } else if g[i - 1] == 0 {
        zero_run(g, i - 1) + 1
    } else {
        0
    }
}

/// The first longest run of zero groups among the first `i` groups, as (start, length).
pub open spec fn longest_zero_run(g: Seq<u16>, i: int) -> (int, int)
    decreases i,
{
    if i <= 0 {
        (0, 0)
    } else {
        let prev = longest_zero_run(g, i - 1);
        if g[i - 1] == 0 && zero_run(g, i) > prev.1 {
            (i - zero_run(g, i), zero_run(g, i))
        } else {
            prev
        }
    }
}

/// Groups in hexadecimal, separated by colons.
pub open spec fn groups_text(g: Seq<u16>) -> Seq<char>
    decreases g.len(),
{
    if g.len() == 0 {
        Seq::empty()
    } else if g.len() == 1 {
        hex_text(g[0] as nat)
    } else {
        groups_text(g.drop_last()) + seq![':'] + hex_text(g.last() as nat)
    }
}

/// Whether the address is an IPv4 address mapped into IPv6 (`::ffff:a.b.c.d`).
pub open spec fn is_ipv4_mapped(b: Seq<u8>) -> bool {
    (forall|i: int| 0 <= i < 10 ==> b[i] == 0) && b[10] == 0xff && b[11] == 0xff
}

/// Text of an IPv6 address: mapped IPv4 addresses as `::ffff:a.b.c.d`; otherwise
/// the groups in hexadecimal with the first longest run of two or more zero groups
/// shortened to `::`.
pub open spec fn ipv6_text(b: Seq<u8>) -> Seq<char> {
    if is_ipv4_mapped(b) {
        seq![':', ':', 'f', 'f', 'f', 'f', ':'] + ipv4_text(b.subrange(12, 16))
    } else {
        let g = ipv6_groups(b);
        let run = longest_zero_run(g, 8);
        if run.1 > 1 {
            groups_text(g.subrange(0, run.0)) + seq![':', ':'] + groups_text(
                g.subrange(run.0 + run.1, 8),
            )
        } else {
            groups_text(g)
        }
    }
}

fn push_groups(s: &mut String, g: &Vec<u16>, lo: usize, hi: usize)
    requires
        lo <= hi <= g@.len(),
    ensures
        final(s)@ == old(s)@ + groups_text(g@.subrange(lo as int, hi as int)),
{
    let ghost s0 = s@;
    proof { reveal_strlit(":"); }
    let mut k: usize = lo;
    while k < hi
        invariant
            lo <= k <= hi <= g@.len(),
            s@ == s0 + groups_text(g@.subrange(lo as int, k as int)),
        decreases hi - k,
    {
        let ghost before = s@;
        let ghost sub = g@.subrange(lo as int, k + 1);
        proof {
            assert(sub.drop_last() =~= g@.subrange(lo as int, k as int));
            assert(sub.last() == g@[k as int]);
        }
        if k > lo {
            proof { reveal_strlit(":"); }
            push_str(s, ":");
            assert(s@ =~= before + seq![':']);
            push_num(s, g[k] as u64, 16);
            assert(s@ =~= before + seq![':'] + hex_text(g@[k as int] as nat));
            assert(groups_text(sub) == groups_text(sub.drop_last()) + seq![':'] + hex_text(
                sub.last() as nat,
            ));
            assert(s@ =~= s0 + groups_text(sub));
        } else {
            push_num(s, g[k] as u64, 16);
            assert(sub.len() == 1);
            assert(groups_text(sub) == hex_text(sub[0] as nat));
            assert(s0 == before);
            assert(s@ =~= s0 + groups_text(sub));
        }
        k = k + 1;
    }
}

/// Appends the text of an IPv6 address to `s`.
pub fn push_ipv6(s: &mut String, b: &[u8; 16])
    ensures
        final(s)@ == old(s)@ + ipv6_text(b@),
{
    let ghost s0 = s@;
    let mut mapped = b[10] == 0xff && b[11] == 0xff;
    let mut j: usize = 0;
    while j < 10
        invariant
            0 <= j <= 10,
            mapped == (b@[10] == 0xff && b@[11] == 0xff && forall|i: int| 0 <= i < j ==> b@[i] == 0),
        decreases 10 - j,
    {
        if b[j] != 0 {
            mapped = false;
        }
        j = j + 1;
    }
    if mapped {
        proof { reveal_strlit("::ffff:"); }
        push_str(s, "::ffff:");
        let quad: [u8; 4] = [b[12], b[13], b[14], b[15]];
        assert(quad@ =~= b@.subrange(12, 16));
        push_ipv4(s, &quad);
        assert(s@ =~= s0 + ipv6_text(b@));
        return;
    }
    let mut g: Vec<u16> = Vec::new();
    let mut i: usize = 0;
    while i < 8
        invariant
            0 <= i <= 8,
            g@.len() == i,
            forall|k: int| 0 <= k < i ==> g@[k] == ipv6_groups(b@)[k],
        decreases 8 - i,
    {
        g.push(b[2 * i] as u16 * 256 + b[2 * i + 1] as u16);
        i = i + 1;
    }
    assert(g@ =~= ipv6_groups(b@));
    let mut best_start: usize = 0;
    let mut best_len: usize = 0;
    let mut cur: usize = 0;
    let mut k: usize = 0;
    while k < 8
        invariant
            0 <= k <= 8,
            g@ == ipv6_groups(b@),
            cur as int == zero_run(g@, k as int),
            (best_start as int, best_len as int) == longest_zero_run(g@, k as int),
            cur <= k,
        decreases 8 - k,
    {
        if g[k] == 0 {
            cur = cur + 1;
            if cur > best_len {
                best_start = k + 1 - cur;
                best_len = cur;
            }
        } else {
            cur = 0;
        }
        k = k + 1;
    }
    proof { lemma_run_bounds(g@, 8); }
    if best_len > 1 {
        proof { reveal_strlit("::"); }
        push_groups(s, &g, 0, best_start);
        push_str(s, "::");
        push_groups(s, &g, best_start + best_len, 8);
    } else {
        push_groups(s, &g, 0, 8);
        assert(g@.subrange(0, 8) =~= g@);
    }
    assert(s@ =~= s0 + ipv6_text(b@));
}

proof fn lemma_run_bounds(g: Seq<u16>, i: int)
    requires
        0 <= i,
    ensures
        0 <= longest_zero_run(g, i).0,
        0 <= longest_zero_run(g, i).1,
        longest_zero_run(g, i).0 + longest_zero_run(g, i).1 <= i,
        0 <= zero_run(g, i) <= i,
    decreases i,
{
    if i > 0 {
        lemma_run_bounds(g, i - 1);
    }
}

} // verus!
