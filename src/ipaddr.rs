use vstd::prelude::*;

verus! {

pub const NEWLINE: u8 = 10;

pub const DOT: u8 = 46;

pub const SLASH: u8 = 47;

/// Whether `b` is ASCII white space.
pub open spec fn is_space(b: u8) -> bool {
    b == 32 || (9 <= b && b <= 13)
}

pub open spec fn is_digit(b: u8) -> bool {
    48 <= b && b <= 57
}

pub open spec fn digit(b: u8) -> int {
    b - 48
}

/// Index of the first byte equal to `b` at or after `i`, or the length.
pub open spec fn find_byte(s: Seq<u8>, i: int, b: u8) -> int
    decreases s.len() - i,
{
    if i < 0 || i >= s.len() {
        s.len() as int
    } else if s[i] == b {
        i
    } else {
        find_byte(s, i + 1, b)
    }
}

/// Index of the first white-space byte at or after `i`, or the length.
pub open spec fn word_end(s: Seq<u8>, i: int) -> int
    decreases s.len() - i,
{
    if i < 0 || i >= s.len() {
        s.len() as int
    } else if is_space(s[i]) {
        i
    } else {
        word_end(s, i + 1)
    }
}

proof fn lemma_find_byte_bounds(s: Seq<u8>, i: int, b: u8)
    requires
        0 <= i <= s.len(),
    ensures
        i <= find_byte(s, i, b) <= s.len(),
        find_byte(s, i, b) < s.len() ==> s[find_byte(s, i, b)] == b,
        forall|k: int| i <= k < find_byte(s, i, b) ==> s[k] != b,
    decreases s.len() - i,
{
    if i < s.len() && s[i] != b {
        lemma_find_byte_bounds(s, i + 1, b);
    }
}

proof fn lemma_word_end_bounds(s: Seq<u8>, i: int)
    requires
        0 <= i <= s.len(),
    ensures
        i <= word_end(s, i) <= s.len(),
        forall|k: int| i <= k < word_end(s, i) ==> !is_space(s[k]),
    decreases s.len() - i,
{
    if i < s.len() && !is_space(s[i]) {
        lemma_word_end_bounds(s, i + 1);
    }
}

/// Whether `pat` occurs in `s` at index `k`.
pub open spec fn occurs_at(s: Seq<u8>, pat: Seq<u8>, k: int) -> bool {
    0 <= k && k + pat.len() <= s.len() && s.subrange(k, k + pat.len()) == pat
}

/// Whether `pat` occurs in `s`.
pub open spec fn contains_bytes(s: Seq<u8>, pat: Seq<u8>) -> bool {
    exists|k: int| occurs_at(s, pat, k)
}

/// The value of a decimal octet: one to three digits, no leading zero, at
/// most 255.
pub open spec fn octet_of(t: Seq<u8>) -> Option<int> {
    if 1 <= t.len() <= 3 && (forall|k: int| 0 <= k < t.len() ==> is_digit(#[trigger] t[k])) && (
    t.len() > 1 ==> t[0] != 48) {
        let v = if t.len() == 1 {
            digit(t[0])
        } else if t.len() == 2 {
            digit(t[0]) * 10 + digit(t[1])
        } else {
            digit(t[0]) * 100 + digit(t[1]) * 10 + digit(t[2])
        };
        if v <= 255 {
            Some(v)
        } else {
            None
        }
    } else {
        None
    }
}

/// The IPv4 address written in `w` as four dot-separated decimal octets,
/// in host byte order.
pub open spec fn ipv4_of(w: Seq<u8>) -> Option<u32> {
    let d1 = find_byte(w, 0, DOT);
    let d2 = find_byte(w, d1 + 1, DOT);
    let d3 = find_byte(w, d2 + 1, DOT);
    if d3 < w.len() && find_byte(w, d3 + 1, DOT) == w.len() {
        match (
            octet_of(w.subrange(0, d1)),
            octet_of(w.subrange(d1 + 1, d2)),
            octet_of(w.subrange(d2 + 1, d3)),
            octet_of(w.subrange(d3 + 1, w.len() as int)),
        ) {
            (Some(a), Some(b), Some(c), Some(d)) => Some(
                (a * 16777216 + b * 65536 + c * 256 + d) as u32,
            ),
            _ => None,
        }
    } else {
        None
    }
}

/// Whether `a` lies in the loopback block 127.0.0.0/8.
pub open spec fn is_loopback(a: u32) -> bool {
    a / 16777216 == 127
}

/// The address written in a word: an IPv4 address, alone or followed by a
/// prefix length `/n` with `n` at most 32.
pub open spec fn word_ipv4(w: Seq<u8>) -> Option<u32> {
    let k = find_byte(w, 0, SLASH);
    if k >= w.len() {
        ipv4_of(w)
    } else {
        match octet_of(w.subrange(k + 1, w.len() as int)) {
            Some(n) => if n <= 32 {
                ipv4_of(w.subrange(0, k))
            } else {
                None
            },
            None => None,
        }
    }
}

/// The first address written in a white-space separated word of `line`
/// from `i` on.
pub open spec fn first_address(line: Seq<u8>, i: int) -> Option<u32>
    decreases line.len() - i,
    via first_address_decreases
{
    if i < 0 || i >= line.len() {
        None
    } else if is_space(line[i]) {
        first_address(line, i + 1)
    } else {
        let j = word_end(line, i);
        match word_ipv4(line.subrange(i, j)) {
            Some(a) => Some(a),
            None => first_address(line, j),
        }
    }
}

#[via_fn]
proof fn first_address_decreases(line: Seq<u8>, i: int) {
    if 0 <= i < line.len() && !is_space(line[i]) {
        lemma_word_end_bounds(line, i);
        assert(word_end(line, i) == word_end(line, i + 1));
        lemma_word_end_bounds(line, i + 1);
    }
}

pub open spec fn ipv4_marker() -> Seq<u8> {
    seq![73u8, 80u8, 118u8, 52u8]
}

pub open spec fn inet_marker() -> Seq<u8> {
    seq![105u8, 110u8, 101u8, 116u8, 32u8]
}

/// The address a line of the interface listing binds: on a line that
/// mentions `IPv4` or `inet `, the first address written in it (later ones
/// are broadcast or peer addresses), unless that is a loopback address.
pub open spec fn line_addresses(line: Seq<u8>) -> Seq<u32> {
    if contains_bytes(line, ipv4_marker()) || contains_bytes(line, inet_marker()) {
        match first_address(line, 0) {
            Some(a) => if is_loopback(a) {
                Seq::empty()
            } else {
                seq![a]
            },
            None => Seq::empty(),
        }
    } else {
        Seq::empty()
    }
}

/// The addresses of the lines of `s` from `i` on.
pub open spec fn lines_addresses(s: Seq<u8>, i: int) -> Seq<u32>
    decreases s.len() + 1 - i,
    via lines_addresses_decreases
{
    if i < 0 || i >= s.len() {
        Seq::empty()
    } else {
        let j = find_byte(s, i, NEWLINE);
        line_addresses(s.subrange(i, j)) + lines_addresses(s, j + 1)
    }
}

#[via_fn]
proof fn lines_addresses_decreases(s: Seq<u8>, i: int) {
    if 0 <= i < s.len() {
        lemma_find_byte_bounds(s, i, NEWLINE);
    }
}

/// The non-loopback IPv4 addresses found in the output of an interface
/// listing, in order of appearance.
pub open spec fn listed_addresses(output: Seq<u8>) -> Seq<u32> {
    lines_addresses(output, 0)
}

fn find_byte_from(s: &Vec<u8>, start: usize, b: u8) -> (r: usize)
    requires
        start <= s.len(),
    ensures
        r == find_byte(s@, start as int, b),
{
    let mut i = start;
    while i < s.len() && s[i] != b
        invariant
            start <= i <= s.len(),
            find_byte(s@, i as int, b) == find_byte(s@, start as int, b),
        decreases s.len() - i,
    {
        i = i + 1;
    }
    i
}

fn is_space_byte(b: u8) -> (r: bool)
    ensures
        r == is_space(b),
{
    b == 32 || (9 <= b && b <= 13)
}

fn word_end_from(s: &Vec<u8>, start: usize) -> (r: usize)
    requires
        start <= s.len(),
    ensures
        r == word_end(s@, start as int),
{
    let mut i = start;
    while i < s.len() && !is_space_byte(s[i])
        invariant
            start <= i <= s.len(),
            word_end(s@, i as int) == word_end(s@, start as int),
        decreases s.len() - i,
    {
        i = i + 1;
    }
    i
}

fn copy_range(s: &Vec<u8>, from: usize, to: usize) -> (r: Vec<u8>)
    requires
        from <= to <= s.len(),
    ensures
        r@ == s@.subrange(from as int, to as int),
{
    let mut r: Vec<u8> = Vec::new();
    let mut i = from;
    while i < to
        invariant
            from <= i <= to <= s.len(),
            r@ == s@.subrange(from as int, i as int),
        decreases to - i,
    {
        r.push(s[i]);
        i = i + 1;
        assert(r@ =~= s@.subrange(from as int, i as int));
    }
    r
}

fn occurs_at_exec(s: &Vec<u8>, pat: &Vec<u8>, k: usize) -> (r: bool)
    requires
        pat.len() <= s.len(),
        k <= s.len() - pat.len(),
    ensures
        r == occurs_at(s@, pat@, k as int),
{
    let mut j: usize = 0;
    while j < pat.len()
        invariant
            j <= pat.len() <= s.len(),
            k <= s.len() - pat.len(),
            forall|m: int| 0 <= m < j ==> s@[k + m] == pat@[m],
        decreases pat.len() - j,
    {
        if s[k + j] != pat[j] {
            assert(s@.subrange(k as int, k + pat.len())[j as int] != pat@[j as int]);
            return false;
        }
        j = j + 1;
    }
    assert(s@.subrange(k as int, k + pat.len()) =~= pat@);
    true
}

fn contains_pattern(s: &Vec<u8>, pat: &Vec<u8>) -> (r: bool)
    ensures
        r == contains_bytes(s@, pat@),
{
    if pat.len() > s.len() {
        return false;
    }
    let last = s.len() - pat.len();
    let mut k: usize = 0;
    loop
        invariant
            pat.len() <= s.len(),
            last == s.len() - pat.len(),
            k <= last,
            forall|m: int| 0 <= m < k ==> !occurs_at(s@, pat@, m),
        decreases last - k,
    {
        if occurs_at_exec(s, pat, k) {
            return true;
        }
        if k == last {
            return false;
        }
        k = k + 1;
    }
}

fn parse_octet(t: &Vec<u8>) -> (r: Option<u32>)
    ensures
        match r {
            Some(v) => octet_of(t@) == Some(v as int),
            None => octet_of(t@) is None,
        },
{
    let n = t.len();
    if n < 1 || n > 3 {
        return None;
    }
    let mut i: usize = 0;
    while i < n
        invariant
            n == t.len(),
            i <= n,
            forall|k: int| 0 <= k < i ==> is_digit(#[trigger] t@[k]),
        decreases n - i,
    {
        if t[i] < 48 || t[i] > 57 {
            assert(!is_digit(t@[i as int]));
            return None;
        }
        i = i + 1;
    }
    if n > 1 && t[0] == 48 {
        return None;
    }
    let v: u32 = if n == 1 {
        (t[0] - 48) as u32
    } else if n == 2 {
        (t[0] - 48) as u32 * 10 + (t[1] - 48) as u32
    } else {
        (t[0] - 48) as u32 * 100 + (t[1] - 48) as u32 * 10 + (t[2] - 48) as u32
    };
    if v <= 255 {
        Some(v)
    } else {
        None
    }
}

/// Reads `w` as an IPv4 address written as four dot-separated decimal
/// octets, in host byte order.
pub fn parse_ipv4(w: &Vec<u8>) -> (r: Option<u32>)
    ensures
        r == ipv4_of(w@),
{
    let n = w.len();
    let d1 = find_byte_from(w, 0, DOT);
    proof {
        lemma_find_byte_bounds(w@, 0, DOT);
    }
    if d1 >= n {
        assert(find_byte(w@, d1 + 1, DOT) == n);
        assert(find_byte(w@, n + 1, DOT) == n);
        return None;
    }
    let d2 = find_byte_from(w, d1 + 1, DOT);
    proof {
        lemma_find_byte_bounds(w@, d1 + 1, DOT);
    }
    if d2 >= n {
        assert(find_byte(w@, d2 + 1, DOT) == n);
        return None;
    }
    let d3 = find_byte_from(w, d2 + 1, DOT);
    proof {
        lemma_find_byte_bounds(w@, d2 + 1, DOT);
    }
    if d3 >= n {
        return None;
    }
    let d4 = find_byte_from(w, d3 + 1, DOT);
    proof {
        lemma_find_byte_bounds(w@, d3 + 1, DOT);
    }
    if d4 < n {
        return None;
    }
    let a = parse_octet(&copy_range(w, 0, d1));
    let b = parse_octet(&copy_range(w, d1 + 1, d2));
    let c = parse_octet(&copy_range(w, d2 + 1, d3));
    let d = parse_octet(&copy_range(w, d3 + 1, n));
    match (a, b, c, d) {
        (Some(a), Some(b), Some(c), Some(d)) => {
            let r = a * 16777216 + b * 65536 + c * 256 + d;
            assert(ipv4_of(w@) == Some(r));
            Some(r)
        },
        _ => {
            assert(ipv4_of(w@) is None);
            None
        },
    }
}

/// Reads the address written in a word: an IPv4 address, alone or followed
/// by a prefix length `/n` with `n` at most 32.
pub fn parse_address_word(w: &Vec<u8>) -> (r: Option<u32>)
    ensures
        r == word_ipv4(w@),
{
    let n = w.len();
    let k = find_byte_from(w, 0, SLASH);
    proof {
        lemma_find_byte_bounds(w@, 0, SLASH);
    }
    if k >= n {
        return parse_ipv4(w);
    }
    match parse_octet(&copy_range(w, k + 1, n)) {
        Some(len) => if len <= 32 {
            parse_ipv4(&copy_range(w, 0, k))
        } else {
            None
        },
        None => None,
    }
}

/// Whether `a` lies in the loopback block 127.0.0.0/8.
pub fn is_loopback_address(a: u32) -> (r: bool)
    ensures
        r == is_loopback(a),
{
    a / 16777216 == 127
}

fn line_ip_addresses(line: &Vec<u8>) -> (r: Vec<u32>)
    ensures
        r@ == line_addresses(line@),
{
    let mut ipv4_pat: Vec<u8> = Vec::new();
    ipv4_pat.push(73u8);
    ipv4_pat.push(80u8);
    ipv4_pat.push(118u8);
    ipv4_pat.push(52u8);
    let mut inet_pat: Vec<u8> = Vec::new();
    inet_pat.push(105u8);
    inet_pat.push(110u8);
    inet_pat.push(101u8);
    inet_pat.push(116u8);
    inet_pat.push(32u8);
    assert(ipv4_pat@ =~= ipv4_marker());
    assert(inet_pat@ =~= inet_marker());
    let mut r: Vec<u32> = Vec::new();
    if !(contains_pattern(line, &ipv4_pat) || contains_pattern(line, &inet_pat)) {
        return r;
    }
    let mut i: usize = 0;
    while i < line.len()
        invariant
            i <= line.len(),
            r@.len() == 0,
            contains_bytes(line@, ipv4_marker()) || contains_bytes(line@, inet_marker()),
            first_address(line@, i as int) == first_address(line@, 0),
        decreases line.len() - i,
    {
        if is_space_byte(line[i]) {
            i = i + 1;
        } else {
            let j = word_end_from(line, i);
            proof {
                lemma_word_end_bounds(line@, i + 1);
            }
            match parse_address_word(&copy_range(line, i, j)) {
                Some(a) => {
                    assert(first_address(line@, 0) == Some(a));
                    if !is_loopback_address(a) {
                        r.push(a);
                        assert(r@ =~= seq![a]);
                    } else {
                        assert(r@ =~= Seq::<u32>::empty());
                    }
                    return r;
                },
                None => {},
            }
            i = j;
        }
    }
    assert(r@ =~= Seq::<u32>::empty());
    r
}

/// The non-loopback IPv4 addresses bound to the interfaces, read from the
/// output of an interface listing (`ip addr` or `ipconfig`): the first
/// address written on each line that mentions `IPv4` or `inet `.
pub fn parse_ip_addresses(output: &Vec<u8>) -> (r: Vec<u32>)
    ensures
        r@ == listed_addresses(output@),
{
    let mut r: Vec<u32> = Vec::new();
    let mut i: usize = 0;
    while i < output.len()
        invariant
            i <= output.len(),
            r@ + lines_addresses(output@, i as int) == listed_addresses(output@),
        decreases output.len() - i,
    {
        let j = find_byte_from(output, i, NEWLINE);
        proof {
            lemma_find_byte_bounds(output@, i as int, NEWLINE);
        }
        let line = copy_range(output, i, j);
        let mut found = line_ip_addresses(&line);
        let ghost before = r@;
        r.append(&mut found);
        assert(before + line_addresses(line@) + lines_addresses(output@, j + 1) =~= before + (
        line_addresses(line@) + lines_addresses(output@, j + 1)));
        if j >= output.len() {
            i = j;
        } else {
            i = j + 1;
        }
    }
    r
}

} // verus!
