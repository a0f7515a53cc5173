//! IPv4 addresses and their dotted-decimal text.

use vstd::prelude::*;
use vstd::string::StrSliceExecFns;
use vstd::string::StringExecFns;

verus! {

/// An IPv4 address, as its four octets from the most significant down.
#[derive(Clone, Copy, Debug, PartialEq, Eq, Hash, Structural)]
pub struct Ipv4Address {
    pub a: u8,
    pub b: u8,
    pub c: u8,
    pub d: u8,
}

/// The address that stands for "nothing is published": `0.0.0.0`.
pub open spec fn blank_ip() -> Ipv4Address {
    Ipv4Address { a: 0, b: 0, c: 0, d: 0 }
}

/// The length of the longest dotted-decimal text: four octets of three digits
/// and three dots.
pub const MAX_TEXT_LEN: usize = 15;

/// The decimal digit `d` as a character.
pub open spec fn digit_char(d: int) -> char {
    if d == 0 {
        '0'
    } else if d == 1 {
        '1'
    } else if d == 2 {
        '2'
    } else if d == 3 {
        '3'
    } else if d == 4 {
        '4'
    } else if d == 5 {
        '5'
    } else if d == 6 {
        '6'
    } else if d == 7 {
        '7'
    } else if d == 8 {
        '8'
    } else {
        '9'
    }
}

/// The decimal text of one octet: one to three digits, no leading zero.
pub open spec fn octet_text(n: u8) -> Seq<char> {
    if n < 10 {
        seq![digit_char(n as int)]
    } else if n < 100 {
        seq![digit_char(n as int / 10), digit_char(n as int % 10)]
    } else {
        seq![digit_char(n as int / 100), digit_char((n as int / 10) % 10), digit_char(n as int % 10)]
    }
}

/// Whether `c` is one of the ten decimal digits.
pub open spec fn is_digit(c: char) -> bool {
    c == '0' || c == '1' || c == '2' || c == '3' || c == '4' || c == '5' || c == '6' || c == '7'
        || c == '8' || c == '9'
}

/// Whether the decimal text of `n` stands in `t` from position `p` on, and no
/// further digit follows it.
#[verifier::opaque]
spec fn octet_at(t: Seq<char>, p: int, n: u8) -> bool {
    let end = p + octet_text(n).len();
    &&& 0 <= p
    &&& end <= t.len()
    &&& t.subrange(p, end) == octet_text(n)
    &&& (end == t.len() || !is_digit(t[end]))
}

/// The address that `s` is the dotted-decimal text of, if there is one.
pub open spec fn parsed(s: Seq<char>) -> Option<Ipv4Address> {
    if exists|x: Ipv4Address| x.text() == s {
        Some(choose|x: Ipv4Address| x.text() == s)
    } else {
        None
    }
}

/// Every character of an octet's text is a digit, and there are one to three.
proof fn lemma_octet_text_digits(n: u8)
    ensures
        1 <= octet_text(n).len() <= 3,
        forall|i: int| 0 <= i < octet_text(n).len() ==> is_digit(#[trigger] octet_text(n)[i]),
{
}

/// At one position of a text at most one octet stands.
proof fn lemma_octet_at_unique(t: Seq<char>, p: int, n: u8, m: u8)
    requires
        octet_at(t, p, n),
        octet_at(t, p, m),
    ensures
        n == m,
{
    reveal(octet_at);
    lemma_octet_text_digits(n);
    lemma_octet_text_digits(m);
    let kn = octet_text(n).len() as int;
    let km = octet_text(m).len() as int;
    if kn < km {
        assert(t.subrange(p, p + km)[kn] == t[p + kn]);
        assert(is_digit(octet_text(m)[kn]));
    } else if km < kn {
        assert(t.subrange(p, p + kn)[km] == t[p + km]);
        assert(is_digit(octet_text(n)[km]));
    } else {
        assert(octet_text(n) == octet_text(m));
        assert(octet_text(n)[0] == octet_text(m)[0]);
        if kn >= 2 {
            assert(octet_text(n)[1] == octet_text(m)[1]);
        }
        if kn >= 3 {
            assert(octet_text(n)[2] == octet_text(m)[2]);
        }
    }
}

/// Where the four octets and the three dots of an address stand in its text.
proof fn lemma_text_shape(x: Ipv4Address)
    ensures
        ({
            let t = x.text();
            let dot_a = octet_text(x.a).len() as int;
            let dot_b = dot_a + 1 + octet_text(x.b).len();
            let dot_c = dot_b + 1 + octet_text(x.c).len();
            &&& octet_at(t, 0, x.a)
            &&& t[dot_a] == '.'
            &&& octet_at(t, dot_a + 1, x.b)
            &&& t[dot_b] == '.'
            &&& octet_at(t, dot_b + 1, x.c)
            &&& t[dot_c] == '.'
            &&& octet_at(t, dot_c + 1, x.d)
            &&& t.len() == dot_c + 1 + octet_text(x.d).len()
            &&& t.len() <= 15
        }),
{
    let t = x.text();
    let dot_a = octet_text(x.a).len() as int;
    let dot_b = dot_a + 1 + octet_text(x.b).len();
    let dot_c = dot_b + 1 + octet_text(x.c).len();
    let end = dot_c + 1 + octet_text(x.d).len();
    reveal(octet_at);
    lemma_octet_text_digits(x.a);
    lemma_octet_text_digits(x.b);
    lemma_octet_text_digits(x.c);
    lemma_octet_text_digits(x.d);
    assert(t.subrange(0, dot_a) =~= octet_text(x.a));
    assert(t.subrange(dot_a + 1, dot_b) =~= octet_text(x.b));
    assert(t.subrange(dot_b + 1, dot_c) =~= octet_text(x.c));
    assert(t.subrange(dot_c + 1, end) =~= octet_text(x.d));
}

/// A text in which four octets stand, parted by dots and followed by nothing,
/// is the text of the address that they make.
proof fn lemma_shape_is_text(t: Seq<char>, x: Ipv4Address)
    requires
        ({
            let dot_a = octet_text(x.a).len() as int;
            let dot_b = dot_a + 1 + octet_text(x.b).len();
            let dot_c = dot_b + 1 + octet_text(x.c).len();
            &&& octet_at(t, 0, x.a)
            &&& t[dot_a] == '.'
            &&& octet_at(t, dot_a + 1, x.b)
            &&& t[dot_b] == '.'
            &&& octet_at(t, dot_b + 1, x.c)
            &&& t[dot_c] == '.'
            &&& octet_at(t, dot_c + 1, x.d)
            &&& t.len() == dot_c + 1 + octet_text(x.d).len()
        }),
    ensures
        t == x.text(),
{
    reveal(octet_at);
    let dot_a = octet_text(x.a).len() as int;
    let dot_b = dot_a + 1 + octet_text(x.b).len();
    let dot_c = dot_b + 1 + octet_text(x.c).len();
    let end = dot_c + 1 + octet_text(x.d).len();
    let u = x.text();
    assert(u.len() == t.len());
    assert forall|i: int| 0 <= i < t.len() implies t[i] == u[i] by {
        if i < dot_a {
            assert(t.subrange(0, dot_a)[i] == t[i]);
        } else if i == dot_a {
        } else if i < dot_b {
            assert(t.subrange(dot_a + 1, dot_b)[i - dot_a - 1] == t[i]);
        } else if i == dot_b {
        } else if i < dot_c {
            assert(t.subrange(dot_b + 1, dot_c)[i - dot_b - 1] == t[i]);
        } else if i == dot_c {
        } else {
            assert(t.subrange(dot_c + 1, end)[i - dot_c - 1] == t[i]);
        }
    }
    assert(t =~= u);
}

/// Two addresses with the same text are the same address.
pub proof fn lemma_text_injective(x: Ipv4Address, y: Ipv4Address)
    requires
        x.text() == y.text(),
    ensures
        x == y,
{
    let t = x.text();
    lemma_text_shape(x);
    lemma_text_shape(y);
    lemma_octet_at_unique(t, 0, x.a, y.a);
    let dot_a = octet_text(x.a).len() as int;
    lemma_octet_at_unique(t, dot_a + 1, x.b, y.b);
    let dot_b = dot_a + 1 + octet_text(x.b).len();
    lemma_octet_at_unique(t, dot_b + 1, x.c, y.c);
    let dot_c = dot_b + 1 + octet_text(x.c).len();
    lemma_octet_at_unique(t, dot_c + 1, x.d, y.d);
}

/// Reading the text of an address gives that address back.
pub proof fn lemma_parsed_text(x: Ipv4Address)
    ensures
        parsed(x.text()) == Some(x),
{
    let y = choose|y: Ipv4Address| y.text() == x.text();
    lemma_text_injective(x, y);
}

/// The digit that `c` writes, if it is a digit.
fn digit_value(c: char) -> (v: Option<u8>)
    ensures
        match v {
            Some(d) => d < 10 && c == digit_char(d as int),
            None => !is_digit(c),
        },
{
    if c == '0' {
        Some(0)
    } else if c == '1' {
        Some(1)
    } else if c == '2' {
        Some(2)
    } else if c == '3' {
        Some(3)
    } else if c == '4' {
        Some(4)
    } else if c == '5' {
        Some(5)
    } else if c == '6' {
        Some(6)
    } else if c == '7' {
        Some(7)
    } else if c == '8' {
        Some(8)
    } else if c == '9' {
        Some(9)
    } else {
        None
    }
}

/// The digit at position `p` of `t`, if `p` is inside `t` and a digit stands there.
fn digit_at(t: &Vec<char>, p: usize) -> (v: Option<u8>)
    ensures
        match v {
            Some(d) => p < t@.len() && d < 10 && t@[p as int] == digit_char(d as int),
            None => p >= t@.len() || !is_digit(t@[p as int]),
        },
{
    if p < t.len() {
        digit_value(t[p])
    } else {
        None
    }
}

/// Reads the octet that stands in `t` at `p`: the octet and the position
/// behind its text.
fn read_octet(t: &Vec<char>, p: usize) -> (r: Option<(u8, usize)>)
    requires
        p <= t@.len(),
    ensures
        match r {
            Some((n, end)) => octet_at(t@, p as int, n) && end == p + octet_text(n).len() && end
                <= t@.len(),
            None => forall|n: u8| !octet_at(t@, p as int, n),
        },
{
    let ghost s = t@;
    let ghost q = p as int;
    let len = t.len();
    proof {
        reveal(octet_at);
        assert forall|n: u8| octet_at(s, q, n) implies {
            let k = octet_text(n).len() as int;
            &&& 1 <= k <= 3
            &&& q + k <= s.len()
            &&& forall|i: int| 0 <= i < k ==> s[q + i] == #[trigger] octet_text(n)[i]
        } by {
            lemma_octet_text_digits(n);
            let k = octet_text(n).len() as int;
            assert forall|i: int| 0 <= i < k implies s[q + i] == #[trigger] octet_text(n)[i] by {
                assert(s.subrange(q, q + k)[i] == s[q + i]);
            }
        }
    }
    if p >= len {
        return None;
    }
    let d0 = match digit_value(t[p]) {
        Some(d) => d,
        None => {
            proof {
                assert forall|n: u8| !octet_at(s, q, n) by {
                    if octet_at(s, q, n) {
                        lemma_octet_text_digits(n);
                        assert(s[q + 0] == octet_text(n)[0]);
                    }
                }
            }
            return None;
        },
    };
    let d1 = match digit_at(t, p + 1) {
        Some(d) => d,
        None => {
            assert(s.subrange(q, q + 1) =~= octet_text(d0));
            return Some((d0, p + 1));
        },
    };
    if d0 == 0 {
        proof {
            assert forall|n: u8| !octet_at(s, q, n) by {
                if octet_at(s, q, n) {
                    assert(s[q + 0] == octet_text(n)[0]);
                }
            }
        }
        return None;
    }
    let d2 = match digit_at(t, p + 2) {
        Some(d) => d,
        None => {
            let n: u8 = d0 * 10 + d1;
            assert(s.subrange(q, q + 2) =~= octet_text(n));
            return Some((n, p + 2));
        },
    };
    if digit_at(t, p + 3).is_some() {
        proof {
            assert forall|n: u8| !octet_at(s, q, n) by {
                if octet_at(s, q, n) {
                    lemma_octet_text_digits(n);
                }
            }
        }
        return None;
    }
    let v: u16 = (d0 as u16) * 100 + (d1 as u16) * 10 + (d2 as u16);
    if v > 255 {
        proof {
            assert forall|n: u8| !octet_at(s, q, n) by {
                if octet_at(s, q, n) {
                    lemma_octet_text_digits(n);
                    assert(s[q + 0] == octet_text(n)[0]);
                    assert(s[q + 1] == octet_text(n)[1]);
                    assert(s[q + 2] == octet_text(n)[2]);
                }
            }
        }
        return None;
    }
    let n: u8 = v as u8;
    assert(s.subrange(q, q + 3) =~= octet_text(n));
    Some((n, p + 3))
}

/// Whether a dot stands in `t` at `p`.
fn dot_at(t: &Vec<char>, p: usize) -> (dot: bool)
    ensures
        dot == (p < t@.len() && t@[p as int] == '.'),
{
    p < t.len() && t[p] == '.'
}

/// Reads the address that the characters `t` are the text of.
fn read_address(t: &Vec<char>) -> (r: Option<Ipv4Address>)
    ensures
        match r {
            Some(addr) => t@ == addr.text(),
            None => forall|x: Ipv4Address| x.text() != t@,
        },
{
    let ghost s = t@;
    let (a, dot_a) = match read_octet(t, 0) {
        Some(found) => found,
        None => {
            proof {
                assert forall|x: Ipv4Address| x.text() != s by {
                    lemma_text_shape(x);
                }
            }
            return None;
        },
    };
    proof {
        assert forall|x: Ipv4Address| x.text() == s implies x.a == a by {
            lemma_text_shape(x);
            lemma_octet_at_unique(s, 0, x.a, a);
        }
    }
    if !dot_at(t, dot_a) {
        proof {
            assert forall|x: Ipv4Address| x.text() != s by {
                lemma_text_shape(x);
            }
        }
        return None;
    }
    let (b, dot_b) = match read_octet(t, dot_a + 1) {
        Some(found) => found,
        None => {
            proof {
                assert forall|x: Ipv4Address| x.text() != s by {
                    lemma_text_shape(x);
                }
            }
            return None;
        },
    };
    proof {
        assert forall|x: Ipv4Address| x.text() == s implies x.b == b by {
            lemma_text_shape(x);
            lemma_octet_at_unique(s, dot_a + 1, x.b, b);
        }
    }
    if !dot_at(t, dot_b) {
        proof {
            assert forall|x: Ipv4Address| x.text() != s by {
                lemma_text_shape(x);
            }
        }
        return None;
    }
    let (c, dot_c) = match read_octet(t, dot_b + 1) {
        Some(found) => found,
        None => {
            proof {
                assert forall|x: Ipv4Address| x.text() != s by {
                    lemma_text_shape(x);
                }
            }
            return None;
        },
    };
    proof {
        assert forall|x: Ipv4Address| x.text() == s implies x.c == c by {
            lemma_text_shape(x);
            lemma_octet_at_unique(s, dot_b + 1, x.c, c);
        }
    }
    if !dot_at(t, dot_c) {
        proof {
            assert forall|x: Ipv4Address| x.text() != s by {
                lemma_text_shape(x);
            }
        }
        return None;
    }
    let (d, end) = match read_octet(t, dot_c + 1) {
        Some(found) => found,
        None => {
            proof {
                assert forall|x: Ipv4Address| x.text() != s by {
                    lemma_text_shape(x);
                }
            }
            return None;
        },
    };
    if end != t.len() {
        proof {
            assert forall|x: Ipv4Address| x.text() != s by {
                lemma_text_shape(x);
                if x.text() == s {
                    lemma_octet_at_unique(s, dot_c + 1, x.d, d);
                }
            }
        }
        return None;
    }
    let addr = Ipv4Address { a, b, c, d };
    proof {
        lemma_shape_is_text(s, addr);
    }
    Some(addr)
}

/// Appends the decimal digit `d` to `out`.
fn push_digit(out: &mut String, d: u8)
    requires
        d < 10,
    ensures
        final(out)@ == old(out)@.push(digit_char(d as int)),
{
    let digit: &str = match d {
        0 => "0",
        1 => "1",
        2 => "2",
        3 => "3",
        4 => "4",
        5 => "5",
        6 => "6",
        7 => "7",
        8 => "8",
        _ => "9",
    };
    proof {
        reveal_strlit("0");
        reveal_strlit("1");
        reveal_strlit("2");
        reveal_strlit("3");
        reveal_strlit("4");
        reveal_strlit("5");
        reveal_strlit("6");
        reveal_strlit("7");
        reveal_strlit("8");
        reveal_strlit("9");
        assert(digit@ =~= seq![digit_char(d as int)]);
    }
    out.append(digit);
    assert(out@ =~= old(out)@.push(digit_char(d as int)));
}

/// Appends the decimal text of `n` to `out`.
fn push_octet(out: &mut String, n: u8)
    ensures
        final(out)@ == old(out)@ + octet_text(n),
{
    if n >= 100 {
        push_digit(out, n / 100);
    }
    if n >= 10 {
        push_digit(out, (n / 10) % 10);
    }
    push_digit(out, n % 10);
    assert(out@ =~= old(out)@ + octet_text(n));
}

/// Appends a dot to `out`.
fn push_dot(out: &mut String)
    ensures
        final(out)@ == old(out)@ + seq!['.'],
{
    proof {
        reveal_strlit(".");
    }
    out.append(".");
    assert(out@ =~= old(out)@ + seq!['.']);
}

impl Ipv4Address {
    /// The address `a.b.c.d`.
    pub fn new(a: u8, b: u8, c: u8, d: u8) -> (addr: Self)
        ensures
            addr == (Ipv4Address { a, b, c, d }),
    {
        Ipv4Address { a, b, c, d }
    }

    /// The dotted-decimal text of the address: its four octets in decimal,
    /// separated by dots.
    pub open spec fn text(self) -> Seq<char> {
        octet_text(self.a) + seq!['.'] + octet_text(self.b) + seq!['.'] + octet_text(self.c)
            + seq!['.'] + octet_text(self.d)
    }

    /// Writes the address in dotted-decimal text.
    pub fn to_text(&self) -> (out: String)
        ensures
            out@ == self.text(),
    {
        let mut out = String::new();
        push_octet(&mut out, self.a);
        push_dot(&mut out);
        push_octet(&mut out, self.b);
        push_dot(&mut out);
        push_octet(&mut out, self.c);
        push_dot(&mut out);
        push_octet(&mut out, self.d);
        assert(out@ =~= self.text());
        out
    }

    /// Reads an address from its dotted-decimal text: four octets in decimal,
    /// each without a sign and without a leading zero, separated by dots, and
    /// nothing before, between or after them. Any other text gives `None`.
    pub fn parse(s: &str) -> (r: Option<Ipv4Address>)
        ensures
            r == parsed(s@),
            r matches Some(addr) ==> s@ == addr.text(),
            r is None ==> forall|x: Ipv4Address| x.text() != s@,
    {
        let n = s.unicode_len();
        if n > MAX_TEXT_LEN {
            proof {
                assert forall|x: Ipv4Address| x.text() != s@ by {
                    lemma_text_shape(x);
                }
            }
            return None;
        }
        let mut chars: Vec<char> = Vec::new();
        let mut i: usize = 0;
        while i < n
            invariant
                i <= n,
                n == s@.len(),
                chars@ == s@.subrange(0, i as int),
            decreases n - i,
        {
            chars.push(s.get_char(i));
            i += 1;
            assert(chars@ =~= s@.subrange(0, i as int));
        }
        assert(chars@ =~= s@);
        let r = read_address(&chars);
        proof {
            if let Some(addr) = r {
                lemma_text_injective(addr, choose|x: Ipv4Address| x.text() == s@);
            }
        }
        r
    }

    /// The blank address, `0.0.0.0`.
    pub fn blank() -> (addr: Self)
        ensures
            addr == blank_ip(),
    {
        Ipv4Address { a: 0, b: 0, c: 0, d: 0 }
    }

    /// Whether this is the blank address.
    pub fn is_blank(&self) -> (blank: bool)
        ensures
            blank == (*self == blank_ip()),
    {
        self.a == 0 && self.b == 0 && self.c == 0 && self.d == 0
    }
}

} // verus!
