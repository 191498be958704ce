//! IEEE addresses as text: colon-separated hex, most significant byte first.

use vstd::prelude::*;
use vstd::string::*;

verus! {

broadcast use vstd::string::is_ascii_spec_bytes;

/// Lower-case hex digit of a value below 16.
pub open spec fn hex_digit(n: u8) -> char {
    if n < 10 {
        (48 + n) as char
    } else {
        (87 + n) as char
    }
}

/// Two lower-case hex digits of a byte.
pub open spec fn hex_pair(b: u8) -> Seq<char> {
    seq![hex_digit(b / 16), hex_digit(b % 16)]
}

/// Bytes as two-digit hex groups joined by colons, in the given order.
pub open spec fn colon_hex(bytes: Seq<u8>) -> Seq<char>
    decreases bytes.len(),
{
    if bytes.len() == 0 {
        Seq::empty()
    } else if bytes.len() == 1 {
        hex_pair(bytes[0])
    } else {
        colon_hex(bytes.drop_last()) + seq![':'] + hex_pair(bytes.last())
    }
}

/// Display form of little-endian address bytes: the last byte first.
pub open spec fn reversed_hex(bytes: Seq<u8>) -> Seq<char> {
    colon_hex(bytes.reverse())
}

fn hex_digit_str(n: u8) -> (r: &'static str)
    requires
        n < 16,
    ensures
        r@ == seq![hex_digit(n)],
{
    proof {
        reveal_strlit("0");
        reveal_strlit("1");
        reveal_strlit("2");
        reveal_strlit("3");
        reveal_strlit("4");
        reveal_strlit("5");
        reveal_strlit("6");
        reveal_strlit("7");
        reveal_strlit("8");
        reveal_strlit("9");
        reveal_strlit("a");
        reveal_strlit("b");
        reveal_strlit("c");
        reveal_strlit("d");
        reveal_strlit("e");
        reveal_strlit("f");
    }
    match n {
        0 => "0",
        1 => "1",
        2 => "2",
        3 => "3",
        4 => "4",
        5 => "5",
        6 => "6",
        7 => "7",
        8 => "8",
        9 => "9",
        10 => "a",
        11 => "b",
        12 => "c",
        13 => "d",
        14 => "e",
        _ => "f",
    }
}

proof fn lemma_reverse_push_front(s: Seq<u8>, k: int)
    requires
        0 <= k < s.len(),
    ensures
        s.reverse().subrange(0, k + 1).drop_last() == s.reverse().subrange(0, k),
        s.reverse().subrange(0, k + 1).last() == s[s.len() - 1 - k],
        s.reverse().len() == s.len(),
{
    assert(s.reverse().subrange(0, k + 1).drop_last() =~= s.reverse().subrange(0, k));
}

/// Formats bytes as colon-separated two-digit lower-case hex, last byte first.
pub fn format_reversed_hex(bytes: &[u8]) -> (r: String)
    ensures
        r@ == reversed_hex(bytes@),
{
    let n = bytes.len();
    let mut out = String::new();
    let mut k: usize = 0;
    while k < n
        invariant
            k <= n,
            n == bytes@.len(),
            bytes@.reverse().len() == n,
            out@ == colon_hex(bytes@.reverse().subrange(0, k as int)),
        decreases n - k,
    {
        let b = bytes[n - 1 - k];
        proof {
            lemma_reverse_push_front(bytes@, k as int);
            reveal_strlit(":");
        }
        if k > 0 {
            out.append(":");
        }
        out.append(hex_digit_str(b / 16));
        out.append(hex_digit_str(b % 16));
        k = k + 1;
        proof {
            let pre = bytes@.reverse().subrange(0, k as int);
            if k == 1 {
                assert(pre.len() == 1);
                assert(out@ =~= colon_hex(pre));
            } else {
                assert(out@ =~= colon_hex(pre));
            }
        }
    }
    assert(bytes@.reverse().subrange(0, n as int) =~= bytes@.reverse());
    out
}

/// The value of a hex digit, in either case.
pub open spec fn hex_value(c: char) -> Option<u8> {
    if '0' <= c <= '9' {
        Some((c as u32 - 48) as u8)
    } else if 'a' <= c <= 'f' {
        Some((c as u32 - 87) as u8)
    } else if 'A' <= c <= 'F' {
        Some((c as u32 - 55) as u8)
    } else {
        None
    }
}

/// How many hex digits lead `s`, counting up to three.
pub open spec fn hex_lead(s: Seq<char>) -> int {
    if s.len() >= 1 && hex_value(s[0]) is Some {
        if s.len() >= 2 && hex_value(s[1]) is Some {
            if s.len() >= 3 && hex_value(s[2]) is Some {
                3
            } else {
                2
            }
        } else {
            1
        }
    } else {
        0
    }
}

/// Colon-separated groups of one or two hex digits, read as bytes in order.
pub open spec fn colon_groups(s: Seq<char>) -> Option<Seq<u8>>
    decreases s.len(),
{
    let g = hex_lead(s);
    if g == 0 || g > 2 {
        None
    } else {
        let v = if g == 1 {
            hex_value(s[0])->Some_0
        } else {
            (16 * hex_value(s[0])->Some_0 + hex_value(s[1])->Some_0) as u8
        };
        if g == s.len() {
            Some(seq![v])
        } else if s[g] == ':' {
            match colon_groups(s.subrange(g + 1, s.len() as int)) {
                Some(rest) => Some(seq![v] + rest),
                None => None,
            }
        } else {
            None
        }
    }
}

/// Sixteen hex digits with no separator, read as eight bytes in order.
pub open spec fn plain_hex(s: Seq<char>) -> Option<Seq<u8>> {
    if s.len() == 16 && forall|i: int| 0 <= i < 16 ==> hex_value(#[trigger] s[i]) is Some {
        Some(
            Seq::new(
                8,
                |k: int| (16 * hex_value(s[2 * k])->Some_0 + hex_value(s[2 * k + 1])->Some_0) as u8,
            ),
        )
    } else {
        None
    }
}

/// The little-endian address bytes that a display-form address stands for:
/// eight colon-separated groups of one or two hex digits, or sixteen hex
/// digits with no colons, most significant byte first.
pub open spec fn ieee_from_text(s: Seq<char>) -> Option<Seq<u8>> {
    if colon_groups(s) is Some && colon_groups(s)->Some_0.len() == 8 {
        Some(colon_groups(s)->Some_0.reverse())
    } else {
        match plain_hex(s) {
            Some(p) => Some(p.reverse()),
            None => None,
        }
    }
}

fn hex_value_of(b: u8) -> (r: Option<u8>)
    requires
        b < 128,
    ensures
        r == hex_value(b as char),
{
    if 48 <= b && b <= 57 {
        Some(b - 48)
    } else if 97 <= b && b <= 102 {
        Some(b - 87)
    } else if 65 <= b && b <= 70 {
        Some(b - 55)
    } else {
        None
    }
}

fn reversed8(v: &Vec<u8>) -> (r: [u8; 8])
    requires
        v@.len() == 8,
    ensures
        r@ == v@.reverse(),
{
    let r = [v[7], v[6], v[5], v[4], v[3], v[2], v[1], v[0]];
    proof {
        assert forall|k: int| 0 <= k < 8 implies r@[k] == v@.reverse()[k] by {}
    }
    assert(r@ =~= v@.reverse());
    r
}

proof fn lemma_colon_groups_step(s: Seq<char>, i: int, g: int)
    requires
        0 <= i < s.len(),
        g == hex_lead(s.subrange(i, s.len() as int)),
        1 <= g <= 2,
        i + g < s.len(),
    ensures
        s.subrange(i, s.len() as int).subrange(g + 1, s.len() - i) == s.subrange(
            i + g + 1,
            s.len() as int,
        ),
{
    assert(s.subrange(i, s.len() as int).subrange(g + 1, s.len() - i) =~= s.subrange(
        i + g + 1,
        s.len() as int,
    ));
}

/// Parses a display-form address into its little-endian bytes.
pub fn parse_ieee_address(s: &str) -> (r: Option<[u8; 8]>)
    ensures
        match ieee_from_text(s@) {
            Some(b) => r matches Some(a) && a@ == b,
            None => r is None,
        },
{
    if !s.is_ascii() {
        proof {
            lemma_non_ascii_rejected(s@);
        }
        return None;
    }
    let bytes = s.as_bytes();
    let n = bytes.len();
    if n == 0 {
        return None;
    }
    let ghost chars = s@;
    proof {
        vstd::utf8::is_ascii_chars_nat_bound(chars);
        assert(n == chars.len());
        assert forall|i: int| 0 <= i < n implies bytes@[i] as char == chars[i] && bytes@[i] < 128 by {
            assert(bytes@[i] == chars[i] as u8);
        }
    }
    // Colon-separated groups.
    let mut groups: Vec<u8> = Vec::new();
    let mut i: usize = 0;
    proof {
        assert(chars.subrange(0, n as int) =~= chars);
        match colon_groups(chars) {
            Some(all) => {
                assert(Seq::<u8>::empty() + all =~= all);
            },
            None => {},
        }
    }
    let mut ok = true;
    let mut finished = false;
    while ok && !finished
        invariant
            i < n || (finished && i == n) || (!ok),
            n == chars.len(),
            chars == s@,
            n == bytes@.len(),
            forall|j: int| 0 <= j < n ==> #[trigger] bytes@[j] as char == chars[j] && bytes@[j] < 128,
            groups@.len() <= 8,
            ok && !finished ==> colon_groups(chars) == (match colon_groups(chars.subrange(i as int, n as int)) {
                Some(rest) => Some(groups@ + rest),
                None => None::<Seq<u8>>,
            }),
            ok && finished ==> colon_groups(chars) == Some(groups@),
            !ok ==> (colon_groups(chars) is None || colon_groups(chars)->Some_0.len() != 8),
        decreases n - i, if ok && !finished { 1int } else { 0int },
    {
        let ghost rest = chars.subrange(i as int, n as int);
        let h0 = hex_value_of(bytes[i]);
        let h1 = if n - i > 1 { hex_value_of(bytes[i + 1]) } else { None };
        let h2 = if n - i > 2 { hex_value_of(bytes[i + 2]) } else { None };
        assert(rest[0] == chars[i as int]);
        assert(i + 1 < n ==> rest[1] == chars[i + 1]);
        assert(i + 2 < n ==> rest[2] == chars[i + 2]);
        let g: usize = match h0 {
            None => 0,
            Some(_) => match h1 {
                None => 1,
                Some(_) => match h2 {
                    None => 2,
                    Some(_) => 3,
                },
            },
        };
        assert(g == hex_lead(rest));
        if g == 0 || g > 2 || groups.len() == 8 {
            proof {
                if groups@.len() == 8 && g >= 1 && g <= 2 {
                    lemma_groups_len_bound(rest);
                }
            }
            ok = false;
        } else {
            let v: u8 = if g == 1 {
                h0.unwrap()
            } else {
                16 * h0.unwrap() + h1.unwrap()
            };
            let ghost before = groups@;
            groups.push(v);
            if i + g == n {
                finished = true;
                i = n;
                assert(groups@ =~= before + seq![v]);
            } else if bytes[i + g] == 58 {
                proof {
                    lemma_colon_groups_step(chars, i as int, g as int);
                }
                i = i + g + 1;
                if i == n {
                    ok = false;
                    proof {
                        assert(chars.subrange(i as int, n as int).len() == 0);
                    }
                } else {
                    proof {
                        match colon_groups(chars.subrange(i as int, n as int)) {
                            Some(tail) => {
                                assert(before + (seq![v] + tail) =~= groups@ + tail);
                            },
                            None => {},
                        }
                    }
                }
            } else {
                ok = false;
            }
        }
    }
    if ok && groups.len() == 8 {
        return Some(reversed8(&groups));
    }
    // Sixteen digits with no colons.
    if n != 16 {
        return None;
    }
    let mut plain: Vec<u8> = Vec::new();
    let mut k: usize = 0;
    while k < 8
        invariant
            k <= 8,
            n == 16,
            !(colon_groups(chars) is Some && colon_groups(chars)->Some_0.len() == 8),
            n == chars.len(),
            chars == s@,
            n == bytes@.len(),
            forall|j: int| 0 <= j < n ==> #[trigger] bytes@[j] as char == chars[j] && bytes@[j] < 128,
            forall|j: int| 0 <= j < 2 * k ==> hex_value(#[trigger] chars[j]) is Some,
            plain@.len() == k,
            forall|j: int|
                0 <= j < k ==> plain@[j] == (16 * hex_value(chars[2 * j])->Some_0 + hex_value(
                    chars[2 * j + 1],
                )->Some_0) as u8,
        decreases 8 - k,
    {
        assert(bytes@[2 * k as int] < 128 && bytes@[2 * k + 1] < 128);
        let hi = hex_value_of(bytes[2 * k]);
        let lo = hex_value_of(bytes[2 * k + 1]);
        match (hi, lo) {
            (Some(h), Some(l)) => {
                plain.push(16 * h + l);
            },
            _ => {
                proof {
                    assert(bytes@[2 * k as int] as char == chars[2 * k as int]);
                    assert(bytes@[2 * k + 1] as char == chars[2 * k + 1]);
                    assert(hex_value(chars[2 * k as int]) is None || hex_value(chars[2 * k + 1]) is None);
                }
                return None;
            },
        }
        k = k + 1;
    }
    let ghost expect = plain_hex(chars);
    assert(expect matches Some(p) && p =~= plain@);
    Some(reversed8(&plain))
}

proof fn lemma_groups_len_bound(s: Seq<char>)
    ensures
        colon_groups(s) matches Some(g) ==> g.len() >= 1,
{
}

proof fn lemma_non_ascii_rejected(s: Seq<char>)
    requires
        !vstd::utf8::is_ascii_chars(s),
    ensures
        ieee_from_text(s) is None,
{
    lemma_colon_groups_chars(s);
    if plain_hex(s) is Some {
        assert forall|i: int| 0 <= i < s.len() implies '\0' <= #[trigger] s[i] <= '\u{7f}' by {
            assert(hex_value(s[i]) is Some);
        }
    }
}

proof fn lemma_colon_groups_chars(s: Seq<char>)
    ensures
        colon_groups(s) is Some ==> forall|i: int|
            0 <= i < s.len() ==> '\0' <= #[trigger] s[i] <= '\u{7f}',
    decreases s.len(),
{
    let g = hex_lead(s);
    if colon_groups(s) is Some && g < s.len() {
        let t = s.subrange(g + 1, s.len() as int);
        lemma_colon_groups_chars(t);
        assert forall|i: int| 0 <= i < s.len() implies '\0' <= #[trigger] s[i] <= '\u{7f}' by {
            if i > g {
                assert(s[i] == t[i - g - 1]);
            }
        }
    }
}

} // verus!
