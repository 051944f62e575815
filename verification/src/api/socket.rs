//! The web socket: what the server answers to each message it receives.
use vstd::prelude::*;

use crate::text::str_chars;

verus! {

broadcast use vstd::string::group_string_axioms;

/// A message received on the web socket, continuation frames joined.
#[derive(Debug)]
pub enum SocketMessage {
    Text(String),
    Binary(Vec<u8>),
    Ping(Vec<u8>),
    Pong(Vec<u8>),
    Close,
    /// The stream reported a protocol error.
    Failed,
}

/// What the server sends in answer.
#[derive(Debug)]
pub enum SocketReply {
    Text(String),
    Binary(Vec<u8>),
    Ping(Vec<u8>),
    Pong(Vec<u8>),
    Nothing,
}

pub open spec fn is_digit(c: char) -> bool {
    '0' <= c && c <= '9'
}

/// The number that a sequence of decimal digits writes.
pub open spec fn digits_value(d: Seq<char>) -> int
    decreases d.len(),
{
    if d.len() == 0 {
        0
    } else {
        digits_value(d.drop_last()) * 10 + (d.last() as int - '0' as int)
    }
}

/// Every character of `d` is a decimal digit.
pub open spec fn all_digits(d: Seq<char>) -> bool {
    forall|i: int| 0 <= i < d.len() ==> is_digit(#[trigger] d[i])
}

/// `s` without its leading `+` or `-`, if it has one.
pub open spec fn unsigned_part(s: Seq<char>) -> Seq<char> {
    if s.len() > 0 && (s[0] == '-' || s[0] == '+') {
        s.drop_first()
    } else {
        s
    }
}

/// What `str::parse::<i32>` reads: an optional `+` or `-` followed by at
/// least one decimal digit and nothing else, whose value fits in an `i32`.
pub open spec fn spec_parse_i32(s: Seq<char>) -> Option<i32> {
    let neg = s.len() > 0 && s[0] == '-';
    let d = unsigned_part(s);
    if d.len() == 0 || !all_digits(d) {
        None
    } else {
        let v = if neg {
            -digits_value(d)
        } else {
            digits_value(d)
        };
        if i32::MIN <= v <= i32::MAX {
            Some(v as i32)
        } else {
            None
        }
    }
}

/// The decimal digit for `d`, a number below ten.
pub open spec fn digit_char(d: nat) -> char {
    (48 + d) as char
}

/// The decimal digits of `n`, without leading zeros (`0` for zero).
pub open spec fn decimal_digits(n: nat) -> Seq<char>
    decreases n,
{
    if n < 10 {
        seq![digit_char(n)]
    } else {
        decimal_digits(n / 10).push(digit_char(n % 10))
    }
}

/// How an `i32` is written: its decimal digits, after `-` when negative.
pub open spec fn spec_i32_text(n: i32) -> Seq<char> {
    if n < 0 {
        seq!['-'] + decimal_digits((-n) as nat)
    } else {
        decimal_digits(n as nat)
    }
}

/// The value of a sequence of digits is never negative.
proof fn lemma_digits_value_nonneg(d: Seq<char>)
    requires
        forall|i: int| 0 <= i < d.len() ==> is_digit(#[trigger] d[i]),
    ensures
        digits_value(d) >= 0,
    decreases d.len(),
{
    if d.len() > 0 {
        let p = d.drop_last();
        assert forall|i: int| 0 <= i < p.len() implies is_digit(#[trigger] p[i]) by {
            assert(p[i] == d[i]);
        }
        lemma_digits_value_nonneg(p);
        assert(is_digit(d[d.len() - 1]));
    }
}

/// More digits never write a smaller number.
proof fn lemma_digits_value_grows(d: Seq<char>, j: int)
    requires
        0 <= j <= d.len(),
        forall|i: int| 0 <= i < d.len() ==> is_digit(#[trigger] d[i]),
    ensures
        digits_value(d.take(j)) <= digits_value(d),
    decreases d.len() - j,
{
    if j < d.len() {
        lemma_digits_value_grows(d, j + 1);
        let q = d.take(j + 1);
        assert(q.drop_last() =~= d.take(j));
        assert forall|i: int| 0 <= i < q.len() implies is_digit(#[trigger] q[i]) by {
            assert(q[i] == d[i]);
        }
        lemma_digits_value_nonneg(d.take(j));
        assert(is_digit(q.last()));
    } else {
        assert(d.take(j) =~= d);
    }
}

/// Reads a number the way `str::parse::<i32>` does: an optional `+` or `-`
/// followed by at least one decimal digit and nothing else, whose value
/// fits in an `i32`.
fn parse_i32(s: &str) -> (r: Option<i32>)
    ensures
        r == spec_parse_i32(s@),
{
    let chars = str_chars(s);
    let n = chars.len();
    if n == 0 {
        return None;
    }
    let neg = chars[0] == '-';
    let start: usize = if chars[0] == '-' || chars[0] == '+' {
        1
    } else {
        0
    };
    let ghost d = s@.subrange(start as int, n as int);
    assert(d =~= unsigned_part(s@));
    if start == n {
        return None;
    }
    let mut v: u64 = 0;
    let mut i: usize = start;
    while i < n
        invariant
            start <= i <= n,
            n == chars.len(),
            n == s@.len(),
            n > 0,
            neg == (s@[0] == '-'),
            (start == 1) == (s@[0] == '-' || s@[0] == '+'),
            d == unsigned_part(s@),
            chars@ == s@,
            d == s@.subrange(start as int, n as int),
            forall|k: int| 0 <= k < i - start ==> is_digit(#[trigger] d[k]),
            v == digits_value(d.take(i - start)),
            v <= 2147483648,
        decreases n - i,
    {
        let c = chars[i];
        assert(c == d[i - start]);
        if !('0' <= c && c <= '9') {
            assert(!all_digits(d));
            return None;
        }
        let dv: u64 = (c as u32 - '0' as u32) as u64;
        proof {
            assert(d.take(i - start + 1).drop_last() =~= d.take(i - start));
            assert(d.take(i - start + 1).last() == c);
        }
        v = v * 10 + dv;
        i = i + 1;
        if v > 2147483648 {
            proof {
                if all_digits(d) {
                    lemma_digits_value_grows(d, i - start);
                }
            }
            return None;
        }
    }
    assert(d.take(n - start) =~= d);
    if neg {
        let m: i64 = 0 - (v as i64);
        Some(m as i32)
    } else if v <= 2147483647 {
        Some(v as i32)
    } else {
        None
    }
}

/// The text of a decimal digit.
fn digit_text(k: u32) -> (r: &'static str)
    requires
        k < 10,
    ensures
        r@ == seq![digit_char(k as nat)],
{
    proof {
        reveal_strlit("0");
        reveal_strlit("1");
        reveal_strlit("2");
        reveal_strlit("3");
        reveal_strlit("4");
        reveal_strlit("5");
        reveal_strlit("6");
        reveal_strlit("7");
        reveal_strlit("8");
        reveal_strlit("9");
    }
    let r = if k == 0 {
        "0"
    } else if k == 1 {
        "1"
    } else if k == 2 {
        "2"
    } else if k == 3 {
        "3"
    } else if k == 4 {
        "4"
    } else if k == 5 {
        "5"
    } else if k == 6 {
        "6"
    } else if k == 7 {
        "7"
    } else if k == 8 {
        "8"
    } else {
        "9"
    };
    assert(r@ =~= seq![digit_char(k as nat)]);
    r
}

/// Appends the decimal digits of `k` to `out`.
fn push_digits(k: u32, out: &mut String)
    ensures
        final(out)@ == old(out)@ + decimal_digits(k as nat),
    decreases k,
{
    if k >= 10 {
        push_digits(k / 10, out);
    }
    out.append(digit_text(k % 10));
    proof {
        if k >= 10 {
            assert(decimal_digits(k as nat) == decimal_digits((k / 10) as nat).push(
                digit_char((k % 10) as nat),
            ));
        }
    }
    assert(out@ =~= old(out)@ + decimal_digits(k as nat));
}

/// Writes a number the way `i32::to_string` does: its decimal digits,
/// after `-` when negative.
fn i32_text(n: i32) -> (r: String)
    ensures
        r@ == spec_i32_text(n),
{
    let mut out = String::new();
    let k: u32 = if n < 0 {
        out.append("-");
        (0 - (n as i64)) as u32
    } else {
        n as u32
    };
    proof {
        reveal_strlit("-");
    }
    push_digits(k, &mut out);
    assert(out@ =~= spec_i32_text(n));
    out
}

/// One less than `n`, or `n` itself at the smallest `i32`.
pub open spec fn saturating_decrement(n: i32) -> i32 {
    if n == i32::MIN {
        n
    } else {
        (n - 1) as i32
    }
}

/// What the server sends first on a new web socket: the text `2`.
pub fn socket_greeting() -> (r: SocketReply)
    ensures
        r matches SocketReply::Text(t) && t@ == "2"@,
{
    SocketReply::Text("2".to_owned())
}

/// The answer to one message: a text holding a number is answered with the
/// number one less (staying at the smallest `i32`), other texts are not
/// answered; binary data is echoed; a ping is answered with a pong and a
/// pong with a ping, with the same payload; a close or an error is not
/// answered.
pub fn socket_reply(msg: SocketMessage) -> (r: SocketReply)
    ensures
        match msg {
            SocketMessage::Text(text) => match spec_parse_i32(text@) {
                Some(n) => r matches SocketReply::Text(t) && t@ == spec_i32_text(
                    saturating_decrement(n),
                ),
                None => r is Nothing,
            },
            SocketMessage::Binary(b) => r == SocketReply::Binary(b),
            SocketMessage::Ping(b) => r == SocketReply::Pong(b),
            SocketMessage::Pong(b) => r == SocketReply::Ping(b),
            SocketMessage::Close => r is Nothing,
            SocketMessage::Failed => r is Nothing,
        },
{
    match msg {
        SocketMessage::Text(text) => match parse_i32(text.as_str()) {
            Some(n) => {
                let m = if n == i32::MIN {
                    n
                } else {
                    n - 1
                };
                SocketReply::Text(i32_text(m))
            },
            None => SocketReply::Nothing,
        },
        SocketMessage::Binary(b) => SocketReply::Binary(b),
        SocketMessage::Ping(b) => SocketReply::Pong(b),
        SocketMessage::Pong(b) => SocketReply::Ping(b),
        SocketMessage::Close => SocketReply::Nothing,
        SocketMessage::Failed => SocketReply::Nothing,
    }
}

proof fn lemma_digit_char(d: nat)
    requires
        d < 10,
    ensures
        is_digit(digit_char(d)),
        digit_char(d) as int - '0' as int == d,
{
    assert(('0' as int) == 48);
    assert((48 + d) as char as int == 48 + d);
}

proof fn lemma_decimal_digits(k: nat)
    ensures
        decimal_digits(k).len() > 0,
        forall|i: int| 0 <= i < decimal_digits(k).len() ==> is_digit(#[trigger] decimal_digits(k)[i]),
        digits_value(decimal_digits(k)) == k,
    decreases k,
{
    if k < 10 {
        lemma_digit_char(k);
        let c = digit_char(k);
        assert(seq![c].drop_last() =~= Seq::<char>::empty());
        assert(seq![c].last() == c);
        assert(digits_value(seq![c]) == digits_value(Seq::<char>::empty()) * 10 + (c as int - '0' as int));
    } else {
        lemma_decimal_digits(k / 10);
        lemma_digit_char(k % 10);
        let p = decimal_digits(k / 10);
        let c = digit_char(k % 10);
        assert(p.push(c).drop_last() =~= p);
        assert(p.push(c).last() == c);
        assert(decimal_digits(k) == p.push(c));
        assert(digits_value(p.push(c)) == digits_value(p) * 10 + (c as int - '0' as int));
        assert(k == (k / 10) * 10 + k % 10);
        assert forall|i: int| 0 <= i < decimal_digits(k).len() implies is_digit(
            #[trigger] decimal_digits(k)[i],
        ) by {
            if i < p.len() {
                assert(decimal_digits(k)[i] == p[i]);
            }
        }
    }
}

/// The text the server sends back for a number reads again as that number,
/// so a client can answer the server's reply in turn.
pub proof fn lemma_reply_reads_back(n: i32)
    ensures
        spec_parse_i32(spec_i32_text(n)) == Some(n),
{
    let s = spec_i32_text(n);
    if n < 0 {
        let k = (-n) as nat;
        lemma_decimal_digits(k);
        assert((seq!['-'] + decimal_digits(k)).drop_first() =~= decimal_digits(k));
        assert(s[0] == '-');
    } else {
        let k = n as nat;
        lemma_decimal_digits(k);
        assert(is_digit(s[0]));
    }
}

} // verus!
