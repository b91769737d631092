//! Rendering of gauge label values.
//!
//! Both gauge vectors key their series by string labels.  The status of an
//! invocation is an optional integer: a present status is rendered as its
//! decimal digits, an absent one as the fixed sentinel `"-1"`.  The delivered
//! flag of an event is rendered as `"true"` or `"false"`.

use vstd::prelude::*;

verus! {

/// The decimal digit character for `d`, for `0 <= d <= 9`.
pub open spec fn digit_char(d: int) -> char {
    ((48 + d) as u8) as char
}

/// The decimal digits of `n`, most significant first, no sign and no
/// leading zero (except for `n == 0` itself).
pub open spec fn dec_digits(n: nat) -> Seq<char>
    decreases n,
{
    if n < 10 {
        seq![digit_char(n as int)]
    } else {
        dec_digits(n / 10).push(digit_char((n % 10) as int))
    }
}

/// The decimal rendering of `n`: a minus sign before the digits of its
/// magnitude when `n` is negative, the bare digits otherwise.
pub open spec fn dec_str(n: int) -> Seq<char> {
    if n < 0 {
        seq!['-'] + dec_digits((-n) as nat)
    } else {
        dec_digits(n as nat)
    }
}

/// The fixed sentinel label published in place of an absent status.  It is
/// the rendering of `-1`, a value no real status takes, so the label is
/// stable and distinct from every present status.
pub open spec fn sentinel_label() -> Seq<char> {
    dec_str(-1)
}

/// The status label: the decimal status itself, or the sentinel when absent.
pub open spec fn status_label(status: Option<i32>) -> Seq<char> {
    match status {
        Some(v) => dec_str(v as int),
        None => sentinel_label(),
    }
}

/// The delivered label: `"true"` or `"false"`.
pub open spec fn delivered_label(delivered: bool) -> Seq<char> {
    if delivered {
        "true"@
    } else {
        "false"@
    }
}

/// The characters of a sequence of ASCII bytes, one per byte.
pub open spec fn ascii_chars(bytes: Seq<u8>) -> Seq<char> {
    bytes.map_values(|b: u8| b as char)
}

/// Relies on `String::from_utf8`: bytes below 128 are valid UTF-8 and decode
/// to one character per byte, each with the byte's own code.
#[verifier::external_body]
fn string_from_ascii(bytes: Vec<u8>) -> (r: String)
    requires
        forall|i: int| 0 <= i < bytes@.len() ==> bytes@[i] < 128,
    ensures
        r@ == ascii_chars(bytes@),
{
    String::from_utf8(bytes).unwrap()
}

/// The characters of the bytes collected so far, least significant digit
/// first, read back in publication order.
spec fn collected_chars(bytes: Seq<u8>) -> Seq<char> {
    ascii_chars(bytes).reverse()
}

/// Renders `n` in decimal, exactly as [`dec_str`] states.
pub fn int_label(n: i32) -> (s: String)
    ensures
        s@ == dec_str(n as int),
{
    let neg = n < 0;
    let mut m: u64 = if n >= 0 {
        n as u64
    } else {
        (-(n as i64)) as u64
    };
    let ghost m0: nat = m as nat;
    let mut rev: Vec<u8> = Vec::new();
    while m >= 10
        invariant
            dec_digits(m0) == dec_digits(m as nat) + collected_chars(rev@),
            forall|j: int| 0 <= j < rev@.len() ==> 48 <= #[trigger] rev@[j] < 58,
        decreases m,
    {
        let d: u8 = (m % 10) as u8 + 48;
        proof {
            let c = digit_char((m % 10) as int);
            assert(collected_chars(rev@.push(d)) =~= seq![c] + collected_chars(rev@));
            assert(dec_digits(m as nat) =~= dec_digits((m as nat) / 10) + seq![c]);
            assert(dec_digits(m0) =~= dec_digits((m as nat) / 10) + (seq![c]
                + collected_chars(rev@)));
            assert((m / 10) as nat == (m as nat) / 10);
        }
        rev.push(d);
        m = m / 10;
    }
    let d: u8 = m as u8 + 48;
    proof {
        let c = digit_char(m as int);
        assert(collected_chars(rev@.push(d)) =~= seq![c] + collected_chars(rev@));
        assert(dec_digits(m as nat) =~= seq![c]);
    }
    rev.push(d);
    assert(dec_digits(m0) =~= collected_chars(rev@));

    let mut out: Vec<u8> = Vec::new();
    let ghost sign: Seq<char> = if neg {
        seq!['-']
    } else {
        Seq::empty()
    };
    if neg {
        out.push(45);
        assert(ascii_chars(out@) =~= sign);
    } else {
        assert(ascii_chars(out@) =~= sign);
    }
    let mut i: usize = rev.len();
    while i > 0
        invariant
            i <= rev@.len(),
            forall|j: int| 0 <= j < rev@.len() ==> 48 <= #[trigger] rev@[j] < 58,
            forall|j: int| 0 <= j < out@.len() ==> #[trigger] out@[j] < 128,
            ascii_chars(out@) == sign + collected_chars(rev@).take(rev@.len() - i),
        decreases i,
    {
        i = i - 1;
        let b = rev[i];
        proof {
            let k = rev@.len() - i;
            assert(collected_chars(rev@)[k - 1] == ascii_chars(rev@)[i as int]);
            assert(ascii_chars(out@.push(b)) =~= ascii_chars(out@).push(b as char));
            assert(sign + collected_chars(rev@).take(k) =~= (sign + collected_chars(rev@).take(
                k - 1,
            )).push(b as char));
        }
        out.push(b);
    }
    proof {
        assert(collected_chars(rev@).take(rev@.len() - 0) =~= collected_chars(rev@));
        assert(ascii_chars(out@) =~= sign + dec_digits(m0));
        if neg {
            assert((45 as u8) as char == '-');
            assert(dec_str(n as int) =~= sign + dec_digits(m0));
        }
    }
    string_from_ascii(out)
}

/// The sentinel is literally the two characters `-1`, and every absent
/// status is rendered as exactly that sequence, however often an absent
/// status recurs across events and cycles.
pub proof fn lemma_sentinel_label_value()
    ensures
        sentinel_label() == "-1"@,
        forall|status: Option<i32>| status is None ==> status_label(status) == "-1"@,
{
    reveal_strlit("-1");
    assert(digit_char(1) == '1');
    assert(sentinel_label() =~= "-1"@);
}

/// Renders the status label: the status in decimal, or the sentinel `"-1"`
/// when the status is absent.
pub fn status_label_string(status: &Option<i32>) -> (s: String)
    ensures
        s@ == status_label(*status),
{
    match status {
        Some(v) => int_label(*v),
        None => int_label(-1),
    }
}

/// Renders the delivered label, `"true"` or `"false"`.
pub fn delivered_label_string(delivered: bool) -> (s: String)
    ensures
        s@ == delivered_label(delivered),
{
    if delivered {
        "true".to_owned()
    } else {
        "false".to_owned()
    }
}

} // verus!
