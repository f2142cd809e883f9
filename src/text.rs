//! Text that the library renders itself: decimal numbers, dotted object
//! identifiers, and strings decoded from the native library's byte buffers.
use vstd::prelude::*;

verus! {

/// The character of a decimal digit.
pub open spec fn digit_char(d: nat) -> char {
    if d == 0 {
        '0'
    } else if d == 1 {
        '1'
    } else if d == 2 {
        '2'
    } else if d == 3 {
        '3'
    } else if d == 4 {
        '4'
    } else if d == 5 {
        '5'
    } else if d == 6 {
        '6'
    } else if d == 7 {
        '7'
    } else if d == 8 {
        '8'
    } else {
        '9'
    }
}

/// The decimal numeral of `n`, without leading zeros.
pub open spec fn decimal(n: nat) -> Seq<char>
    decreases n,
{
    if n < 10 {
        seq![digit_char(n)]
    } else {
        decimal(n / 10).push(digit_char(n % 10))
    }
}

/// An object identifier written as its arcs in decimal, separated by dots.
pub open spec fn dotted(oid: Seq<u32>) -> Seq<char>
    decreases oid.len(),
{
    if oid.len() == 0 {
        Seq::empty()
    } else if oid.len() == 1 {
        decimal(oid[0] as nat)
    } else {
        dotted(oid.drop_last()) + seq!['.'] + decimal(oid.last() as nat)
    }
}

/// What the native library's text becomes when its bytes are not UTF-8.
pub open spec fn invalid_text() -> Seq<char> {
    "<invalid UTF8 string>"@
}

/// The characters that `std::str::from_utf8` finds in `b`, or `None` where
/// `b` is not UTF-8.
pub uninterp spec fn utf8_decode(b: Seq<u8>) -> Option<Seq<char>>;

/// The text that a native string field stands for: an absent field is empty,
/// a field that is not UTF-8 reads as a visible placeholder.
pub open spec fn field_text(raw: Option<Seq<u8>>) -> Seq<char> {
    match raw {
        None => Seq::empty(),
        Some(b) => match utf8_decode(b) {
            Some(s) => s,
            None => invalid_text(),
        },
    }
}

/// Relies on `std::str::from_utf8`: it decodes `b` when `b` is UTF-8, and the
/// outcome depends on the bytes alone.
#[verifier::external_body]
fn utf8_to_string(b: &[u8]) -> (r: Option<String>)
    ensures
        match r {
            Some(s) => utf8_decode(b@) == Some(s@),
            None => utf8_decode(b@) is None,
        },
{
    std::str::from_utf8(b).ok().map(|s| s.to_string())
}

/// Decodes a native string field (`None` for a null field).
pub fn text_from_bytes(raw: Option<&[u8]>) -> (r: String)
    ensures
        r@ == field_text(
            match raw {
                Some(b) => Some(b@),
                None => None,
            },
        ),
{
    match raw {
        None => String::new(),
        Some(b) => match utf8_to_string(b) {
            Some(s) => s,
            None => {
                let s = String::from_str("<invalid UTF8 string>");
                proof {
                    reveal_strlit("<invalid UTF8 string>");
                }
                s
            },
        },
    }
}

fn digit_str(d: u32) -> (r: &'static str)
    requires
        d < 10,
    ensures
        r@ == seq![digit_char(d as nat)],
{
    let r = match d {
        0 => "0",
        1 => "1",
        2 => "2",
        3 => "3",
        4 => "4",
        5 => "5",
        6 => "6",
        7 => "7",
        8 => "8",
        _ => "9",
    };
    proof {
        reveal_strlit("0");
        reveal_strlit("1");
        reveal_strlit("2");
        reveal_strlit("3");
        reveal_strlit("4");
        reveal_strlit("5");
        reveal_strlit("6");
        reveal_strlit("7");
        reveal_strlit("8");
        reveal_strlit("9");
    }
    r
}

/// Appends the decimal numeral of `n` to `out`.
pub fn push_decimal(out: &mut String, n: u32)
    ensures
        final(out)@ == old(out)@ + decimal(n as nat),
    decreases n,
{
    if n < 10 {
        out.append(digit_str(n));
    } else {
        push_decimal(out, n / 10);
        out.append(digit_str(n % 10));
        proof {
            assert(decimal(n as nat) == decimal((n / 10) as nat).push(digit_char((n % 10) as nat)));
            assert(old(out)@ + decimal(n as nat) =~= old(out)@ + decimal((n / 10) as nat) + seq![
                digit_char((n % 10) as nat),
            ]);
        }
    }
}

/// The dotted-decimal form of an object identifier (`1.3.6.1`).
pub fn oid_to_dotted(oid: &[u32]) -> (r: String)
    ensures
        r@ == dotted(oid@),
{
    let mut r = String::new();
    let mut i: usize = 0;
    while i < oid.len()
        invariant
            i <= oid@.len(),
            r@ == dotted(oid@.take(i as int)),
        decreases oid@.len() - i,
    {
        if i > 0 {
            r.append(".");
            proof {
                reveal_strlit(".");
            }
        }
        push_decimal(&mut r, oid[i]);
        proof {
            let t = oid@.take(i as int + 1);
            assert(t.drop_last() =~= oid@.take(i as int));
            assert(t.last() == oid@[i as int]);
            assert(r@ =~= dotted(t));
        }
        i = i + 1;
    }
    proof {
        assert(oid@.take(oid@.len() as int) =~= oid@);
    }
    r
}

} // verus!
