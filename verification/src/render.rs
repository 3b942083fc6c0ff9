//! Rendering of the payment summary: fixed-point amounts in their
//! human-facing base-unit decimal form, heights in decimal, and the fixed
//! ten-line summary a record is emitted as.
use vstd::prelude::*;
use vstd::string::StringExecFns;

use crate::chain::SATS_PER_COIN;
use crate::inspect::TransactionRecord;

verus! {

/// The decimal digit character for a value; meaningful for values below
/// ten.
pub open spec fn digit_char(d: nat) -> char {
    if d == 0 {
        '0'
    } else if d == 1 {
        '1'
    } else if d == 2 {
        '2'
    } else if d == 3 {
        '3'
    } else if d == 4 {
        '4'
    } else if d == 5 {
        '5'
    } else if d == 6 {
        '6'
    } else if d == 7 {
        '7'
    } else if d == 8 {
        '8'
    } else {
        '9'
    }
}

/// The decimal digits of a number, most significant first, with no leading
/// zeros (zero itself renders as one digit).
pub open spec fn decimal_digits(n: nat) -> Seq<char>
    decreases n,
{
    if n < 10 {
        seq![digit_char(n)]
    } else {
        decimal_digits(n / 10).push(digit_char(n % 10))
    }
}

/// The low `width` decimal digits of a number, zero-padded on the left.
pub open spec fn fixed_digits(n: nat, width: nat) -> Seq<char>
    decreases width,
{
    if width == 0 {
        Seq::empty()
    } else {
        fixed_digits(n / 10, (width - 1) as nat).push(digit_char(n % 10))
    }
}

/// The digits with their trailing zeros removed.
pub open spec fn chop_zeros(s: Seq<char>) -> Seq<char>
    decreases s.len(),
{
    if s.len() > 0 && s.last() == '0' {
        chop_zeros(s.drop_last())
    } else {
        s
    }
}

/// Ten to the given power.
pub open spec fn pow10(e: nat) -> nat
    decreases e,
{
    if e == 0 {
        1
    } else {
        10 * pow10((e - 1) as nat)
    }
}

/// The base-unit decimal form of an amount of subunits: the whole base
/// units, then — only if a fractional part exists — a point and the
/// fractional subunits with trailing zeros trimmed.
pub open spec fn coin_text(sats: u64) -> Seq<char> {
    let whole = (sats / SATS_PER_COIN) as nat;
    let frac = (sats % SATS_PER_COIN) as nat;
    if frac == 0 {
        decimal_digits(whole)
    } else {
        decimal_digits(whole) + seq!['.'] + chop_zeros(fixed_digits(frac, 8))
    }
}

/// The text of one decimal digit.
fn digit_text(d: u64) -> (s: &'static str)
    requires
        d < 10,
    ensures
        s@ == seq![digit_char(d as nat)],
{
    if d == 0 {
        proof {
            reveal_strlit("0");
            assert("0"@ =~= seq![digit_char(0)]);
        }
        "0"
    } else if d == 1 {
        proof {
            reveal_strlit("1");
            assert("1"@ =~= seq![digit_char(1)]);
        }
        "1"
    } else if d == 2 {
        proof {
            reveal_strlit("2");
            assert("2"@ =~= seq![digit_char(2)]);
        }
        "2"
    } else if d == 3 {
        proof {
            reveal_strlit("3");
            assert("3"@ =~= seq![digit_char(3)]);
        }
        "3"
    } else if d == 4 {
        proof {
            reveal_strlit("4");
            assert("4"@ =~= seq![digit_char(4)]);
        }
        "4"
    } else if d == 5 {
        proof {
            reveal_strlit("5");
            assert("5"@ =~= seq![digit_char(5)]);
        }
        "5"
    } else if d == 6 {
        proof {
            reveal_strlit("6");
            assert("6"@ =~= seq![digit_char(6)]);
        }
        "6"
    } else if d == 7 {
        proof {
            reveal_strlit("7");
            assert("7"@ =~= seq![digit_char(7)]);
        }
        "7"
    } else if d == 8 {
        proof {
            reveal_strlit("8");
            assert("8"@ =~= seq![digit_char(8)]);
        }
        "8"
    } else {
        proof {
            reveal_strlit("9");
            assert("9"@ =~= seq![digit_char(9)]);
        }
        "9"
    }
}

/// A number in decimal, most significant digit first.
pub fn decimal_string(n: u64) -> (s: String)
    ensures
        s@ == decimal_digits(n as nat),
    decreases n,
{
    if n < 10 {
        digit_text(n).to_owned()
    } else {
        let mut s = decimal_string(n / 10);
        s.append(digit_text(n % 10));
        s
    }
}

/// The low `width` decimal digits of a number, zero-padded on the left.
fn fixed_string(n: u64, width: u64) -> (s: String)
    ensures
        s@ == fixed_digits(n as nat, width as nat),
    decreases width,
{
    if width == 0 {
        String::new()
    } else {
        let mut s = fixed_string(n / 10, width - 1);
        s.append(digit_text(n % 10));
        s
    }
}

/// Removing one trailing zero digit does not change the trimmed digits.
proof fn lemma_chop_step(n: nat, w: nat)
    requires
        w >= 1,
        n % 10 == 0,
    ensures
        chop_zeros(fixed_digits(n, w)) == chop_zeros(fixed_digits(n / 10, (w - 1) as nat)),
{
    let x = fixed_digits(n / 10, (w - 1) as nat);
    assert(fixed_digits(n, w) == x.push(digit_char(n % 10)));
    assert(digit_char(n % 10) == '0');
    assert(x.push('0').last() == '0');
    assert(x.push('0').drop_last() =~= x);
}

/// Digits ending in a nonzero digit are already trimmed.
proof fn lemma_chop_noop(n: nat, w: nat)
    requires
        w >= 1,
        n % 10 != 0,
    ensures
        chop_zeros(fixed_digits(n, w)) == fixed_digits(n, w),
{
    let x = fixed_digits(n / 10, (w - 1) as nat);
    assert(fixed_digits(n, w) == x.push(digit_char(n % 10)));
    assert(fixed_digits(n, w).last() == digit_char(n % 10));
    assert(digit_char(n % 10) != '0');
}

/// The power of ten matching the subunit precision.
proof fn lemma_pow10_8()
    ensures
        pow10(8) == 100_000_000,
{
    assert(pow10(0) == 1);
    assert(pow10(1) == 10);
    assert(pow10(2) == 100);
    assert(pow10(3) == 1000);
    assert(pow10(4) == 10000);
    assert(pow10(5) == 100000);
    assert(pow10(6) == 1000000);
    assert(pow10(7) == 10000000);
    assert(pow10(8) == 100000000);
}

/// An amount of subunits in its base-unit decimal form.
pub fn coin_string(sats: u64) -> (s: String)
    ensures
        s@ == coin_text(sats),
{
    let whole = sats / SATS_PER_COIN;
    let frac = sats % SATS_PER_COIN;
    let mut s = decimal_string(whole);
    if frac > 0 {
        proof {
            reveal_strlit(".");
            assert("."@ =~= seq!['.']);
            lemma_pow10_8();
        }
        s.append(".");
        let mut f = frac;
        let mut w: u64 = 8;
        while f % 10 == 0
            invariant
                f > 0,
                w <= 8,
                (f as nat) < pow10(w as nat),
                chop_zeros(fixed_digits(frac as nat, 8)) == chop_zeros(
                    fixed_digits(f as nat, w as nat),
                ),
            decreases f,
        {
            proof {
                if w == 0 {
                    assert(pow10(0) == 1);
                }
                lemma_chop_step(f as nat, w as nat);
                assert(pow10(w as nat) == 10 * pow10((w - 1) as nat));
                assert(f == 10 * (f / 10) + f % 10);
            }
            f = f / 10;
            w = w - 1;
        }
        proof {
            if w == 0 {
                assert(pow10(0) == 1);
            }
            lemma_chop_noop(f as nat, w as nat);
        }
        let tail = fixed_string(f, w);
        s.append(tail.as_str());
        proof {
            assert(s@ =~= coin_text(sats));
        }
    }
    s
}

/// The fixed ten-line summary of a reconstructed payment, in emission
/// order: transaction id; funding address; funding amount; recipient
/// address or "N/A"; recipient amount or zero; change address or "N/A";
/// change amount or zero; fee magnitude; confirming block height;
/// confirming block hash. Amounts render in base units, the height in
/// plain decimal.
pub fn summary_lines(rec: &TransactionRecord) -> (lines: Vec<String>)
    ensures
        lines@.len() == 10,
        lines@[0]@ == rec.txid@,
        lines@[1]@ == rec.input.address@,
        lines@[2]@ == coin_text(rec.input.amount_sat),
        rec.recipient_output matches Some(e) ==> lines@[3]@ == e.address@ && lines@[4]@
            == coin_text(e.amount_sat),
        rec.recipient_output is None ==> lines@[3]@ == "N/A"@ && lines@[4]@ == coin_text(0),
        rec.change_output matches Some(e) ==> lines@[5]@ == e.address@ && lines@[6]@ == coin_text(
            e.amount_sat,
        ),
        rec.change_output is None ==> lines@[5]@ == "N/A"@ && lines@[6]@ == coin_text(0),
        lines@[7]@ == coin_text(rec.fee_sat),
        lines@[8]@ == decimal_digits(rec.block_height as nat),
        lines@[9]@ == rec.block_hash@,
{
    let mut lines: Vec<String> = Vec::new();
    lines.push(rec.txid.clone());
    lines.push(rec.input.address.text().clone());
    lines.push(coin_string(rec.input.amount_sat));
    match &rec.recipient_output {
        Some(e) => {
            lines.push(e.address.text().clone());
            lines.push(coin_string(e.amount_sat));
        },
        None => {
            lines.push("N/A".to_owned());
            lines.push(coin_string(0));
        },
    }
    match &rec.change_output {
        Some(e) => {
            lines.push(e.address.text().clone());
            lines.push(coin_string(e.amount_sat));
        },
        None => {
            lines.push("N/A".to_owned());
            lines.push(coin_string(0));
        },
    }
    lines.push(coin_string(rec.fee_sat));
    lines.push(decimal_string(rec.block_height));
    lines.push(rec.block_hash.clone());
    lines
}

} // verus!
