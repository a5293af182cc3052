//! Rendering a byte count as text: the decimal digits of the number
//! followed by a size abbreviation picked by threshold. The thresholds and
//! their order are part of the contract: the first band that admits the
//! number wins.

use vstd::prelude::*;

verus! {

/// The decimal digit character for `d`.
pub open spec fn spec_digit_char(d: int) -> char {
    if d == 0 {
        '0'
    } else if d == 1 {
        '1'
    } else if d == 2 {
        '2'
    } else if d == 3 {
        '3'
    } else if d == 4 {
        '4'
    } else if d == 5 {
        '5'
    } else if d == 6 {
        '6'
    } else if d == 7 {
        '7'
    } else if d == 8 {
        '8'
    } else {
        '9'
    }
}

/// The decimal rendering of `n`, most significant digit first.
pub open spec fn spec_decimal(n: nat) -> Seq<char>
    decreases n,
{
    if n < 10 {
        seq![spec_digit_char(n as int)]
    } else {
        spec_decimal(n / 10).push(spec_digit_char((n % 10) as int))
    }
}

/// The size abbreviation for `n` bytes, when one of the bands admits it.
/// The bands are tried in order, so a number in two overlapping bands gets
/// the earlier abbreviation.
pub open spec fn spec_size_abbreviation(n: u64) -> Option<Seq<char>> {
    if n == 1 {
        Some("B"@)
    } else if n <= 1_000 {
        Some("KB"@)
    } else if n <= 1_024 {
        Some("KiB"@)
    } else if n <= 1_000_000 {
        Some("MB"@)
    } else if n <= 1_048_576 {
        Some("MiB"@)
    } else if n <= 1_000_000_000 {
        Some("GB"@)
    } else if n <= 1_073_741_824 {
        Some("GiB"@)
    } else if n <= 1_000_000_000_000 {
        Some("TB"@)
    } else if n <= 1_099_511_627_776 {
        Some("TiB"@)
    } else {
        None
    }
}

/// The formatted size of `n` bytes: its decimal digits, a space, and the
/// abbreviation; nothing when `n` is beyond the largest band.
pub open spec fn spec_formatted_size(n: u64) -> Option<Seq<char>> {
    match spec_size_abbreviation(n) {
        Some(abb) => Some(spec_decimal(n as nat) + seq![' '] + abb),
        None => None,
    }
}

/// The single-character string for the decimal digit `d`.
fn digit_str(d: u64) -> (r: &'static str)
    requires
        d < 10,
    ensures
        r@ == seq![spec_digit_char(d as int)],
{
    let r: &'static str = if d == 0 {
        "0"
    } else if d == 1 {
        "1"
    } else if d == 2 {
        "2"
    } else if d == 3 {
        "3"
    } else if d == 4 {
        "4"
    } else if d == 5 {
        "5"
    } else if d == 6 {
        "6"
    } else if d == 7 {
        "7"
    } else if d == 8 {
        "8"
    } else {
        "9"
    };
    proof {
        reveal_strlit("0");
        reveal_strlit("1");
        reveal_strlit("2");
        reveal_strlit("3");
        reveal_strlit("4");
        reveal_strlit("5");
        reveal_strlit("6");
        reveal_strlit("7");
        reveal_strlit("8");
        reveal_strlit("9");
        assert(r@ =~= seq![spec_digit_char(d as int)]);
    }
    r
}

/// The digit characters of `ds` read back to front.
spec fn digits_rev_chars(ds: Seq<u64>) -> Seq<char> {
    Seq::new(ds.len(), |i: int| spec_digit_char(ds[ds.len() - 1 - i] as int))
}

/// Render `n` in decimal.
pub fn u64_to_decimal(n: u64) -> (s: String)
    ensures
        s@ == spec_decimal(n as nat),
{
    let mut digits: Vec<u64> = Vec::new();
    let mut m = n;
    loop
        invariant_except_break
            forall|k: int| 0 <= k < digits@.len() ==> digits@[k] < 10,
            if digits@.len() == 0 {
                m == n
            } else {
                spec_decimal(n as nat) =~= spec_decimal(m as nat) + digits_rev_chars(digits@)
            },
        ensures
            forall|k: int| 0 <= k < digits@.len() ==> digits@[k] < 10,
            spec_decimal(n as nat) =~= digits_rev_chars(digits@),
        decreases m,
    {
        let d = m % 10;
        let next = m / 10;
        proof {
            let ds = digits@.push(d);
            assert(digits_rev_chars(ds) =~= seq![spec_digit_char(d as int)] + digits_rev_chars(
                digits@,
            ));
            if next == 0 {
                assert(spec_decimal(m as nat) == seq![spec_digit_char(d as int)]);
            } else {
                assert(spec_decimal(m as nat) == spec_decimal(next as nat).push(
                    spec_digit_char(d as int),
                ));
            }
            if digits@.len() == 0 {
                if next == 0 {
                    assert(spec_decimal(n as nat) =~= digits_rev_chars(ds));
                } else {
                    assert(spec_decimal(n as nat) =~= spec_decimal(next as nat)
                        + digits_rev_chars(ds));
                }
            } else {
                if next == 0 {
                    assert(spec_decimal(n as nat) =~= digits_rev_chars(ds));
                } else {
                    assert(spec_decimal(n as nat) =~= spec_decimal(next as nat)
                        + digits_rev_chars(ds));
                }
            }
        }
        digits.push(d);
        m = next;
        if m == 0 {
            break;
        }
    }
    let mut s = String::new();
    let mut i = digits.len();
    while i > 0
        invariant
            i <= digits@.len(),
            forall|k: int| 0 <= k < digits@.len() ==> digits@[k] < 10,
            s@ =~= digits_rev_chars(digits@).take(digits@.len() - i),
        decreases i,
    {
        i = i - 1;
        s.append(digit_str(digits[i]));
        proof {
            assert(s@ =~= digits_rev_chars(digits@).take(digits@.len() - i));
        }
    }
    proof {
        assert(digits_rev_chars(digits@).take(digits@.len() as int) =~= digits_rev_chars(
            digits@,
        ));
    }
    s
}

/// Render a byte count as text.
pub trait FormateToString {
    /// The text the implementation owes, where one is owed.
    spec fn spec_formatted(&self) -> Option<Seq<char>>;

    fn formate_file_size(&self) -> (r: Option<String>)
        ensures
            match r {
                Some(s) => self.spec_formatted() matches Some(q) && s@ == q,
                None => self.spec_formatted() is None,
            },
    ;
}

impl FormateToString for u64 {
    open spec fn spec_formatted(&self) -> Option<Seq<char>> {
        spec_formatted_size(*self)
    }

    fn formate_file_size(&self) -> (r: Option<String>) {
        let n = *self;
        let abbreviation: Option<&'static str> = if n == 1 {
            Some("B")
        } else if n <= 1_000 {
            Some("KB")
        } else if n <= 1_024 {
            Some("KiB")
        } else if n <= 1_000_000 {
            Some("MB")
        } else if n <= 1_048_576 {
            Some("MiB")
        } else if n <= 1_000_000_000 {
            Some("GB")
        } else if n <= 1_073_741_824 {
            Some("GiB")
        } else if n <= 1_000_000_000_000 {
            Some("TB")
        } else if n <= 1_099_511_627_776 {
            Some("TiB")
        } else {
            None
        };
        match abbreviation {
            Some(abb) => {
                let digits = u64_to_decimal(n);
                let with_space = digits.concat(" ");
                proof {
                    reveal_strlit(" ");
                    assert(" "@ =~= seq![' ']);
                }
                Some(with_space.concat(abb))
            }
            None => None,
        }
    }
}

} // verus!
