//! Rendering of the fixed ASCII command set.

use vstd::prelude::*;

verus! {

/// One operation of the fixed command set, immutable once constructed.
#[derive(Debug)]
pub enum Command {
    /// Select the antenna connector: 0 is the first connector, 1 the second.
    /// Out-of-range selectors are rendered verbatim; the device rejects them.
    SetAntenna(u8),
    /// Step the frequency band down.
    FrequencyDown,
    /// Step the frequency band up.
    FrequencyUp,
    /// An arbitrary caller-supplied payload, passed through unmodified and
    /// not required to end in `;`.
    Transmit(String),
}

/// The character for one decimal digit value.
pub open spec fn spec_digit(d: int) -> char {
    if d == 0 {
        '0'
    } else if d == 1 {
        '1'
    } else if d == 2 {
        '2'
    } else if d == 3 {
        '3'
    } else if d == 4 {
        '4'
    } else if d == 5 {
        '5'
    } else if d == 6 {
        '6'
    } else if d == 7 {
        '7'
    } else if d == 8 {
        '8'
    } else {
        '9'
    }
}

/// The decimal rendering of a byte value, without leading zeros.
pub open spec fn spec_decimal(n: u8) -> Seq<char> {
    if n < 10 {
        seq![spec_digit(n as int)]
    } else if n < 100 {
        seq![spec_digit(n as int / 10), spec_digit(n as int % 10)]
    } else {
        seq![
            spec_digit(n as int / 100),
            spec_digit((n as int / 10) % 10),
            spec_digit(n as int % 10),
        ]
    }
}

impl Command {
    /// The exact ASCII text this command renders to: `AN{selector};`,
    /// `BD;`, `BU;`, or the transmit payload verbatim.
    pub open spec fn spec_encode(self) -> Seq<char> {
        match self {
            Command::SetAntenna(p1) => seq!['A', 'N'] + spec_decimal(p1) + seq![';'],
            Command::FrequencyDown => seq!['B', 'D', ';'],
            Command::FrequencyUp => seq!['B', 'U', ';'],
            Command::Transmit(payload) => payload@,
        }
    }

    /// Renders this command to its ASCII string, exactly as documented for
    /// the device: the template with the trailing `;` and nothing else.
    pub fn encode(&self) -> (r: String)
        ensures
            r@ == self.spec_encode(),
    {
        match self {
            Command::SetAntenna(p1) => {
                let mut s = String::from_str("AN");
                proof {
                    reveal_strlit("AN");
                    assert(s@ =~= seq!['A', 'N']);
                }
                push_decimal(&mut s, *p1);
                s.push(';');
                proof {
                    assert((seq!['A', 'N'] + spec_decimal(*p1)).push(';') =~= seq!['A', 'N']
                        + spec_decimal(*p1) + seq![';']);
                }
                s
            },
            Command::FrequencyDown => {
                let s = String::from_str("BD;");
                proof {
                    reveal_strlit("BD;");
                    assert(s@ =~= seq!['B', 'D', ';']);
                }
                s
            },
            Command::FrequencyUp => {
                let s = String::from_str("BU;");
                proof {
                    reveal_strlit("BU;");
                    assert(s@ =~= seq!['B', 'U', ';']);
                }
                s
            },
            Command::Transmit(payload) => payload.clone(),
        }
    }
}

/// The character for one decimal digit.
fn digit_char(d: u8) -> (c: char)
    requires
        d < 10,
    ensures
        c == spec_digit(d as int),
{
    if d == 0 {
        '0'
    } else if d == 1 {
        '1'
    } else if d == 2 {
        '2'
    } else if d == 3 {
        '3'
    } else if d == 4 {
        '4'
    } else if d == 5 {
        '5'
    } else if d == 6 {
        '6'
    } else if d == 7 {
        '7'
    } else if d == 8 {
        '8'
    } else {
        '9'
    }
}

/// Appends the decimal rendering of `n` to `out`.
fn push_decimal(out: &mut String, n: u8)
    ensures
        final(out)@ == old(out)@ + spec_decimal(n),
{
    if n >= 100 {
        out.push(digit_char(n / 100));
        out.push(digit_char((n / 10) % 10));
        out.push(digit_char(n % 10));
        proof {
            assert(old(out)@ + spec_decimal(n) =~= old(out)@.push(spec_digit(n as int / 100)).push(
                spec_digit((n as int / 10) % 10),
            ).push(spec_digit(n as int % 10)));
        }
    } else if n >= 10 {
        out.push(digit_char(n / 10));
        out.push(digit_char(n % 10));
        proof {
            assert(old(out)@ + spec_decimal(n) =~= old(out)@.push(spec_digit(n as int / 10)).push(
                spec_digit(n as int % 10),
            ));
        }
    } else {
        out.push(digit_char(n));
        proof {
            assert(old(out)@ + spec_decimal(n) =~= old(out)@.push(spec_digit(n as int)));
        }
    }
}

} // verus!
