//! Validated battery percentages and the text that shows them.

use vstd::prelude::*;

verus! {

/// Whether a raw reading is a usable percentage. Devices report 0, or a value
/// above 100, when they have no reading.
pub open spec fn is_valid_percentage(value: u8) -> bool {
    1 <= value <= 100
}

/// The character that shows one decimal digit.
pub open spec fn digit_char(d: int) -> char {
    if d == 0 {
        '0'
    } else if d == 1 {
        '1'
    } else if d == 2 {
        '2'
    } else if d == 3 {
        '3'
    } else if d == 4 {
        '4'
    } else if d == 5 {
        '5'
    } else if d == 6 {
        '6'
    } else if d == 7 {
        '7'
    } else if d == 8 {
        '8'
    } else {
        '9'
    }
}

/// The decimal digits of `n`, most significant first, without leading zeros.
pub open spec fn decimal(n: nat) -> Seq<char>
    decreases n,
{
    if n < 10 {
        seq![digit_char(n as int)]
    } else {
        decimal(n / 10).push(digit_char((n % 10) as int))
    }
}

/// A percentage as it is shown: its decimal digits and a percent sign.
pub open spec fn percent_text(value: u8) -> Seq<char> {
    decimal(value as nat).push('%')
}

fn digit_text(d: u8) -> (text: &'static str)
    requires
        d < 10,
    ensures
        text@ == seq![digit_char(d as int)],
{
    proof {
        reveal_strlit("0");
        reveal_strlit("1");
        reveal_strlit("2");
        reveal_strlit("3");
        reveal_strlit("4");
        reveal_strlit("5");
        reveal_strlit("6");
        reveal_strlit("7");
        reveal_strlit("8");
        reveal_strlit("9");
    }
    let text = match d {
        0 => "0",
        1 => "1",
        2 => "2",
        3 => "3",
        4 => "4",
        5 => "5",
        6 => "6",
        7 => "7",
        8 => "8",
        _ => "9",
    };
    text
}

/// Writes a byte in decimal.
pub fn decimal_text(value: u8) -> (text: String)
    ensures
        text@ == decimal(value as nat),
{
    let mut text = String::new();
    if value >= 100 {
        text.append(digit_text(value / 100));
    }
    if value >= 10 {
        text.append(digit_text((value / 10) % 10));
    }
    text.append(digit_text(value % 10));
    proof {
        reveal_with_fuel(decimal, 3);
    }
    text
}

/// A battery charge in percent, between 1 and 100.
#[derive(Debug, Clone, Copy)]
pub struct BatteryLevel(u8);

impl View for BatteryLevel {
    type V = u8;

    closed spec fn view(&self) -> u8 {
        self.0
    }
}

impl DeepView for BatteryLevel {
    type V = u8;

    open spec fn deep_view(&self) -> u8 {
        self@
    }
}

impl BatteryLevel {
    #[verifier::type_invariant]
    spec fn in_range(self) -> bool {
        is_valid_percentage(self.0)
    }

    /// Validates a raw reading: a level for 1 to 100, nothing for 0 and for
    /// anything above 100.
    pub fn new(value: u8) -> (level: Option<Self>)
        ensures
            level is Some <==> is_valid_percentage(value),
            level matches Some(l) ==> l@ == value,
    {
        if value > 0 && value <= 100 {
            Some(Self(value))
        } else {
            None
        }
    }

    /// The percentage.
    pub fn as_percentage(self) -> (value: u8)
        ensures
            value == self@,
            is_valid_percentage(value),
    {
        proof {
            use_type_invariant(&self);
        }
        self.0
    }

    /// The level as it is shown, such as `75%`.
    pub fn to_string(&self) -> (text: String)
        ensures
            text@ == percent_text(self@),
    {
        let mut text = decimal_text(self.0);
        proof {
            reveal_strlit("%");
        }
        text.append("%");
        text
    }
}

} // verus!
