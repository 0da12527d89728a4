//! Choosing the microphone from a numbered list, by a number typed in.

use crate::text::{chars_of, trim, trim_range};
use vstd::prelude::*;
use vstd::string::StringExecFns;

verus! {

/// The ten decimal digits.
pub open spec fn is_digit(c: char) -> bool {
    0x30 <= c as u32 <= 0x39
}

/// The number that a digit stands for.
pub open spec fn digit_value(c: char) -> int {
    c as u32 - 0x30
}

/// Whether `s` is made of digits only.
pub open spec fn all_digits(s: Seq<char>) -> bool {
    forall|i: int| 0 <= i < s.len() ==> is_digit(#[trigger] s[i])
}

/// The number that the digits `digits` write in decimal.
pub open spec fn number_of(digits: Seq<char>) -> int
    decreases digits.len(),
{
    if digits.len() == 0 {
        0
    } else {
        10 * number_of(digits.drop_last()) + digit_value(digits.last())
    }
}

/// The number that `s` writes: one or more digits, with or without a plus
/// sign before them.
pub open spec fn unsigned_of(s: Seq<char>) -> Option<int> {
    let digits = if s.len() > 0 && s[0] == '+' {
        s.drop_first()
    } else {
        s
    };
    if digits.len() > 0 && all_digits(digits) {
        Some(number_of(digits))
    } else {
        None
    }
}

/// The device that `answer` chooses among `devices` devices, counted from 0:
/// the answer, white space aside, is a number from 1 to `devices`, which
/// counts from 1.
pub open spec fn choice_of(answer: Seq<char>, devices: int) -> Option<int> {
    match unsigned_of(trim(answer)) {
        Some(n) => if 1 <= n <= devices {
            Some(n - 1)
        } else {
            None
        },
        None => None,
    }
}

/// A choice is one of the devices.
pub proof fn choice_is_a_device(answer: Seq<char>, devices: int)
    ensures
        choice_of(answer, devices) matches Some(index) ==> 0 <= index < devices,
{
}

proof fn number_of_nonnegative(digits: Seq<char>)
    requires
        all_digits(digits),
    ensures
        number_of(digits) >= 0,
    decreases digits.len(),
{
    if digits.len() > 0 {
        assert(is_digit(digits[digits.len() - 1]));
        number_of_nonnegative(digits.drop_last());
    }
}

/// Why no microphone can be chosen.
#[derive(Clone, Copy, PartialEq, Eq, Structural, Debug)]
pub enum SelectError {
    /// There is no input device.
    NoDevices,
}

impl SelectError {
    /// What the error says.
    pub open spec fn text(&self) -> Seq<char> {
        "No input devices found"@
    }

    /// What the error says.
    pub fn message(&self) -> (text: String)
        ensures
            text@ == self.text(),
    {
        String::from_str("No input devices found")
    }
}

/// What the menu does next.
#[derive(Clone, Copy, PartialEq, Eq, Structural, Debug)]
pub enum MenuStep {
    /// Ask for a number from 1 to the number of devices.
    Ask,
    /// This device is chosen, counted from 0.
    Chosen(usize),
}

/// Reads the answer to the menu of `devices` devices.
pub fn parse_selection(answer: &str, devices: usize) -> (choice: Option<usize>)
    ensures
        match choice_of(answer@, devices as int) {
            Some(index) => choice == Some(index as usize),
            None => choice is None,
        },
{
    let chars = chars_of(answer);
    let (lo, hi) = trim_range(&chars, 0, chars.len());
    assert(chars@.subrange(0, chars.len() as int) == chars@);
    let ghost t = chars@.subrange(lo as int, hi as int);
    let start = if lo < hi && chars[lo] == '+' {
        lo + 1
    } else {
        lo
    };
    let ghost digits = chars@.subrange(start as int, hi as int);
    assert(digits == if t.len() > 0 && t[0] == '+' {
        t.drop_first()
    } else {
        t
    });
    if start == hi {
        return None;
    }
    let mut value: usize = 0;
    let mut too_big = false;
    let mut i = start;
    while i < hi
        invariant
            start <= i <= hi <= chars.len(),
            digits == chars@.subrange(start as int, hi as int),
            unsigned_of(trim(answer@)) == if all_digits(digits) {
                Some(number_of(digits))
            } else {
                None
            },
            all_digits(chars@.subrange(start as int, i as int)),
            !too_big ==> value == number_of(chars@.subrange(start as int, i as int)) && value
                <= devices,
            too_big ==> number_of(chars@.subrange(start as int, i as int)) > devices,
        decreases hi - i,
    {
        let c = chars[i];
        let u = c as u32;
        if u < 0x30 || u > 0x39 {
            assert(digits[i - start] == c);
            assert(!all_digits(digits));
            return None;
        }
        let digit = (u - 0x30) as usize;
        proof {
            let read = chars@.subrange(start as int, i as int);
            let grown = chars@.subrange(start as int, i + 1);
            assert(grown.drop_last() == read);
            assert(grown.last() == c);
            assert(all_digits(grown)) by {
                assert forall|k: int| 0 <= k < grown.len() implies is_digit(
                    #[trigger] grown[k],
                ) by {
                    if k < read.len() {
                        assert(grown[k] == read[k]);
                    }
                }
            }
            number_of_nonnegative(read);
        }
        if !too_big {
            match value.checked_mul(10) {
                Some(tens) => match tens.checked_add(digit) {
                    Some(sum) => {
                        if sum > devices {
                            too_big = true;
                        } else {
                            value = sum;
                        }
                    },
                    None => {
                        too_big = true;
                    },
                },
                None => {
                    too_big = true;
                },
            }
        }
        i += 1;
    }
    if too_big || value == 0 {
        None
    } else {
        Some(value - 1)
    }
}

/// One step of choosing the microphone among `devices` devices: `answer` is
/// `None` before the first question, else the line typed in answer to the
/// last one. An answer that chooses no device brings the question again.
pub fn select_microphone(devices: usize, answer: Option<&str>) -> (step: Result<
    MenuStep,
    SelectError,
>)
    ensures
        devices == 0 ==> step == Err::<MenuStep, SelectError>(SelectError::NoDevices),
        devices > 0 ==> step == Ok::<MenuStep, SelectError>(
            match answer {
                Some(line) => match choice_of(line@, devices as int) {
                    Some(index) => MenuStep::Chosen(index as usize),
                    None => MenuStep::Ask,
                },
                None => MenuStep::Ask,
            },
        ),
{
    if devices == 0 {
        return Err(SelectError::NoDevices);
    }
    match answer {
        Some(line) => match parse_selection(line, devices) {
            Some(index) => Ok(MenuStep::Chosen(index)),
            None => Ok(MenuStep::Ask),
        },
        None => Ok(MenuStep::Ask),
    }
}

} // verus!
