use vstd::prelude::*;

verus! {

/// Why a line of input was not accepted.
#[derive(Debug, PartialEq, Eq, Structural, Clone, Copy)]
pub enum InputError {
    /// The text is not a non-negative integer that fits in a `u32`.
    InvalidNumber,
}

/// An entry of the main menu.
#[derive(Debug, PartialEq, Eq, Structural, Clone, Copy)]
pub enum Command {
    AddPatient,
    ViewPatients,
    AddMedication,
    ViewMedications,
    RemoveMedication,
    UpdateMedication,
    RemovePatient,
    ExportCsv,
    Exit,
}

/// `c` is an ASCII decimal digit.
pub open spec fn is_digit(c: char) -> bool {
    '0' <= c && c <= '9'
}

/// The value of an ASCII digit.
pub open spec fn digit_value(c: char) -> nat {
    (c as u32 - '0' as u32) as nat
}

/// The value of a string of decimal digits (0 for the empty string).
pub open spec fn digits_value(s: Seq<char>) -> nat
    decreases s.len(),
{
    if s.len() == 0 {
        0
    } else {
        digits_value(s.drop_last()) * 10 + digit_value(s.last())
    }
}

/// Every character of `s` is an ASCII digit.
pub open spec fn all_digits(s: Seq<char>) -> bool {
    forall|i: int| 0 <= i < s.len() ==> is_digit(#[trigger] s[i])
}

/// The text after an optional leading `+`.
pub open spec fn unsigned_part(s: Seq<char>) -> Seq<char> {
    if s.len() > 0 && s[0] == '+' {
        s.drop_first()
    } else {
        s
    }
}

/// The number that `s` denotes when read as a `u32`: an optional `+`, then
/// one or more ASCII digits whose value is at most `u32::MAX`.
pub open spec fn number_of(s: Seq<char>) -> Option<nat> {
    let d = unsigned_part(s);
    if d.len() > 0 && all_digits(d) && digits_value(d) <= u32::MAX {
        Some(digits_value(d))
    } else {
        None
    }
}

/// A longer string of digits is worth at least as much as its prefix.
proof fn lemma_prefix_value_le(s: Seq<char>, k: int)
    requires
        0 <= k <= s.len(),
        all_digits(s),
    ensures
        digits_value(s.take(k)) <= digits_value(s),
    decreases s.len(),
{
    if k < s.len() {
        assert(s.drop_last().take(k) =~= s.take(k));
        lemma_prefix_value_le(s.drop_last(), k);
        assert(digits_value(s.drop_last()) <= digits_value(s)) by (nonlinear_arith)
            requires
                digits_value(s) == digits_value(s.drop_last()) * 10 + digit_value(s.last()),
        ;
    } else {
        assert(s.take(k) =~= s);
    }
}

/// Reads an age: an optional `+` and decimal digits, with a value that fits
/// in a `u32`. Anything else, the empty string included, is refused.
pub fn parse_age(text: &str) -> (r: Result<u32, InputError>)
    ensures
        number_of(text@) matches Some(v) ==> r == Ok::<u32, InputError>(v as u32),
        number_of(text@) is None ==> r == Err::<u32, InputError>(InputError::InvalidNumber),
{
    let len = text.unicode_len();
    let mut start: usize = 0;
    if len > 0 && text.get_char(0) == '+' {
        start = 1;
    }
    let ghost d = unsigned_part(text@);
    assert(d =~= text@.subrange(start as int, len as int));
    if start == len {
        return Err(InputError::InvalidNumber);
    }
    let mut acc: u64 = 0;
    let mut i: usize = start;
    while i < len
        invariant
            start <= i <= len,
            len == text@.len(),
            start < len,
            d == text@.subrange(start as int, len as int),
            d == unsigned_part(text@),
            forall|j: int| 0 <= j < i - start ==> is_digit(#[trigger] d[j]),
            acc == digits_value(d.take(i - start)),
            acc <= u32::MAX,
        decreases len - i,
    {
        let c = text.get_char(i);
        assert(d[i - start] == c);
        if c < '0' || c > '9' {
            assert(!is_digit(d[i - start]));
            return Err(InputError::InvalidNumber);
        }
        let dv = (c as u32 - '0' as u32) as u64;
        let ghost prefix = d.take(i - start + 1);
        assert(prefix.drop_last() =~= d.take(i - start));
        assert(prefix.last() == c);
        assert(digits_value(prefix) == acc * 10 + dv);
        if acc * 10 + dv > u32::MAX as u64 {
            proof {
                if all_digits(d) {
                    lemma_prefix_value_le(d, i - start + 1);
                }
            }
            return Err(InputError::InvalidNumber);
        }
        acc = acc * 10 + dv;
        i = i + 1;
    }
    assert(d.take(len - start) =~= d);
    Ok(acc as u32)
}

/// The menu entry that a token names: `"1"` to `"9"`, exactly.
pub open spec fn command_of(s: Seq<char>) -> Option<Command> {
    if s.len() != 1 {
        None
    } else if s[0] == '1' {
        Some(Command::AddPatient)
    } else if s[0] == '2' {
        Some(Command::ViewPatients)
    } else if s[0] == '3' {
        Some(Command::AddMedication)
    } else if s[0] == '4' {
        Some(Command::ViewMedications)
    } else if s[0] == '5' {
        Some(Command::RemoveMedication)
    } else if s[0] == '6' {
        Some(Command::UpdateMedication)
    } else if s[0] == '7' {
        Some(Command::RemovePatient)
    } else if s[0] == '8' {
        Some(Command::ExportCsv)
    } else if s[0] == '9' {
        Some(Command::Exit)
    } else {
        None
    }
}

impl Command {
    /// The menu entry chosen by `token`, or `None` for any other text.
    pub fn from_token(token: &str) -> (r: Option<Command>)
        ensures
            r == command_of(token@),
    {
        if token.unicode_len() != 1 {
            return None;
        }
        let c = token.get_char(0);
        if c == '1' {
            Some(Command::AddPatient)
        } else if c == '2' {
            Some(Command::ViewPatients)
        } else if c == '3' {
            Some(Command::AddMedication)
        } else if c == '4' {
            Some(Command::ViewMedications)
        } else if c == '5' {
            Some(Command::RemoveMedication)
        } else if c == '6' {
            Some(Command::UpdateMedication)
        } else if c == '7' {
            Some(Command::RemovePatient)
        } else if c == '8' {
            Some(Command::ExportCsv)
        } else if c == '9' {
            Some(Command::Exit)
        } else {
            None
        }
    }
}

} // verus!
