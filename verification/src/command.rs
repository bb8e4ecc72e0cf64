//! What the display controller is told, and how it is spelled on the wire.

use crate::phase::ParOfDay;
use vstd::prelude::*;
use vstd::string::StringExecFns;

verus! {

/// A notice that travels between the parts of the daemon.
#[derive(Clone, Copy, Debug, PartialEq, Eq, Structural)]
pub enum Message {
    /// Daytime has begun: the filter goes off.
    Day,
    /// Daytime is over, or has not begun: the filter goes on.
    Night,
    /// The daemon is to stop.
    Shutdown,
}

/// An instruction for the display controller.
#[derive(Clone, Copy, Debug, PartialEq, Eq, Structural)]
pub enum FilterCommand {
    /// Filter on, at the given colour temperature.
    Enable(i32),
    /// Filter off.
    Disable,
}

/// The notice that a part of the day gives rise to.
pub open spec fn message_of(part: ParOfDay) -> Message {
    if part == ParOfDay::Daytime {
        Message::Day
    } else {
        Message::Night
    }
}

/// The command that a notice stands for; a shutdown stands for none.
pub open spec fn command_of(message: Message, temperature: i32) -> Option<FilterCommand> {
    match message {
        Message::Day => Some(FilterCommand::Disable),
        Message::Night => Some(FilterCommand::Enable(temperature)),
        Message::Shutdown => None,
    }
}

/// The command for a part of the day: filter off during daytime, on at
/// `temperature` before and after it.
pub open spec fn command_in(part: ParOfDay, temperature: i32) -> FilterCommand {
    if part == ParOfDay::Daytime {
        FilterCommand::Disable
    } else {
        FilterCommand::Enable(temperature)
    }
}

/// The notice that goes with a command.
pub open spec fn message_with(command: FilterCommand) -> Message {
    match command {
        FilterCommand::Enable(_) => Message::Night,
        FilterCommand::Disable => Message::Day,
    }
}

/// The character for a single decimal digit.
pub open spec fn digit_char(digit: int) -> char
    recommends
        0 <= digit < 10,
{
    seq!['0', '1', '2', '3', '4', '5', '6', '7', '8', '9'][digit]
}

/// The decimal digits of `number`, most significant first, without leading
/// zeros.
pub open spec fn decimal_digits(number: nat) -> Seq<char>
    decreases number,
{
    if number < 10 {
        seq![digit_char(number as int)]
    } else {
        decimal_digits(number / 10).push(digit_char((number % 10) as int))
    }
}

/// `value` in decimal, with a leading minus sign where it is negative.
pub open spec fn decimal_text(value: int) -> Seq<char> {
    if value < 0 {
        seq!['-'] + decimal_digits((-value) as nat)
    } else {
        decimal_digits(value as nat)
    }
}

/// The number that a sequence of decimal digits denotes.
pub open spec fn digits_value(digits: Seq<char>) -> nat
    decreases digits.len(),
{
    if digits.len() == 0 {
        0
    } else {
        (10 * digits_value(digits.drop_last()) + (digits.last() as u32 - '0' as u32)) as nat
    }
}

/// The line that tells the controller to carry out `command`.
pub open spec fn command_text(command: FilterCommand) -> Seq<char> {
    match command {
        FilterCommand::Enable(temperature) => "temperature "@ + decimal_text(temperature as int),
        FilterCommand::Disable => "identity"@,
    }
}

impl Message {
    /// The notice for a part of the day.
    pub fn for_part(part: ParOfDay) -> (message: Message)
        ensures
            message == message_of(part),
            message != Message::Shutdown,
    {
        match part {
            ParOfDay::Daytime => Message::Day,
            ParOfDay::BeforeDaytime | ParOfDay::AfterDaytime => Message::Night,
        }
    }

    /// The command to carry out on this notice, at the configured
    /// `temperature`.
    pub fn command(&self, temperature: i32) -> (command: Option<FilterCommand>)
        ensures
            command == command_of(*self, temperature),
    {
        match self {
            Message::Day => Some(FilterCommand::Disable),
            Message::Night => Some(FilterCommand::Enable(temperature)),
            Message::Shutdown => None,
        }
    }
}

impl FilterCommand {
    /// The command for a part of the day.
    pub fn for_part(part: ParOfDay, temperature: i32) -> (command: FilterCommand)
        ensures
            command == command_in(part, temperature),
    {
        match part {
            ParOfDay::Daytime => FilterCommand::Disable,
            ParOfDay::BeforeDaytime | ParOfDay::AfterDaytime => FilterCommand::Enable(temperature),
        }
    }

    /// The notice that this command goes with: night for a filter that goes
    /// on, day for one that goes off.
    pub fn message(&self) -> (message: Message)
        ensures
            message == message_with(*self),
    {
        match self {
            FilterCommand::Enable(_) => Message::Night,
            FilterCommand::Disable => Message::Day,
        }
    }

    /// The line to send to the controller.
    pub fn text(&self) -> (line: String)
        ensures
            line@ == command_text(*self),
    {
        match self {
            FilterCommand::Enable(temperature) => {
                let mut line = String::from_str("temperature ");
                append_decimal(&mut line, *temperature);
                line
            },
            FilterCommand::Disable => String::from_str("identity"),
        }
    }
}

/// The one-character string for a decimal digit.
fn digit_str(digit: u32) -> (text: &'static str)
    requires
        digit < 10,
    ensures
        text@ == seq![digit_char(digit as int)],
{
    proof {
        reveal_strlit("0");
        reveal_strlit("1");
        reveal_strlit("2");
        reveal_strlit("3");
        reveal_strlit("4");
        reveal_strlit("5");
        reveal_strlit("6");
        reveal_strlit("7");
        reveal_strlit("8");
        reveal_strlit("9");
    }
    let text = match digit {
        0 => "0",
        1 => "1",
        2 => "2",
        3 => "3",
        4 => "4",
        5 => "5",
        6 => "6",
        7 => "7",
        8 => "8",
        _ => "9",
    };
    assert(text@ =~= seq![digit_char(digit as int)]);
    text
}

/// Appends the decimal digits of `number` to `text`.
fn append_digits(text: &mut String, number: u32)
    ensures
        final(text)@ == old(text)@ + decimal_digits(number as nat),
    decreases number,
{
    if number >= 10 {
        append_digits(text, number / 10);
    }
    text.append(digit_str(number % 10));
    proof {
        let digits = decimal_digits(number as nat);
        if number >= 10 {
            assert(old(text)@ + decimal_digits((number / 10) as nat) + seq![
                digit_char((number % 10) as int),
            ] =~= old(text)@ + digits);
        }
    }
}

/// Appends `value` in decimal to `text`.
pub fn append_decimal(text: &mut String, value: i32)
    ensures
        final(text)@ == old(text)@ + decimal_text(value as int),
{
    if value < 0 {
        let magnitude: i64 = -(value as i64);
        text.append("-");
        append_digits(text, magnitude as u32);
        proof {
            reveal_strlit("-");
            assert(old(text)@ + "-"@ + decimal_digits((-value) as nat) =~= old(text)@ + (seq!['-']
                + decimal_digits((-value) as nat)));
        }
    } else {
        append_digits(text, value as u32);
    }
}

/// Every digit of a number's decimal form is one of the ten digit
/// characters, and the form has no leading zero but for zero itself.
pub proof fn lemma_decimal_digits_well_formed(number: nat)
    ensures
        decimal_digits(number).len() >= 1,
        forall|i: int|
            0 <= i < decimal_digits(number).len() ==> '0' <= #[trigger] decimal_digits(number)[i]
                <= '9',
        number > 0 ==> decimal_digits(number)[0] != '0',
    decreases number,
{
    if number >= 10 {
        lemma_decimal_digits_well_formed(number / 10);
    }
}

/// The decimal form of a number denotes that number, so no two numbers are
/// spelled alike.
pub proof fn lemma_decimal_digits_denote_the_number(number: nat)
    ensures
        digits_value(decimal_digits(number)) == number,
    decreases number,
{
    let digits = decimal_digits(number);
    if number < 10 {
        assert(digits.drop_last() =~= Seq::<char>::empty());
        assert(digits_value(digits.drop_last()) == 0);
    } else {
        lemma_decimal_digits_denote_the_number(number / 10);
        assert(digits.drop_last() =~= decimal_digits(number / 10));
    }
}

/// Notice and command agree: the command for a part of the day is the one
/// that its notice stands for, and goes with that notice.
pub proof fn lemma_notice_and_command_agree(part: ParOfDay, temperature: i32)
    ensures
        command_of(message_of(part), temperature) == Some(command_in(part, temperature)),
        message_with(command_in(part, temperature)) == message_of(part),
{
}

} // verus!
