//! What a legal command line asks for.

use crate::cli::{Cli, Mode};
use crate::error::{Failure, Malformed};
use crate::text::{chars_of, texts};
use vstd::prelude::*;
use vstd::string::StringExecFns;

verus! {

/// One request, with everything it needs.
#[derive(Debug, Clone, PartialEq, Eq)]
pub enum Intent {
    /// Remove the topic for good.
    Destroy(String),
    /// Remove the line at the given position, counted from 0.
    DeleteLine(String, usize),
    /// Open the topic's file in the editor.
    Edit(String),
    /// Show every topic with all its lines.
    DumpAll,
    /// Add the text as a new last line of the topic.
    Append(String, String),
    /// Show the lines of the topic.
    ReadTopic(String),
    /// Show the names of the topics.
    ListTopics,
}

/// An [`Intent`] as a mathematical value.
pub enum IntentView {
    Destroy(Seq<char>),
    DeleteLine(Seq<char>, nat),
    Edit(Seq<char>),
    DumpAll,
    Append(Seq<char>, Seq<char>),
    ReadTopic(Seq<char>),
    ListTopics,
}

impl View for Intent {
    type V = IntentView;

    open spec fn view(&self) -> IntentView {
        match self {
            Intent::Destroy(topic) => IntentView::Destroy(topic@),
            Intent::DeleteLine(topic, index) => IntentView::DeleteLine(topic@, *index as nat),
            Intent::Edit(topic) => IntentView::Edit(topic@),
            Intent::DumpAll => IntentView::DumpAll,
            Intent::Append(topic, text) => IntentView::Append(topic@, text@),
            Intent::ReadTopic(topic) => IntentView::ReadTopic(topic@),
            Intent::ListTopics => IntentView::ListTopics,
        }
    }
}

/// The values in order, with one space between neighbours.
pub open spec fn joined(values: Seq<Seq<char>>) -> Seq<char>
    decreases values.len(),
{
    if values.len() == 0 {
        Seq::empty()
    } else if values.len() == 1 {
        values[0]
    } else {
        joined(values.drop_last()) + seq![' '] + values.last()
    }
}

/// The values in order, with one space between neighbours.
pub fn join_values(values: &Vec<String>) -> (text: String)
    ensures
        text@ == joined(texts(values@)),
{
    let mut text = String::new();
    let mut i: usize = 0;
    while i < values.len()
        invariant
            i <= values.len(),
            text@ == joined(texts(values@).take(i as int)),
        decreases values.len() - i,
    {
        proof {
            let before = texts(values@).take(i as int);
            let after = texts(values@).take(i + 1);
            assert(after.drop_last() == before);
            assert(after.last() == values@[i as int]@);
            reveal_strlit(" ");
            assert(" "@ == seq![' ']);
        }
        if i > 0 {
            text.append(" ");
        }
        text.append(values[i].as_str());
        i += 1;
    }
    proof {
        assert(texts(values@).take(values.len() as int) == texts(values@));
    }
    text
}

pub open spec fn is_digit(c: char) -> bool {
    '0' <= c <= '9'
}

pub open spec fn digit_value(c: char) -> nat {
    (c as u32 - '0' as u32) as nat
}

/// The number that a run of decimal digits writes.
pub open spec fn decimal(digits: Seq<char>) -> nat
    decreases digits.len(),
{
    if digits.len() == 0 {
        0
    } else {
        10 * decimal(digits.drop_last()) + digit_value(digits.last())
    }
}

pub open spec fn all_digits(digits: Seq<char>) -> bool {
    forall|i: int| 0 <= i < digits.len() ==> is_digit(#[trigger] digits[i])
}

/// The text without the plus sign that may lead it.
pub open spec fn unsigned_part(text: Seq<char>) -> Seq<char> {
    if text.len() > 0 && text[0] == '+' {
        text.skip(1)
    } else {
        text
    }
}

/// The line index that a text writes: one or more decimal digits, after at
/// most one leading plus sign, whose number a `usize` can hold.
pub open spec fn line_index(text: Seq<char>) -> Option<nat> {
    let digits = unsigned_part(text);
    if digits.len() > 0 && all_digits(digits) && decimal(digits) <= usize::MAX {
        Some(decimal(digits))
    } else {
        None
    }
}

/// The number written by the first digits of a run is not above the number
/// written by the whole run.
pub proof fn lemma_decimal_grows(digits: Seq<char>, n: int)
    requires
        0 <= n <= digits.len(),
    ensures
        decimal(digits.take(n)) <= decimal(digits),
    decreases digits.len() - n,
{
    if n == digits.len() {
        assert(digits.take(n) == digits);
    } else {
        lemma_decimal_grows(digits, n + 1);
        assert(digits.take(n + 1).drop_last() == digits.take(n));
    }
}

/// Reads a line index, see [`line_index`].
pub fn parse_line_index(text: &str) -> (index: Option<usize>)
    ensures
        match index {
            Some(n) => line_index(text@) == Some(n as nat),
            None => line_index(text@) is None,
        },
{
    let chars = chars_of(text);
    let start: usize = if chars.len() > 0 && chars[0] == '+' {
        1
    } else {
        0
    };
    let ghost digits = unsigned_part(text@);
    assert(digits == chars@.skip(start as int));
    if start == chars.len() {
        return None;
    }
    let mut value: usize = 0;
    let mut i: usize = start;
    while i < chars.len()
        invariant
            start <= i <= chars.len(),
            digits == chars@.skip(start as int),
            digits == unsigned_part(text@),
            all_digits(digits.take(i - start)),
            value == decimal(digits.take(i - start)),
        decreases chars.len() - i,
    {
        let c = chars[i];
        assert(digits[i - start] == c);
        if !('0' <= c && c <= '9') {
            assert(!is_digit(digits[i - start]));
            return None;
        }
        let digit = (c as u32 - '0' as u32) as usize;
        proof {
            let longer = digits.take(i - start + 1);
            assert(longer.drop_last() == digits.take(i - start));
            assert(longer.last() == c);
            assert(decimal(longer) == 10 * value + digit);
            assert(all_digits(longer));
            lemma_decimal_grows(digits, i - start + 1);
        }
        let scaled = match value.checked_mul(10) {
            Some(scaled) => scaled,
            None => {
                return None;
            },
        };
        value = match scaled.checked_add(digit) {
            Some(sum) => sum,
            None => {
                return None;
            },
        };
        i += 1;
    }
    proof {
        assert(digits.take(i - start) == digits);
    }
    Some(value)
}

impl Cli {
    /// What this command line asks for. A refused command line asks for
    /// nothing; to destroy takes a topic; the line to delete is written by
    /// the first value; with no flag set, a topic with values is added to,
    /// a topic alone is shown, and with no topic the topics are listed.
    pub open spec fn request(&self) -> Result<IntentView, Failure> {
        match self.rejection() {
            Some(reason) => Err(Failure::Validation(reason)),
            None => match self.mode() {
                Mode::Destroy => match self.topic {
                    Some(topic) => Ok(IntentView::Destroy(topic@)),
                    None => Err(Failure::NotFound),
                },
                Mode::DeleteLine => match line_index(self.value@[0]@) {
                    Some(index) => Ok(IntentView::DeleteLine(self.topic->0@, index)),
                    None => Err(Failure::Parse(Malformed::LineIndex)),
                },
                Mode::Edit => Ok(IntentView::Edit(self.topic->0@)),
                Mode::DumpAll => Ok(IntentView::DumpAll),
                Mode::Plain => match self.topic {
                    None => Ok(IntentView::ListTopics),
                    Some(topic) => if self.has_values() {
                        Ok(IntentView::Append(topic@, joined(texts(self.value@))))
                    } else {
                        Ok(IntentView::ReadTopic(topic@))
                    },
                },
            },
        }
    }

    /// What this command line asks for, see [`Cli::request`].
    pub fn intent(&self) -> (outcome: Result<Intent, Failure>)
        ensures
            match outcome {
                Ok(intent) => self.request() == Ok::<IntentView, Failure>(intent@),
                Err(error) => self.request() == Err::<IntentView, Failure>(error),
            },
    {
        if let Some(reason) = self.refusal() {
            return Err(Failure::Validation(reason));
        }
        match self.active_mode() {
            Mode::Destroy => match &self.topic {
                Some(topic) => Ok(Intent::Destroy(topic.clone())),
                None => Err(Failure::NotFound),
            },
            Mode::DeleteLine => match (&self.topic, parse_line_index(self.value[0].as_str())) {
                (Some(topic), Some(index)) => Ok(Intent::DeleteLine(topic.clone(), index)),
                _ => Err(Failure::Parse(Malformed::LineIndex)),
            },
            Mode::Edit => match &self.topic {
                Some(topic) => Ok(Intent::Edit(topic.clone())),
                None => Err(Failure::NotFound),
            },
            Mode::DumpAll => Ok(Intent::DumpAll),
            Mode::Plain => match &self.topic {
                None => Ok(Intent::ListTopics),
                Some(topic) => if self.value.len() > 0 {
                    Ok(Intent::Append(topic.clone(), join_values(&self.value)))
                } else {
                    Ok(Intent::ReadTopic(topic.clone()))
                },
            },
        }
    }
}

} // verus!
