//! One topic and what each operation does to its file.
//!
//! A topic exists exactly when its file does. The library never touches the
//! disk: a [`TopicFile`] holds what was read from it, an operation changes
//! that value, and the caller writes the outcome back.

use crate::error::Failure;
use crate::lines::{
    closed_form, lemma_lines_hold_no_newline, lemma_lines_of_closed_form, lemma_lines_of_concat,
    lemma_lines_of_rendered, lemma_one_line, lines_of, lines_view, no_newline, push_all,
    render_lines, rendered, split_lines, NEWLINE,
};
use vstd::prelude::*;

verus! {

/// The file of one topic: its bytes, or `None` where there is no file.
#[derive(Debug, Clone, PartialEq, Eq)]
pub struct TopicFile {
    pub content: Option<Vec<u8>>,
}

impl View for TopicFile {
    type V = Option<Seq<u8>>;

    open spec fn view(&self) -> Option<Seq<u8>> {
        match self.content {
            Some(bytes) => Some(bytes@),
            None => None,
        }
    }
}

/// The lines of a topic, or `NotFound` where it has no file.
pub open spec fn read(file: Option<Seq<u8>>) -> Result<Seq<Seq<u8>>, Failure> {
    match file {
        Some(content) => Ok(lines_of(content)),
        None => Err(Failure::NotFound),
    }
}

/// The file after `text` was added: what was there, its last line closed,
/// then the text and a newline. A topic without a file gets one.
pub open spec fn appended(file: Option<Seq<u8>>, text: Seq<u8>) -> Option<Seq<u8>> {
    let before = match file {
        Some(content) => closed_form(content),
        None => Seq::empty(),
    };
    Some(before + text + seq![NEWLINE])
}

/// The file after the line at `index` was taken out: the other lines, in
/// their order. `NotFound` where there is no file, `OutOfRange` where the
/// topic has no such line.
pub open spec fn line_deleted(file: Option<Seq<u8>>, index: nat) -> Result<
    Option<Seq<u8>>,
    Failure,
> {
    match file {
        None => Err(Failure::NotFound),
        Some(content) => if index >= lines_of(content).len() {
            Err(Failure::OutOfRange)
        } else {
            Ok(Some(rendered(lines_of(content).remove(index as int))))
        },
    }
}

/// The file after the topic was destroyed: none. `NotFound` where there
/// was none before.
pub open spec fn destroyed(file: Option<Seq<u8>>) -> Result<Option<Seq<u8>>, Failure> {
    match file {
        None => Err(Failure::NotFound),
        Some(_) => Ok(None),
    }
}

impl TopicFile {
    /// A topic that has no file.
    pub fn absent() -> (file: TopicFile)
        ensures
            file@ is None,
    {
        TopicFile { content: None }
    }

    /// A topic whose file holds `bytes`.
    pub fn holding(bytes: Vec<u8>) -> (file: TopicFile)
        ensures
            file@ == Some(bytes@),
    {
        TopicFile { content: Some(bytes) }
    }

    /// Whether the topic exists.
    pub fn is_present(&self) -> (found: bool)
        ensures
            found == (self@ is Some),
    {
        self.content.is_some()
    }

    /// The lines of the topic, first to last, as they stand in the file.
    pub fn read_topic(&self) -> (outcome: Result<Vec<Vec<u8>>, Failure>)
        ensures
            match outcome {
                Ok(lines) => read(self@) == Ok::<Seq<Seq<u8>>, Failure>(lines_view(lines@)),
                Err(failure) => read(self@) == Err::<Seq<Seq<u8>>, Failure>(failure),
            },
    {
        match &self.content {
            Some(bytes) => Ok(split_lines(bytes.as_slice())),
            None => Err(Failure::NotFound),
        }
    }

    /// Adds `text` as a new last line, making the file if there is none.
    pub fn append(&mut self, text: &[u8])
        ensures
            final(self)@ == appended(old(self)@, text@),
    {
        let mut bytes = match self.content.take() {
            Some(bytes) => bytes,
            None => Vec::new(),
        };
        let n = bytes.len();
        if n > 0 && bytes[n - 1] != NEWLINE {
            bytes.push(NEWLINE);
        }
        push_all(&mut bytes, text);
        bytes.push(NEWLINE);
        self.content = Some(bytes);
    }

    /// Takes out the line at `index`, counted from 0. The lines after it
    /// move up by one. On failure the file is as it was.
    pub fn delete_line(&mut self, index: usize) -> (outcome: Result<(), Failure>)
        ensures
            match outcome {
                Ok(_) => line_deleted(old(self)@, index as nat) == Ok::<Option<Seq<u8>>, Failure>(
                    final(self)@,
                ),
                Err(failure) => line_deleted(old(self)@, index as nat) == Err::<
                    Option<Seq<u8>>,
                    Failure,
                >(failure) && final(self)@ == old(self)@,
            },
    {
        let mut lines = match &self.content {
            Some(bytes) => split_lines(bytes.as_slice()),
            None => {
                return Err(Failure::NotFound);
            },
        };
        if index >= lines.len() {
            return Err(Failure::OutOfRange);
        }
        let ghost before = lines@;
        lines.remove(index);
        assert(lines_view(lines@) == lines_view(before).remove(index as int));
        self.content = Some(render_lines(&lines));
        Ok(())
    }

    /// Removes the file. On failure there was none, and there is none.
    pub fn destroy(&mut self) -> (outcome: Result<(), Failure>)
        ensures
            match outcome {
                Ok(_) => destroyed(old(self)@) == Ok::<Option<Seq<u8>>, Failure>(final(self)@),
                Err(failure) => destroyed(old(self)@) == Err::<Option<Seq<u8>>, Failure>(failure)
                    && final(self)@ == old(self)@,
            },
    {
        if self.content.is_none() {
            return Err(Failure::NotFound);
        }
        self.content = None;
        Ok(())
    }
}

/// A text without a newline, once added, is the last line of the topic, and
/// the lines before it are those that were there.
pub proof fn lemma_append_adds_last_line(file: Option<Seq<u8>>, text: Seq<u8>)
    requires
        no_newline(text),
    ensures
        read(appended(file, text)) == Ok::<Seq<Seq<u8>>, Failure>(
            match file {
                Some(content) => lines_of(content).push(text),
                None => seq![text],
            },
        ),
{
    let before = match file {
        Some(content) => closed_form(content),
        None => Seq::empty(),
    };
    lemma_one_line(text);
    lemma_lines_of_concat(before, text + seq![NEWLINE]);
    assert(before + text + seq![NEWLINE] == before + (text + seq![NEWLINE]));
    match file {
        Some(content) => {
            lemma_lines_of_closed_form(content);
            assert(lines_of(content) + seq![text] == lines_of(content).push(text));
        },
        None => {
            assert(lines_of(before) + seq![text] == seq![text]);
        },
    }
}

/// Two texts without a newline, added one after the other, are read back as
/// the last two lines, in the order in which they were added: after a topic
/// that did not exist, they are all there is.
pub proof fn lemma_append_keeps_order(file: Option<Seq<u8>>, first: Seq<u8>, second: Seq<u8>)
    requires
        no_newline(first),
        no_newline(second),
    ensures
        read(appended(appended(file, first), second)) == Ok::<Seq<Seq<u8>>, Failure>(
            match file {
                Some(content) => lines_of(content) + seq![first, second],
                None => seq![first, second],
            },
        ),
{
    lemma_append_adds_last_line(file, first);
    lemma_append_adds_last_line(appended(file, first), second);
    match file {
        Some(content) => {
            assert(lines_of(content).push(first).push(second) == lines_of(content) + seq![
                first,
                second,
            ]);
        },
        None => {
            assert(seq![first].push(second) == seq![first, second]);
        },
    }
}

/// After a line was taken out, the topic reads as before without that
/// line: one line fewer, the lines before it where they were, each line after
/// it one position up.
pub proof fn lemma_delete_then_read(file: Option<Seq<u8>>, index: nat)
    requires
        file matches Some(content) && index < lines_of(content).len(),
    ensures
        line_deleted(file, index) matches Ok(after) && read(after) matches Ok(lines) && {
            let before = lines_of(file->0);
            &&& lines == before.remove(index as int)
            &&& lines.len() == before.len() - 1
            &&& forall|i: int| 0 <= i < index ==> lines[i] == before[i]
            &&& forall|i: int| index <= i < lines.len() ==> lines[i] == before[i + 1]
        },
{
    let before = lines_of(file->0);
    let remaining = before.remove(index as int);
    lemma_lines_hold_no_newline(file->0);
    assert forall|i: int| 0 <= i < remaining.len() implies no_newline(
        #[trigger] remaining[i],
    ) by {
        if i < index {
            assert(remaining[i] == before[i]);
        } else {
            assert(remaining[i] == before[i + 1]);
        }
    }
    lemma_lines_of_rendered(remaining);
}

/// A destroyed topic cannot be read. To destroy a topic that does not
/// exist fails, and makes no file.
pub proof fn lemma_destroy_then_read(file: Option<Seq<u8>>)
    ensures
        file is Some ==> (destroyed(file) matches Ok(after) && read(after) == Err::<
            Seq<Seq<u8>>,
            Failure,
        >(Failure::NotFound)),
        file is None ==> destroyed(file) == Err::<Option<Seq<u8>>, Failure>(Failure::NotFound),
{
}

} // verus!
