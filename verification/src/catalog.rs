//! The notes directory: which of its files are topics, and under what name.

use crate::config::{child, child_path};
use crate::lines::{lines_of, lines_view, split_lines};
use crate::text::{chars_of, texts};
use vstd::prelude::*;
use vstd::string::StringExecFns;

verus! {

/// What the name of a topic's file ends in.
pub const FILE_EXTENSION_TOPICS: &'static str = ".txt";

/// Whether a text can name a topic: it is not empty and holds neither a
/// slash nor a NUL, so that it names one entry of a directory.
pub open spec fn is_topic_name(name: Seq<char>) -> bool {
    name.len() > 0 && forall|i: int|
        0 <= i < name.len() ==> #[trigger] name[i] != '/' && name[i] != '\0'
}

/// The name of the file of a topic.
pub open spec fn file_name_of(topic: Seq<char>) -> Seq<char> {
    topic + FILE_EXTENSION_TOPICS@
}

/// The topic that a file of the notes directory holds: the name of the file
/// without the extension, where it ends in the extension and more than the
/// extension is left.
pub open spec fn topic_of(file_name: Seq<char>) -> Option<Seq<char>> {
    let cut = file_name.len() - FILE_EXTENSION_TOPICS@.len();
    if cut > 0 && file_name.skip(cut) == FILE_EXTENSION_TOPICS@ {
        Some(file_name.take(cut))
    } else {
        None
    }
}

/// The topics among the files of a directory, in the order of the files.
pub open spec fn topics_in(file_names: Seq<Seq<char>>) -> Seq<Seq<char>>
    decreases file_names.len(),
{
    if file_names.len() == 0 {
        Seq::empty()
    } else {
        let before = topics_in(file_names.drop_last());
        match topic_of(file_names.last()) {
            Some(topic) => before.push(topic),
            None => before,
        }
    }
}

/// The topics among the files of a directory, each with its lines, in the
/// order of the files.
pub open spec fn dump_of(files: Seq<(Seq<char>, Seq<u8>)>) -> Seq<(Seq<char>, Seq<Seq<u8>>)>
    decreases files.len(),
{
    if files.len() == 0 {
        Seq::empty()
    } else {
        let before = dump_of(files.drop_last());
        match topic_of(files.last().0) {
            Some(topic) => before.push((topic, lines_of(files.last().1))),
            None => before,
        }
    }
}

/// Whether a text can name a topic, see [`is_topic_name`].
pub fn valid_topic_name(name: &str) -> (valid: bool)
    ensures
        valid == is_topic_name(name@),
{
    let chars = chars_of(name);
    if chars.len() == 0 {
        return false;
    }
    let mut i: usize = 0;
    while i < chars.len()
        invariant
            i <= chars.len(),
            chars@ == name@,
            forall|j: int| 0 <= j < i ==> #[trigger] chars@[j] != '/' && chars@[j] != '\0',
        decreases chars.len() - i,
    {
        if chars[i] == '/' || chars[i] == '\0' {
            return false;
        }
        i += 1;
    }
    true
}

/// The name of the file of a topic.
pub fn topic_file_name(topic: &str) -> (file_name: String)
    ensures
        file_name@ == file_name_of(topic@),
{
    let mut file_name = topic.to_owned();
    file_name.append(FILE_EXTENSION_TOPICS);
    file_name
}

/// Where the file of a topic stands in the notes directory, or `None`
/// where the text cannot name a topic.
pub fn topic_path(notes_dir: &str, topic: &str) -> (path: Option<String>)
    ensures
        match path {
            Some(path) => is_topic_name(topic@) && path@ == child(
                notes_dir@,
                file_name_of(topic@),
            ),
            None => !is_topic_name(topic@),
        },
{
    if valid_topic_name(topic) {
        let file_name = topic_file_name(topic);
        Some(child_path(notes_dir, file_name.as_str()))
    } else {
        None
    }
}

/// The topic that a file of the notes directory holds, see [`topic_of`].
pub fn topic_name(file_name: &str) -> (topic: Option<String>)
    ensures
        match topic {
            Some(topic) => topic_of(file_name@) == Some(topic@),
            None => topic_of(file_name@) is None,
        },
{
    let chars = chars_of(file_name);
    let n = chars.len();
    proof {
        reveal_strlit(".txt");
    }
    if n > 4 && chars[n - 4] == '.' && chars[n - 3] == 't' && chars[n - 2] == 'x' && chars[n - 1]
        == 't' {
        assert(file_name@.skip(n - 4) =~= FILE_EXTENSION_TOPICS@);
        let stem = file_name.substring_char(0, n - 4);
        assert(file_name@.take(n - 4) == file_name@.subrange(0, n - 4));
        Some(stem.to_owned())
    } else {
        proof {
            if n > 4 {
                let tail = file_name@.skip(n - 4);
                assert(tail[0] == chars@[n - 4]);
                assert(tail[1] == chars@[n - 3]);
                assert(tail[2] == chars@[n - 2]);
                assert(tail[3] == chars@[n - 1]);
            }
        }
        None
    }
}

/// The names of the topics among the files of the notes directory, in the
/// order in which the files were found.
pub fn list_topics(file_names: &Vec<String>) -> (topics: Vec<String>)
    ensures
        texts(topics@) == topics_in(texts(file_names@)),
{
    let mut topics: Vec<String> = Vec::new();
    let mut i: usize = 0;
    assert(texts(file_names@).take(0) == Seq::<Seq<char>>::empty());
    assert(texts(topics@) == Seq::<Seq<char>>::empty());
    while i < file_names.len()
        invariant
            i <= file_names.len(),
            texts(topics@) == topics_in(texts(file_names@).take(i as int)),
        decreases file_names.len() - i,
    {
        proof {
            let longer = texts(file_names@).take(i + 1);
            assert(longer.drop_last() == texts(file_names@).take(i as int));
            assert(longer.last() == file_names@[i as int]@);
        }
        if let Some(topic) = topic_name(file_names[i].as_str()) {
            assert(texts(topics@.push(topic)) == texts(topics@).push(topic@));
            topics.push(topic);
        }
        i += 1;
    }
    assert(texts(file_names@).take(file_names.len() as int) == texts(file_names@));
    topics
}

/// A topic with all its lines.
#[derive(Debug, Clone, PartialEq, Eq)]
pub struct TopicDump {
    pub topic: String,
    pub lines: Vec<Vec<u8>>,
}

/// The files of a directory as plain values: each name with its content.
pub open spec fn files_view(files: Seq<(String, Vec<u8>)>) -> Seq<(Seq<char>, Seq<u8>)> {
    files.map_values(|file: (String, Vec<u8>)| (file.0@, file.1@))
}

/// Topics with their lines as plain values.
pub open spec fn dumps_view(dumps: Seq<TopicDump>) -> Seq<(Seq<char>, Seq<Seq<u8>>)> {
    dumps.map_values(|dump: TopicDump| (dump.topic@, lines_view(dump.lines@)))
}

/// Every topic among the files of the notes directory with all its lines,
/// in the order in which the files were found. Each file comes as its name
/// and its content.
pub fn dump_all(files: &Vec<(String, Vec<u8>)>) -> (dumps: Vec<TopicDump>)
    ensures
        dumps_view(dumps@) == dump_of(files_view(files@)),
{
    let mut dumps: Vec<TopicDump> = Vec::new();
    let mut i: usize = 0;
    assert(files_view(files@).take(0) == Seq::<(Seq<char>, Seq<u8>)>::empty());
    assert(dumps_view(dumps@) == Seq::<(Seq<char>, Seq<Seq<u8>>)>::empty());
    while i < files.len()
        invariant
            i <= files.len(),
            dumps_view(dumps@) == dump_of(files_view(files@).take(i as int)),
        decreases files.len() - i,
    {
        proof {
            let longer = files_view(files@).take(i + 1);
            assert(longer.drop_last() == files_view(files@).take(i as int));
            assert(longer.last() == (files@[i as int].0@, files@[i as int].1@));
        }
        if let Some(topic) = topic_name(files[i].0.as_str()) {
            let lines = split_lines(files[i].1.as_slice());
            let dump = TopicDump { topic, lines };
            assert(dumps_view(dumps@.push(dump)) == dumps_view(dumps@).push(
                (dump.topic@, lines_view(dump.lines@)),
            ));
            dumps.push(dump);
        }
        i += 1;
    }
    assert(files_view(files@).take(files.len() as int) == files_view(files@));
    dumps
}

/// The file name that is made for a topic is read back as that topic.
pub proof fn lemma_topic_of_file_name(topic: Seq<char>)
    requires
        topic.len() > 0,
    ensures
        topic_of(file_name_of(topic)) == Some(topic),
{
    let file_name = file_name_of(topic);
    assert(file_name.skip(topic.len() as int) == FILE_EXTENSION_TOPICS@);
    assert(file_name.take(topic.len() as int) == topic);
}

} // verus!
