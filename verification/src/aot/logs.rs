//! The log that the virtual machine writes while it records.

use crate::errors::{generic_error, keeps_trace, seen, wrapped_error, Error, ErrorView};
use crate::path::{
    law_child_is_written, law_path_from_text, FilePath, PathView, Platform,
};
use crate::text::{contains, law_occurs, occurs, occurs_at};
use vstd::prelude::*;
use vstd::utf8::encode_utf8;

verus! {

/// What marks a line of the log as an error.
pub const ERROR_MARK: &'static str = "[error  ]";

/// The log of a recording, from the directory that the run is in.
pub open spec fn record_log(platform: Platform) -> PathView {
    PathView { platform, base: encode_utf8(".paper"@), names: Seq::empty() }.child("logs"@).child(
        "aot-record.log"@,
    )
}

/// The log of a recording, from the directory that the run is in.
pub fn record_log_file(platform: Platform) -> (r: FilePath)
    ensures
        r@ == record_log(platform),
{
    proof {
        crate::launcher::lemma_log_names_plain();
    }
    FilePath::from_text(platform, ".paper").child("logs").child("aot-record.log")
}

/// What is known of a log: its lines in order, up to the first that could not
/// be read at least.
#[derive(Debug, PartialEq, Eq)]
pub enum LogRead {
    Missing,
    /// The log exists and could not be opened.
    NotOpened(Error),
    Lines(Vec<Result<String, Error>>),
}

/// The line is marked as an error.
pub open spec fn marks_error(line: Seq<char>) -> bool {
    occurs(line, ERROR_MARK@)
}

/// Whether a log is free of errors. The first line that is marked, or that
/// could not be read, settles it.
pub open spec fn lines_outcome(lines: Seq<Result<String, Error>>) -> Result<bool, ErrorView>
    decreases lines.len(),
{
    if lines.len() == 0 {
        Ok(true)
    } else {
        match lines[0] {
            Err(e) => Err(wrapped_error("Failed to check AOT logs for errors"@, e@)),
            Ok(line) => if marks_error(line@) {
                Ok(false)
            } else {
                lines_outcome(lines.drop_first())
            },
        }
    }
}

/// Whether a log is free of errors, or why that is not known.
pub open spec fn logs_outcome(log: LogRead) -> Result<bool, ErrorView> {
    match log {
        LogRead::Missing => Err(generic_error("No AOT log file found"@)),
        LogRead::NotOpened(e) => Err(wrapped_error("Failed to check AOT logs for errors"@, e@)),
        LogRead::Lines(lines) => lines_outcome(lines@),
    }
}

/// The first error among these lines.
pub open spec fn first_error(lines: Seq<Result<String, Error>>) -> Option<Error>
    decreases lines.len(),
{
    if lines.len() == 0 {
        None
    } else {
        match lines[0] {
            Err(e) => Some(e),
            Ok(_) => first_error(lines.drop_first()),
        }
    }
}

/// The error that a log brings.
pub open spec fn log_error(log: LogRead) -> Option<Error> {
    match log {
        LogRead::Missing => None,
        LogRead::NotOpened(e) => Some(e),
        LogRead::Lines(lines) => first_error(lines@),
    }
}

/// Whether the log of a recording is free of errors.
pub fn check_logs_for_errors(log: LogRead) -> (r: Result<bool, Error>)
    ensures
        seen(r) == logs_outcome(log),
        keeps_trace(log_error(log), Some(r)),
{
    let lines = match log {
        LogRead::Missing => return Err(Error::generic("No AOT log file found")),
        LogRead::NotOpened(e) => return Err(Error::wrap("Failed to check AOT logs for errors", e)),
        LogRead::Lines(lines) => lines,
    };
    let ghost all = lines@;
    assert(all.skip(0) =~= all);
    for line in it: lines
        invariant
            it.seq() == all,
            lines_outcome(all) == lines_outcome(all.skip(it.index() as int)),
            first_error(all) == first_error(all.skip(it.index() as int)),
            log matches LogRead::Lines(l) && l@ == all,
    {
        let ghost i = it.index() as int;
        assert(all.skip(i)[0] == line);
        assert(all.skip(i).drop_first() =~= all.skip(i + 1));
        match line {
            Err(e) => {
                return Err(Error::wrap("Failed to check AOT logs for errors", e));
            },
            Ok(text) => {
                if contains(text.as_str(), ERROR_MARK) {
                    return Ok(false);
                }
            },
        }
    }
    Ok(true)
}

/// Where every line could be read, a log is free of errors exactly where no line
/// is marked as one.
pub proof fn law_log_is_clean(lines: Seq<Result<String, Error>>)
    requires
        forall|i: int| 0 <= i < lines.len() ==> (#[trigger] lines[i]) is Ok,
    ensures
        lines_outcome(lines) == Ok::<bool, ErrorView>(
            forall|i: int| 0 <= i < lines.len() ==> !marks_error((#[trigger] lines[i])->Ok_0@),
        ),
    decreases lines.len(),
{
    if lines.len() > 0 {
        let rest = lines.drop_first();
        assert forall|i: int| 0 <= i < rest.len() implies (#[trigger] rest[i]) is Ok by {
            assert(rest[i] == lines[i + 1]);
        }
        law_log_is_clean(rest);
        assert(lines[0] is Ok);
        if !marks_error(lines[0]->Ok_0@) {
            if forall|i: int| 0 <= i < rest.len() ==> !marks_error((#[trigger] rest[i])->Ok_0@) {
                assert forall|i: int| 0 <= i < lines.len() implies !marks_error(
                    (#[trigger] lines[i])->Ok_0@,
                ) by {
                    if i > 0 {
                        assert(lines[i] == rest[i - 1]);
                    }
                }
            } else {
                let i = choose|i: int|
                    0 <= i < rest.len() && marks_error((#[trigger] rest[i])->Ok_0@);
                assert(lines[i + 1] == rest[i]);
            }
        }
    }
}

/// Where every line could be read, a log is not clean exactly where the nine
/// characters of the mark stand in one of its lines, at any place.
pub proof fn law_log_is_clean_by_characters(lines: Seq<Result<String, Error>>)
    requires
        forall|i: int| 0 <= i < lines.len() ==> (#[trigger] lines[i]) is Ok,
    ensures
        lines_outcome(lines) == Ok::<bool, ErrorView>(true) || lines_outcome(lines) == Ok::<
            bool,
            ErrorView,
        >(false),
        lines_outcome(lines) == Ok::<bool, ErrorView>(false) <==> exists|i: int, at: int|
            #![trigger lines[i]->Ok_0@.subrange(at, at + 9)]
            0 <= i < lines.len() && 0 <= at && at + 9 <= lines[i]->Ok_0@.len()
                && lines[i]->Ok_0@.subrange(at, at + 9) == seq![
                '[',
                'e',
                'r',
                'r',
                'o',
                'r',
                ' ',
                ' ',
                ']',
            ],
{
    reveal_strlit("[error  ]");
    let mark = seq!['[', 'e', 'r', 'r', 'o', 'r', ' ', ' ', ']'];
    assert("[error  ]"@ =~= mark);
    law_log_is_clean(lines);
    if exists|i: int| 0 <= i < lines.len() && marks_error((#[trigger] lines[i])->Ok_0@) {
        let i = choose|i: int| 0 <= i < lines.len() && marks_error((#[trigger] lines[i])->Ok_0@);
        let line = lines[i]->Ok_0@;
        let at = choose|at: int| occurs_at(line, mark, at);
        assert(occurs_at(line, mark, at));
        assert(line.subrange(at, at + 9) == mark);
    }
    if exists|i: int, at: int|
        #![trigger lines[i]->Ok_0@.subrange(at, at + 9)]
        0 <= i < lines.len() && 0 <= at && at + 9 <= lines[i]->Ok_0@.len()
            && lines[i]->Ok_0@.subrange(at, at + 9) == mark {
        let (i, at) = choose|i: int, at: int|
            #![trigger lines[i]->Ok_0@.subrange(at, at + 9)]
            0 <= i < lines.len() && 0 <= at && at + 9 <= lines[i]->Ok_0@.len()
                && lines[i]->Ok_0@.subrange(at, at + 9) == mark;
        assert(occurs_at(lines[i]->Ok_0@, mark, at));
        assert(marks_error(lines[i]->Ok_0@));
    }
}

/// A line that holds the mark makes a log unclean, whatever stands before and
/// after the mark in it, whatever follows the line, and whatever unmarked lines
/// precede it.
pub proof fn law_marked_line_settles(
    lines: Seq<Result<String, Error>>,
    i: int,
    a: Seq<char>,
    b: Seq<char>,
)
    requires
        0 <= i < lines.len(),
        forall|j: int| 0 <= j < i ==> (#[trigger] lines[j]) is Ok,
        lines[i] matches Ok(line) && line@ == a + "[error  ]"@ + b,
    ensures
        lines_outcome(lines) == Ok::<bool, ErrorView>(false),
    decreases i,
{
    if i == 0 {
        law_occurs(a, "[error  ]"@, b);
    } else {
        assert(lines[0] is Ok);
        let rest = lines.drop_first();
        assert forall|j: int| 0 <= j < i - 1 implies (#[trigger] rest[j]) is Ok by {
            assert(rest[j] == lines[j + 1]);
        }
        assert(rest[i - 1] == lines[i]);
        law_marked_line_settles(rest, i - 1, a, b);
    }
}

/// A line that could not be read, after lines that could and are not marked,
/// settles it too: whether the log is clean is not known, for that reason.
pub proof fn law_unread_line_settles(lines: Seq<Result<String, Error>>, i: int)
    requires
        0 <= i < lines.len(),
        forall|j: int|
            0 <= j < i ==> (#[trigger] lines[j]) is Ok && !occurs(lines[j]->Ok_0@, "[error  ]"@),
        lines[i] is Err,
    ensures
        lines_outcome(lines) is Err,
        lines_outcome(lines)->Err_0.text() == "Failed to check AOT logs for errors"@
            + "\nCaused by: "@ + lines[i]->Err_0@.text(),
        first_error(lines) == Some(lines[i]->Err_0),
    decreases i,
{
    if i > 0 {
        assert(lines[0] is Ok && !occurs(lines[0]->Ok_0@, "[error  ]"@));
        let rest = lines.drop_first();
        assert forall|j: int| 0 <= j < i - 1 implies (#[trigger] rest[j]) is Ok && !occurs(
            rest[j]->Ok_0@,
            "[error  ]"@,
        ) by {
            assert(rest[j] == lines[j + 1]);
        }
        assert(rest[i - 1] == lines[i]);
        law_unread_line_settles(rest, i - 1);
    }
}

/// A log that is missing or could not be opened is not checked, and the text of
/// the error says so; any other is judged by its lines alone.
pub proof fn law_log_must_be_there(log: LogRead)
    ensures
        log is Missing ==> logs_outcome(log) is Err && logs_outcome(log)->Err_0.text()
            == "No AOT log file found"@ && log_error(log) is None,
        log matches LogRead::NotOpened(e) ==> logs_outcome(log) is Err && logs_outcome(
            log,
        )->Err_0.text() == "Failed to check AOT logs for errors"@ + "\nCaused by: "@ + e@.text()
            && log_error(log) == Some(e),
        log matches LogRead::Lines(lines) ==> logs_outcome(log) == lines_outcome(lines@)
            && log_error(log) == first_error(lines@),
{
}

/// The log of a recording is the file `.paper/logs/aot-record.log` of the
/// directory that the run is in, written with the separators of the platform.
pub proof fn law_record_log()
    ensures
        record_log(Platform::Unix).text() == Some(".paper/logs/aot-record.log"@),
        record_log(Platform::Windows).text() == Some(".paper\\logs\\aot-record.log"@),
{
    reveal_strlit(".paper");
    reveal_strlit("logs");
    reveal_strlit("aot-record.log");
    reveal_strlit(".paper/logs/aot-record.log");
    reveal_strlit(".paper\\logs\\aot-record.log");
    assert(".paper"@.last() == 'r' && ".paper"@[0] == '.');
    let base = PathView {
        platform: Platform::Unix,
        base: encode_utf8(".paper"@),
        names: Seq::empty(),
    };
    law_path_from_text(Platform::Unix, ".paper"@);
    law_child_is_written(base, ".paper"@, "logs"@);
    let logs = ".paper"@ + seq!['/'] + "logs"@;
    law_child_is_written(base.child("logs"@), logs, "aot-record.log"@);
    assert(logs + seq!['/'] + "aot-record.log"@ =~= ".paper/logs/aot-record.log"@);
    let base = PathView { platform: Platform::Windows, ..base };
    law_path_from_text(Platform::Windows, ".paper"@);
    law_child_is_written(base, ".paper"@, "logs"@);
    let logs = ".paper"@ + seq!['\\'] + "logs"@;
    law_child_is_written(base.child("logs"@), logs, "aot-record.log"@);
    assert(logs + seq!['\\'] + "aot-record.log"@ =~= ".paper\\logs\\aot-record.log"@);
}

} // verus!
