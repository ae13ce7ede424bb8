//! The format of the durable event log: the names of its files and the
//! framing of events as lines. Each event is one line of JSON, ended by a
//! newline; the events themselves are opaque bytes here.
use crate::bus::{batches_of, flatten};
use crate::event::{Event, Log};
use crate::text::{decimal, decimal_text};
use vstd::prelude::*;
use vstd::string::StringExecFns;

verus! {

/// The byte that ends a line.
pub const NEWLINE: u8 = 10;

/// The byte that may precede the newline and is then not part of the line.
pub const CARRIAGE_RETURN: u8 = 13;

/// The name of the log file that is written at the given time, in seconds
/// since the Unix epoch.
pub open spec fn spec_file_name(unix_seconds: int) -> Seq<char> {
    "events_"@ + decimal_text(unix_seconds) + ".jsonl"@
}

/// The byte contents of a sequence of lines.
pub open spec fn lines_of(lines: Seq<Vec<u8>>) -> Seq<Seq<u8>> {
    lines.map_values(|l: Vec<u8>| l@)
}

/// The content of a log file that holds `lines`: each line followed by a
/// newline.
pub open spec fn spec_encode_lines(lines: Seq<Seq<u8>>) -> Seq<u8>
    decreases lines.len(),
{
    if lines.len() == 0 {
        Seq::empty()
    } else {
        lines[0] + seq![NEWLINE] + spec_encode_lines(lines.skip(1))
    }
}

/// The position of the first newline in `content`, or its length when it
/// holds none.
pub open spec fn first_newline(content: Seq<u8>) -> int
    decreases content.len(),
{
    if content.len() == 0 {
        0
    } else if content[0] == NEWLINE {
        0
    } else {
        1 + first_newline(content.skip(1))
    }
}

/// A line without the carriage return that ended it, if one did.
pub open spec fn strip_carriage_return(line: Seq<u8>) -> Seq<u8> {
    if line.len() > 0 && line.last() == CARRIAGE_RETURN {
        line.drop_last()
    } else {
        line
    }
}

/// The lines of a log file. A line ends at a newline; a carriage return
/// right before the newline is not part of the line. What follows the last
/// newline is a line of its own unless it is empty.
pub open spec fn spec_split_lines(content: Seq<u8>) -> Seq<Seq<u8>>
    decreases content.len(),
{
    if content.len() == 0 {
        Seq::empty()
    } else {
        let end = first_newline(content);
        if 0 <= end < content.len() {
            seq![strip_carriage_return(content.take(end))] + spec_split_lines(
                content.skip(end + 1),
            )
        } else {
            seq![content]
        }
    }
}

/// A line can be framed when it holds no newline and does not end in a
/// carriage return.
pub open spec fn is_framable(line: Seq<u8>) -> bool {
    &&& forall|i: int| 0 <= i < line.len() ==> line[i] != NEWLINE
    &&& !(line.len() > 0 && line.last() == CARRIAGE_RETURN)
}

/// The first newline is where the first newline is: at `end` when that byte
/// is a newline and none stands before it, at the length when there is
/// none.
pub proof fn first_newline_at(content: Seq<u8>, end: int)
    requires
        0 <= end <= content.len(),
        forall|i: int| 0 <= i < end ==> content[i] != NEWLINE,
        end < content.len() ==> content[end] == NEWLINE,
    ensures
        first_newline(content) == end,
    decreases end,
{
    if end > 0 {
        let rest = content.skip(1);
        assert forall|i: int| 0 <= i < end - 1 implies rest[i] != NEWLINE by {
            assert(rest[i] == content[i + 1]);
        }
        first_newline_at(rest, end - 1);
    }
}

/// Reading back what was written gives the lines that were written: for
/// lines that can be framed, splitting the encoded content yields exactly
/// those lines, in order.
pub proof fn split_inverts_encode(lines: Seq<Seq<u8>>)
    requires
        forall|i: int| 0 <= i < lines.len() ==> is_framable(#[trigger] lines[i]),
    ensures
        spec_split_lines(spec_encode_lines(lines)) == lines,
    decreases lines.len(),
{
    if lines.len() > 0 {
        let first = lines[0];
        let rest = lines.skip(1);
        let content = spec_encode_lines(lines);
        let end = first.len() as int;
        assert(is_framable(first));
        assert forall|i: int| 0 <= i < rest.len() implies is_framable(#[trigger] rest[i]) by {
            assert(rest[i] == lines[i + 1]);
        }
        split_inverts_encode(rest);
        assert(content == first + seq![NEWLINE] + spec_encode_lines(rest));
        assert forall|i: int| 0 <= i < end implies content[i] != NEWLINE by {
            assert(content[i] == first[i]);
        }
        assert(content[end] == NEWLINE);
        first_newline_at(content, end);
        assert(content.take(end) =~= first);
        assert(content.skip(end + 1) =~= spec_encode_lines(rest));
        assert(seq![first] + rest =~= lines);
    }
}

/// The name of the log file that is written at the given time, in seconds
/// since the Unix epoch.
pub fn file_name(unix_seconds: i64) -> (r: String)
    ensures
        r@ == spec_file_name(unix_seconds as int),
{
    let mut name: String = "events_".to_owned();
    let stamp = decimal(unix_seconds);
    name.append(stamp.as_str());
    name.append(".jsonl");
    name
}

/// The path of the log file that is written at the given time in the
/// directory `dir`.
pub fn file_path(dir: &str, unix_seconds: i64) -> (r: String)
    ensures
        r@ == dir@ + "/"@ + spec_file_name(unix_seconds as int),
{
    let mut path: String = dir.to_owned();
    path.append("/");
    let name = file_name(unix_seconds);
    path.append(name.as_str());
    path
}

/// Tells whether a line can be framed: it holds no newline and does not end
/// in a carriage return.
pub fn can_frame(line: &[u8]) -> (r: bool)
    ensures
        r == is_framable(line@),
{
    let n = line.len();
    if n > 0 && line[n - 1] == CARRIAGE_RETURN {
        return false;
    }
    let mut i: usize = 0;
    while i < n
        invariant
            0 <= i <= n == line@.len(),
            forall|j: int| 0 <= j < i ==> line@[j] != NEWLINE,
        decreases n - i,
    {
        if line[i] == NEWLINE {
            return false;
        }
        i = i + 1;
    }
    true
}

/// The content of a log file that holds `lines`.
pub fn encode_lines(lines: &Vec<Vec<u8>>) -> (r: Vec<u8>)
    ensures
        r@ == spec_encode_lines(lines_of(lines@)),
{
    let mut out: Vec<u8> = Vec::new();
    let ghost all = lines_of(lines@);
    let mut i: usize = 0;
    proof {
        assert(all.skip(0) =~= all);
    }
    while i < lines.len()
        invariant
            0 <= i <= lines@.len(),
            all == lines_of(lines@),
            out@ + spec_encode_lines(all.skip(i as int)) == spec_encode_lines(all),
        decreases lines@.len() - i,
    {
        let line = &lines[i];
        let ghost before = out@;
        let mut j: usize = 0;
        while j < line.len()
            invariant
                0 <= j <= line@.len(),
                out@ == before + line@.take(j as int),
            decreases line@.len() - j,
        {
            out.push(line[j]);
            proof {
                assert(line@.take(j as int + 1) =~= line@.take(j as int).push(line@[j as int]));
                assert(out@ =~= before + line@.take(j as int + 1));
            }
            j = j + 1;
        }
        out.push(NEWLINE);
        proof {
            assert(line@.take(j as int) =~= line@);
            assert(all.skip(i as int)[0] == line@);
            assert(all.skip(i as int).skip(1) =~= all.skip(i as int + 1));
            assert(out@ =~= before + (line@ + seq![NEWLINE]));
            assert(out@ + spec_encode_lines(all.skip(i as int + 1)) =~= before + spec_encode_lines(
                all.skip(i as int),
            ));
        }
        i = i + 1;
    }
    proof {
        assert(out@ + Seq::<u8>::empty() =~= out@);
    }
    out
}

/// A copy of the bytes of `content` from `from` up to, not including, `to`.
fn copy_range(content: &[u8], from: usize, to: usize) -> (r: Vec<u8>)
    requires
        from <= to <= content@.len(),
    ensures
        r@ == content@.subrange(from as int, to as int),
{
    let mut out: Vec<u8> = Vec::new();
    let mut i: usize = from;
    while i < to
        invariant
            from <= i <= to <= content@.len(),
            out@ == content@.subrange(from as int, i as int),
        decreases to - i,
    {
        out.push(content[i]);
        proof {
            assert(out@ =~= content@.subrange(from as int, i as int + 1));
        }
        i = i + 1;
    }
    out
}

/// The lines of a log file.
pub fn split_lines(content: &[u8]) -> (r: Vec<Vec<u8>>)
    ensures
        lines_of(r@) == spec_split_lines(content@),
{
    let mut lines: Vec<Vec<u8>> = Vec::new();
    let mut start: usize = 0;
    let n = content.len();
    proof {
        assert(content@.skip(0) =~= content@);
        assert(lines_of(lines@) =~= Seq::<Seq<u8>>::empty());
    }
    while start < n
        invariant
            0 <= start <= n == content@.len(),
            lines_of(lines@) + spec_split_lines(content@.skip(start as int)) == spec_split_lines(
                content@,
            ),
        decreases n - start,
    {
        let ghost rest = content@.skip(start as int);
        let ghost before = lines_of(lines@);
        let mut end: usize = start;
        while end < n && content[end] != NEWLINE
            invariant
                start <= end <= n == content@.len(),
                forall|i: int| start <= i < end ==> content@[i] != NEWLINE,
            decreases n - end,
        {
            end = end + 1;
        }
        proof {
            assert forall|i: int| 0 <= i < end - start implies rest[i] != NEWLINE by {
                assert(rest[i] == content@[start + i]);
            }
            first_newline_at(rest, end - start);
        }
        if end == n {
            let line = copy_range(content, start, n);
            lines.push(line);
            proof {
                assert(content@.subrange(start as int, n as int) =~= rest);
                assert(lines_of(lines@) =~= before + seq![rest]);
                assert(content@.skip(n as int) =~= Seq::<u8>::empty());
                assert(lines_of(lines@) + spec_split_lines(content@.skip(n as int)) =~= before
                    + spec_split_lines(rest));
            }
            start = n;
        } else {
            let stop: usize = if end > start && content[end - 1] == CARRIAGE_RETURN {
                (end - 1) as usize
            } else {
                end
            };
            let line = copy_range(content, start, stop);
            lines.push(line);
            proof {
                let raw = rest.take(end - start);
                assert(raw =~= content@.subrange(start as int, end as int));
                assert(strip_carriage_return(raw) =~= content@.subrange(start as int, stop as int));
                assert(rest.skip(end - start + 1) =~= content@.skip(end as int + 1));
                assert(lines_of(lines@) =~= before + seq![strip_carriage_return(raw)]);
                assert(lines_of(lines@) + spec_split_lines(content@.skip(end as int + 1)) =~= before
                    + spec_split_lines(rest));
            }
            start = end + 1;
        }
    }
    proof {
        assert(content@.skip(start as int) =~= Seq::<u8>::empty());
        assert(lines_of(lines@) + Seq::<Seq<u8>>::empty() =~= lines_of(lines@));
    }
    lines
}

/// The lines of several log files, one file after the other.
pub open spec fn spec_load(files: Seq<Seq<u8>>) -> Seq<Seq<u8>>
    decreases files.len(),
{
    if files.len() == 0 {
        Seq::empty()
    } else {
        spec_load(files.drop_last()) + spec_split_lines(files.last())
    }
}

/// Store round trip. A store directory that holds one file, written from
/// lines that can be framed, loads as exactly those lines, in order.
pub proof fn load_inverts_save(lines: Seq<Seq<u8>>)
    requires
        forall|i: int| 0 <= i < lines.len() ==> is_framable(#[trigger] lines[i]),
    ensures
        spec_load(seq![spec_encode_lines(lines)]) == lines,
{
    let files = seq![spec_encode_lines(lines)];
    split_inverts_encode(lines);
    assert(files.drop_last() =~= Seq::<Seq<u8>>::empty());
    assert(spec_load(files.drop_last()) =~= Seq::<Seq<u8>>::empty());
    assert(spec_load(files) =~= lines);
}

/// The event log store: a directory of log files.
#[derive(Debug, Clone)]
pub struct EventStore {
    pub path: String,
}

impl EventStore {
    /// The store in the directory `path`.
    pub fn new(path: &str) -> (r: EventStore)
        ensures
            r.path@ == path@,
    {
        EventStore { path: path.to_owned() }
    }

    /// What saving `lines` at the given time writes: the path of the file
    /// to append to, and the bytes to append.
    pub fn save_events(&self, lines: &Vec<Vec<u8>>, unix_seconds: i64) -> (r: (String, Vec<u8>))
        ensures
            r.0@ == self.path@ + "/"@ + spec_file_name(unix_seconds as int),
            r.1@ == spec_encode_lines(lines_of(lines@)),
    {
        (file_path(self.path.as_str(), unix_seconds), encode_lines(lines))
    }

    /// The lines that the given file contents hold, one file after the
    /// other, in the order of the files.
    pub fn load_events(&self, files: &Vec<Vec<u8>>) -> (r: Vec<Vec<u8>>)
        ensures
            lines_of(r@) == spec_load(lines_of(files@)),
    {
        let mut out: Vec<Vec<u8>> = Vec::new();
        let ghost all = lines_of(files@);
        let mut i: usize = 0;
        proof {
            assert(all.take(0) =~= Seq::<Seq<u8>>::empty());
            assert(lines_of(out@) =~= Seq::<Seq<u8>>::empty());
        }
        while i < files.len()
            invariant
                0 <= i <= files@.len(),
                all == lines_of(files@),
                lines_of(out@) == spec_load(all.take(i as int)),
            decreases files@.len() - i,
        {
            let ghost before = out@;
            let mut lines = split_lines(files[i].as_slice());
            let ghost added = lines@;
            out.append(&mut lines);
            proof {
                assert(all.take(i as int + 1).drop_last() =~= all.take(i as int));
                assert(all.take(i as int + 1).last() == files@[i as int]@);
                assert(lines_of(out@) =~= lines_of(before) + lines_of(added));
            }
            i = i + 1;
        }
        proof {
            assert(all.take(i as int) =~= all);
        }
        out
    }
}

/// The events that saving `logs` writes: the records of each log, one log
/// after the other. The envelope of a log is not written.
pub fn records_to_save(logs: &Vec<Log>) -> (r: Vec<&Event>)
    ensures
        r@.len() == flatten(batches_of(logs@)).len(),
        forall|i: int| 0 <= i < r@.len() ==> *(#[trigger] r@[i]) == flatten(batches_of(logs@))[i],
{
    let mut out: Vec<&Event> = Vec::new();
    let ghost batches = batches_of(logs@);
    let mut i: usize = 0;
    proof {
        assert(batches.take(0) =~= Seq::<Seq<Event>>::empty());
    }
    while i < logs.len()
        invariant
            0 <= i <= logs@.len(),
            batches == batches_of(logs@),
            out@.len() == flatten(batches.take(i as int)).len(),
            forall|k: int|
                0 <= k < out@.len() ==> *(#[trigger] out@[k]) == flatten(batches.take(i as int))[k],
        decreases logs@.len() - i,
    {
        let records = &logs[i].records;
        let ghost done = flatten(batches.take(i as int));
        let mut j: usize = 0;
        while j < records.len()
            invariant
                0 <= j <= records@.len(),
                out@.len() == done.len() + j,
                forall|k: int| 0 <= k < done.len() ==> *(#[trigger] out@[k]) == done[k],
                forall|k: int| 0 <= k < j ==> *(#[trigger] out@[done.len() + k]) == records@[k],
            decreases records@.len() - j,
        {
            out.push(&records[j]);
            j = j + 1;
        }
        proof {
            assert(batches.take(i as int + 1).drop_last() =~= batches.take(i as int));
            assert(batches.take(i as int + 1).last() == records@);
            assert forall|k: int| 0 <= k < out@.len() implies *(#[trigger] out@[k]) == flatten(
                batches.take(i as int + 1),
            )[k] by {
                if k >= done.len() {
                    assert(out@[done.len() + (k - done.len())] == out@[k]);
                }
            }
        }
        i = i + 1;
    }
    proof {
        assert(batches.take(i as int) =~= batches);
    }
    out
}

} // verus!
