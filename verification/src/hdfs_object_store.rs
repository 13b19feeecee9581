use std::sync::Arc;
use vstd::prelude::*;
use vstd::string::StringExecFns;

verus! {

/// The path and size of one file of the store.
#[derive(Clone)]
pub struct SizedFile {
    pub path: String,
    pub size: u64,
}

/// Shares one opened stream: the copy points at the allocation that the
/// original points at.
#[verifier::external_body]
fn share_stream<S>(stream: &Arc<S>) -> (shared: Arc<S>)
    ensures
        shared == *stream,
{
    Arc::clone(stream)
}

/// The store that serves exactly one HDFS file per reader it hands out.
#[derive(Clone, Copy)]
pub struct HDFSSingleFileObjectStore;

impl HDFSSingleFileObjectStore {
    /// The text by which the store describes itself in debug output.
    pub fn debug_string(&self) -> (text: String)
        ensures
            text@ == "HDFSObjectStore"@,
    {
        String::from_str("HDFSObjectStore")
    }

    /// Builds the reader of `file` over the stream that opening its path
    /// gave back; when opening failed, hands the failure on.
    pub fn file_reader<S, E>(&self, file: SizedFile, opened: Result<S, E>) -> (reader: Result<
        HDFSObjectReader<S>,
        E,
    >)
        ensures
            match opened {
                Ok(stream) => reader matches Ok(r) && r.file == file && *r.hdfs_input_stream == stream,
                Err(e) => reader == Err::<HDFSObjectReader<S>, E>(e),
            },
    {
        match opened {
            Ok(stream) => Ok(HDFSObjectReader { file, hdfs_input_stream: Arc::new(stream) }),
            Err(e) => Err(e),
        }
    }
}

/// Reader of one file of the store over one opened stream.
#[derive(Clone)]
pub struct HDFSObjectReader<S> {
    pub file: SizedFile,
    pub hdfs_input_stream: Arc<S>,
}

impl<S> HDFSObjectReader<S> {
    /// The size of the file.
    pub fn length(&self) -> (len: u64)
        ensures
            len == self.file.size,
    {
        self.file.size
    }

    /// A cursor over the shared stream that starts at `start`.
    pub fn get_reader(&self, start: u64) -> (reader: HDFSFileReader<S>)
        ensures
            reader.pos == start,
            reader.hdfs_input_stream == self.hdfs_input_stream,
    {
        HDFSFileReader { hdfs_input_stream: share_stream(&self.hdfs_input_stream), pos: start }
    }

    /// A cursor for the part of the file from `start` on; the length asked
    /// for does not bound it.
    pub fn sync_chunk_reader(&self, start: u64, length: usize) -> (reader: HDFSFileReader<S>)
        ensures
            reader.pos == start,
            reader.hdfs_input_stream == self.hdfs_input_stream,
    {
        self.get_reader(start)
    }

    /// A cursor over the whole file: it starts at the first byte.
    pub fn sync_reader(&self) -> (reader: HDFSFileReader<S>)
        ensures
            reader.pos == 0,
            reader.hdfs_input_stream == self.hdfs_input_stream,
    {
        self.sync_chunk_reader(0, 0)
    }
}

/// Cursor over one remote input stream: each read asks the stream for the
/// bytes at `pos` and moves `pos` past what came back.
#[derive(Clone)]
pub struct HDFSFileReader<S> {
    pub hdfs_input_stream: Arc<S>,
    pub pos: u64,
}

impl<S> HDFSFileReader<S> {
    /// The offset handed to the stream for the next read.
    pub fn read_offset(&self) -> (offset: i64)
        ensures
            offset == self.pos as i64,
    {
        self.pos as i64
    }

    /// Takes the count that the stream reported for a read issued at
    /// `read_offset()`, moves the cursor past it and returns it.
    pub fn complete_read(&mut self, read_result: i32) -> (read_size: usize)
        requires
            old(self).pos + (read_result as usize) <= u64::MAX,
        ensures
            read_size == read_result as usize,
            final(self).pos == old(self).pos + read_size,
            final(self).hdfs_input_stream == old(self).hdfs_input_stream,
    {
        let read_size = read_result as usize;
        self.pos = self.pos + read_size as u64;
        read_size
    }
}


/// Consecutive reads through one cursor are contiguous: when a read at
/// offset `pos` reports `read_result` bytes and nothing wraps, the next read
/// is issued at `pos + read_result`, right behind the bytes just read.
pub proof fn lemma_next_read_follows_last(pos: u64, read_result: i32)
    requires
        0 <= read_result,
        pos + read_result <= i64::MAX,
    ensures
        (pos + (read_result as usize)) as u64 as i64 == (pos as i64) + read_result,
{
}

/// The number of bytes that completed reads reporting `counts` move a cursor
/// by, each count taken as `complete_read` takes it.
pub open spec fn read_total(counts: Seq<i32>) -> int
    decreases counts.len(),
{
    if counts.len() == 0 {
        0
    } else {
        read_total(counts.drop_last()) + (counts.last() as usize)
    }
}

proof fn lemma_position_before_read(start: u64, counts: Seq<i32>, positions: Seq<u64>, i: int)
    requires
        positions.len() == counts.len() + 1,
        positions[0] == start,
        forall|j: int|
            #![trigger counts[j]]
            0 <= j < counts.len() ==> positions[j + 1] == positions[j] + (counts[j] as usize),
        0 <= i <= counts.len(),
    ensures
        positions[i] == start + read_total(counts.take(i)),
    decreases i,
{
    if i == 0 {
        assert(counts.take(0) =~= Seq::<i32>::empty());
    } else {
        lemma_position_before_read(start, counts, positions, i - 1);
        assert(counts.take(i).drop_last() =~= counts.take(i - 1));
        assert(counts.take(i).last() == counts[i - 1]);
    }
}

proof fn lemma_read_total_grows(counts: Seq<i32>, i: int, j: int)
    requires
        0 <= i <= j <= counts.len(),
        forall|k: int| 0 <= k < counts.len() ==> 0 <= #[trigger] counts[k],
    ensures
        read_total(counts.take(i)) <= read_total(counts.take(j)),
    decreases j - i,
{
    if i < j {
        lemma_read_total_grows(counts, i, j - 1);
        assert(counts.take(j).drop_last() =~= counts.take(j - 1));
        assert(counts.take(j).last() == counts[j - 1]);
    }
}

/// Reads through one cursor stay contiguous over any number of calls.
/// Let `counts` be what the completed reads reported, in order (a read that
/// fails never reaches `complete_read` and leaves the cursor where it was),
/// and `positions[i]` where the cursor stood before the `i`-th of them, the
/// last entry where it stands after them all, each step as `complete_read`
/// moves it. Then the `i`-th read is issued at `start` plus the counts of the
/// reads before it, and the cursor ends at `start` plus all of them. Where
/// every count is a byte count (not negative) and the end stays within
/// `i64::MAX`, the offset that `read_offset` hands over for the `i`-th read
/// is that same number.
pub proof fn lemma_reads_stay_contiguous(start: u64, counts: Seq<i32>, positions: Seq<u64>)
    requires
        positions.len() == counts.len() + 1,
        positions[0] == start,
        forall|j: int|
            #![trigger counts[j]]
            0 <= j < counts.len() ==> positions[j + 1] == positions[j] + (counts[j] as usize),
    ensures
        forall|i: int|
            0 <= i <= counts.len() ==> #[trigger] positions[i] == start + read_total(counts.take(i)),
        positions.last() == start + read_total(counts),
        (forall|k: int| 0 <= k < counts.len() ==> 0 <= #[trigger] counts[k]) && start + read_total(
            counts,
        ) <= i64::MAX ==> forall|i: int|
            0 <= i <= counts.len() ==> (#[trigger] positions[i]) as i64 == start + read_total(
                counts.take(i),
            ),
{
    assert forall|i: int| 0 <= i <= counts.len() implies #[trigger] positions[i] == start
        + read_total(counts.take(i)) by {
        lemma_position_before_read(start, counts, positions, i);
    }
    assert(counts.take(counts.len() as int) =~= counts);
    assert(positions.last() == positions[counts.len() as int]);
    if (forall|k: int| 0 <= k < counts.len() ==> 0 <= #[trigger] counts[k]) && start + read_total(
        counts,
    ) <= i64::MAX {
        assert forall|i: int| 0 <= i <= counts.len() implies (#[trigger] positions[i]) as i64
            == start + read_total(counts.take(i)) by {
            lemma_read_total_grows(counts, i, counts.len() as int);
        }
    }
}

} // verus!
