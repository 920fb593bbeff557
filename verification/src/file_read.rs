//! Reading a batch of mock files and joining their contents: a corrupt
//! file turns into an error, and the first error wins. The thread fan-out
//! that feeds real batches lives outside the library; the joining rule is
//! verified here.

use vstd::prelude::*;

verus! {

/// A mock file: its contents, and whether reading it fails.
#[derive(Debug)]
pub struct File {
    pub contents: String,
    pub corrupt: bool,
}

/// What reading a file can report.
#[derive(Debug)]
pub enum Error {
    /// The file's contents are corrupted; they ride along for the report.
    CorruptFile { corrupt_content: String },
    /// A worker could not be joined.
    JoinFailed,
}

impl Clone for Error {
    fn clone(&self) -> (r: Self)
        ensures
            r == *self,
    {
        match self {
            Error::CorruptFile { corrupt_content } => Error::CorruptFile {
                corrupt_content: corrupt_content.clone(),
            },
            Error::JoinFailed => Error::JoinFailed,
        }
    }
}

impl File {
    /// Mock read: the contents of an intact file, and a corruption error
    /// carrying the contents otherwise.
    pub fn to_string(self) -> (r: Result<String, Error>)
        ensures
            match r {
                Ok(s) => !self.corrupt && s@ == self.contents@,
                Err(e) => self.corrupt && (e matches Error::CorruptFile { corrupt_content }
                    && corrupt_content@ == self.contents@),
            },
    {
        if !self.corrupt {
            return Ok(self.contents);
        }
        Err(Error::CorruptFile { corrupt_content: self.contents })
    }
}

/// The sample batch: five files, two of them corrupt.
pub fn mock_files() -> (r: Vec<File>)
    ensures
        r@.len() == 5,
        r@[0].contents@ == "abcdefg"@ && !r@[0].corrupt,
        r@[1].contents@ == "1234567"@ && r@[1].corrupt,
        r@[2].contents@ == "zzzzzzz"@ && !r@[2].corrupt,
        r@[3].contents@ == "uuuuuuu"@ && !r@[3].corrupt,
        r@[4].contents@ == "9999999"@ && r@[4].corrupt,
{
    let mut r: Vec<File> = Vec::new();
    r.push(File { contents: "abcdefg".to_owned(), corrupt: false });
    r.push(File { contents: "1234567".to_owned(), corrupt: true });
    r.push(File { contents: "zzzzzzz".to_owned(), corrupt: false });
    r.push(File { contents: "uuuuuuu".to_owned(), corrupt: false });
    r.push(File { contents: "9999999".to_owned(), corrupt: true });
    r
}

/// The views of a batch of read outcomes; an error contributes nothing.
pub open spec fn ok_views(results: Seq<Result<String, Error>>) -> Seq<Seq<char>> {
    results.map_values(
        |res: Result<String, Error>| match res {
            Ok(s) => s@,
            Err(_) => Seq::<char>::empty(),
        },
    )
}

/// `acc`, then each part preceded by a `--` separator.
pub open spec fn concat_with_sep(acc: Seq<char>, parts: Seq<Seq<char>>) -> Seq<char>
    decreases parts.len(),
{
    if parts.len() == 0 {
        acc
    } else {
        concat_with_sep(acc, parts.drop_last()) + seq!['-', '-'] + parts.last()
    }
}

/// Joins a batch of read outcomes into one report: `"File contents: "`
/// followed by each file's contents behind a `--` separator, unless some
/// read failed — then the first failure, in batch order, is returned.
pub fn join_contents(results: Vec<Result<String, Error>>) -> (r: Result<String, Error>)
    ensures
        match r {
            Ok(s) => (forall|i: int| 0 <= i < results@.len() ==> (#[trigger] results@[i]) is Ok)
                && s@ == concat_with_sep("File contents: "@, ok_views(results@)),
            Err(e) => exists|i: int|
                0 <= i < results@.len() && ((#[trigger] results@[i]) matches Err(first) && e
                    == first && (forall|j: int| 0 <= j < i ==> (#[trigger] results@[j]) is Ok)),
        },
{
    proof {
        reveal_strlit("--");
    }
    let n = results.len();
    let mut acc = "File contents: ".to_owned();
    let mut i: usize = 0;
    while i < n
        invariant
            0 <= i <= n,
            n == results@.len(),
            forall|j: int| 0 <= j < i ==> (#[trigger] results@[j]) is Ok,
            acc@ == concat_with_sep("File contents: "@, ok_views(results@.subrange(0, i as int))),
        decreases n - i,
    {
        let ghost pre = ok_views(results@.subrange(0, i as int));
        let ghost ext = ok_views(results@.subrange(0, i + 1 as int));
        proof {
            reveal_strlit("--");
            assert(ext.drop_last() =~= pre);
        }
        match &results[i] {
            Ok(s) => {
                acc.append("--");
                acc.append(s.as_str());
                proof {
                    assert("--"@ =~= seq!['-', '-']);
                    assert(acc@ =~= concat_with_sep("File contents: "@, ext));
                }
            },
            Err(e) => {
                return Err(e.clone());
            },
        }
        i = i + 1;
    }
    proof {
        assert(results@.subrange(0, n as int) =~= results@);
    }
    Ok(acc)
}

} // verus!
