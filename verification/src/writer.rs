//! The atomic writer: a save re-encodes the text, writes the complete bytes
//! to a sibling temporary path, and renames that path onto the target, so
//! that the target is never observed half-written. The commit sequence is
//! verified here against the filesystem model, with a fault injectable at
//! each dangerous point; the real filesystem calls in the surrounding
//! application follow the same sequence step for step.

use vstd::prelude::*;
use vstd::string::StringExecFns;

use crate::codec::{encode_text, encoded_bytes};
use crate::fs_model::FsModel;
use crate::text::TextEncoding;

verus! {

/// Why a save failed. A failed temporary write leaves everything untouched;
/// a failed rename leaves the target untouched and the temporary file
/// removed on a best-effort basis. Each carries the underlying failure's
/// description.
#[derive(Debug)]
pub enum WriteError {
    WriteFailure(String),
    RenameFailure(String),
}

impl WriteError {
    /// The underlying failure's description.
    pub fn message(&self) -> (r: &String)
        ensures
            self is WriteFailure ==> r == self->WriteFailure_0,
            self is RenameFailure ==> r == self->RenameFailure_0,
    {
        match self {
            WriteError::WriteFailure(m) => m,
            WriteError::RenameFailure(m) => m,
        }
    }
}

/// The suffix that distinguishes a sibling temporary path from its target.
pub open spec fn temp_suffix() -> Seq<char> {
    seq!['.', 't', 'm', 'p']
}

/// The sibling temporary path a save of the given target uses.
pub open spec fn temp_path_of(p: Seq<char>) -> Seq<char> {
    p + temp_suffix()
}

/// A target path never collides with its own temporary path.
pub proof fn lemma_temp_path_distinct(p: Seq<char>)
    ensures
        temp_path_of(p) != p,
{
    assert(temp_path_of(p).len() == p.len() + 4);
}

/// Computes the sibling temporary path: the target path with the
/// distinguishing suffix appended, so it lies in the same directory.
pub fn temp_path(path: &str) -> (r: String)
    ensures
        r@ == temp_path_of(path@),
{
    let mut t = String::from_str(path);
    t.append(".tmp");
    proof {
        reveal_strlit(".tmp");
        assert(".tmp"@ =~= temp_suffix());
        assert(t@ =~= temp_path_of(path@));
    }
    t
}

/// A point in the commit sequence at which a simulated save is made to
/// fail, standing for the ways the real filesystem can interrupt one.
#[derive(Clone, Copy, PartialEq, Eq, Structural, Debug)]
pub enum WriteFault {
    /// The write of the temporary file fails.
    TempWriteFails,
    /// The process dies after the temporary write, before the rename.
    CrashBeforeRename,
    /// The rename of the temporary path onto the target fails.
    RenameFails,
}

/// Saves a document into a filesystem model exactly as the atomic writer
/// saves to disk: re-encode the text, write the complete bytes to the
/// sibling temporary path, rename that path onto the target. `fault`
/// injects a failure at one of the three dangerous points; a `None` result
/// stands for a crash, after which no outcome was ever reported. The last
/// two clauses are the atomicity law: whatever fault strikes, the target
/// path still holds exactly what it held before the save.
pub fn write_document(
    fs: &mut FsModel,
    path: &str,
    content: &str,
    encoding: TextEncoding,
    fault: Option<WriteFault>,
) -> (r: Option<Result<(), WriteError>>)
    requires
        encoding == TextEncoding::ShiftJis ==> content@.len() * 16 <= usize::MAX,
    ensures
        ({
            let bytes = encoded_bytes(content@, encoding);
            let temp = temp_path_of(path@);
            match fault {
                None => r matches Some(res) && res is Ok && final (fs)@ == old(fs)@.remove(
                    temp,
                ).insert(path@, bytes),
                Some(WriteFault::TempWriteFails) => (r matches Some(res) && res matches Err(e)
                    && e is WriteFailure) && final (fs)@ == old(fs)@,
                Some(WriteFault::CrashBeforeRename) => r is None && final (fs)@ == old(
                    fs,
                )@.insert(temp, bytes),
                Some(WriteFault::RenameFails) => (r matches Some(res) && res matches Err(e)
                    && e is RenameFailure) && final (fs)@ == old(fs)@.remove(temp),
            }
        }),
        fault is Some ==> (final (fs)@.contains_key(path@) <==> old(fs)@.contains_key(path@)),
        fault is Some && old(fs)@.contains_key(path@) ==> final (fs)@[path@] == old(fs)@[path@],
{
    let temp = temp_path(path);
    let bytes = encode_text(content, encoding);
    proof {
        lemma_temp_path_distinct(path@);
    }
    match fault {
        Some(WriteFault::TempWriteFails) => {
            Some(Err(WriteError::WriteFailure(String::from_str("temporary file write failed"))))
        },
        Some(WriteFault::CrashBeforeRename) => {
            fs.write(temp.as_str(), bytes);
            None
        },
        Some(WriteFault::RenameFails) => {
            fs.write(temp.as_str(), bytes);
            // best-effort cleanup of the temporary file; the rename failure
            // is what gets reported
            fs.remove(temp.as_str());
            proof {
                assert(fs@ =~= old(fs)@.remove(temp_path_of(path@)));
            }
            Some(Err(WriteError::RenameFailure(String::from_str("rename onto target failed"))))
        },
        None => {
            fs.write(temp.as_str(), bytes);
            let renamed = fs.rename(temp.as_str(), path);
            assert(renamed);
            proof {
                assert(fs@ =~= old(fs)@.remove(temp_path_of(path@)).insert(
                    path@,
                    encoded_bytes(content@, encoding),
                ));
            }
            Some(Ok(()))
        },
    }
}

} // verus!
