//! The extraction driver's decisions: entries are resolved strictly in
//! archive order; a name that does not decode under the chosen encoding
//! aborts the whole run at that entry, and nothing at or after it is
//! handed out for writing.
use vstd::prelude::*;
use crate::archive::Archive;
use crate::encodings::{decode_name, decode_of, spec_name, EncodingId};
use crate::errors::UnzipError;

verus! {

/// The stored-name convention for directories: the raw name ends with
/// the path separator byte.
pub open spec fn is_dir_name(b: Seq<u8>) -> bool {
    b.len() > 0 && b.last() == 47u8
}

/// What one extraction step asks the caller to do.
pub enum ExtractStep {
    /// Create this directory (and its missing parents); idempotent.
    MakeDir { path: String },
    /// Create or overwrite this file with exactly these bytes, creating
    /// missing parent directories first.
    WriteFile { path: String, data: Vec<u8> },
    /// Every entry has been handed out.
    Done,
    /// The run is aborted; nothing further will be handed out.
    Fail { error: UnzipError },
}

/// What a step must hand out for the entry at position `k`, given the
/// archive's names and contents, the chosen encoding `e`, and whether
/// the entry's record (`nok`) and content (`dok`) can be read. The
/// outcome is determined: an unreadable record is a container abort; a
/// readable record whose name does not decode is a name-decode abort;
/// a decodable directory name is owed its `MakeDir`; a decodable file
/// name is owed its `WriteFile` when the content is readable and a
/// container abort when it is not.
pub open spec fn step_spec(
    names: Seq<Seq<u8>>,
    datas: Seq<Seq<u8>>,
    e: int,
    k: int,
    nok: bool,
    dok: bool,
    r: ExtractStep,
    newpos: int,
    stopped: bool,
) -> bool {
    let d = decode_of(spec_name(e), names[k]);
    match r {
        ExtractStep::Done => false,
        ExtractStep::MakeDir { path } => nok && !d.1 && is_dir_name(names[k]) && path@ == d.0
            && newpos == k + 1 && !stopped,
        ExtractStep::WriteFile { path, data } => nok && dok && !d.1 && !is_dir_name(names[k])
            && path@ == d.0 && data@ == datas[k] && newpos == k + 1 && !stopped,
        ExtractStep::Fail { error } => stopped && newpos == k && match error {
            UnzipError::NameDecode { index } => nok && d.1 && index == k,
            UnzipError::Container { .. } => !nok || (!d.1 && !is_dir_name(names[k]) && !dok),
        },
    }
}

/// One extraction run over an archive with a chosen encoding,
/// processing entries strictly in stored order.
pub struct Extractor {
    archive: Archive,
    encoding: EncodingId,
    next: usize,
    aborted: bool,
}

impl Extractor {
    /// The raw name bytes of each entry, in stored order.
    pub closed spec fn names(&self) -> Seq<Seq<u8>> {
        self.archive.names()
    }

    /// The decompressed content of each entry, in stored order.
    pub closed spec fn contents(&self) -> Seq<Seq<u8>> {
        self.archive.contents()
    }

    /// The table position of the chosen encoding.
    pub closed spec fn enc(&self) -> int {
        self.encoding@
    }

    /// The position of the next entry to process.
    pub closed spec fn pos(&self) -> int {
        self.next as int
    }

    /// Whether the record of the entry at `i` can be opened and its
    /// name read.
    pub closed spec fn name_ok(&self, i: int) -> bool {
        self.archive.name_ok(i)
    }

    /// Whether the content of the entry at `i` can be decompressed in
    /// full.
    pub closed spec fn data_ok(&self, i: int) -> bool {
        self.archive.data_ok(i)
    }

    /// Whether the run has aborted; once stopped, it stays stopped.
    pub closed spec fn stopped(&self) -> bool {
        self.aborted
    }

    /// Well-formedness of the run.
    pub closed spec fn wf(&self) -> bool {
        self.archive.wf() && self.next <= self.archive.names().len()
    }

    /// Starts an extraction run at the first entry.
    pub fn new(archive: Archive, encoding: EncodingId) -> (r: Extractor)
        requires
            archive.wf(),
        ensures
            r.wf(),
            r.names() == archive.names(),
            r.contents() == archive.contents(),
            forall|j: int| #[trigger] r.name_ok(j) == archive.name_ok(j),
            forall|j: int| #[trigger] r.data_ok(j) == archive.data_ok(j),
            r.enc() == encoding@,
            r.pos() == 0,
            !r.stopped(),
    {
        Extractor { archive, encoding, next: 0, aborted: false }
    }

    /// Resolves the next entry, strictly in archive order. A name that
    /// fails to decode under the chosen encoding aborts the run at that
    /// entry: the position does not advance, and the caller is handed
    /// nothing at or after it to write. Earlier entries were already
    /// handed out one by one, so their output may exist; that is the
    /// accepted no-rollback behavior.
    pub fn step(&mut self) -> (r: ExtractStep)
        requires
            old(self).wf(),
            !old(self).stopped(),
        ensures
            final(self).wf(),
            final(self).names() == old(self).names(),
            final(self).contents() == old(self).contents(),
            forall|j: int| #[trigger] final(self).name_ok(j) == old(self).name_ok(j),
            forall|j: int| #[trigger] final(self).data_ok(j) == old(self).data_ok(j),
            final(self).enc() == old(self).enc(),
            old(self).pos() >= old(self).names().len() ==> r is Done && final(self).pos()
                == old(self).pos() && !final(self).stopped(),
            old(self).pos() < old(self).names().len() ==> step_spec(
                old(self).names(),
                old(self).contents(),
                old(self).enc(),
                old(self).pos(),
                old(self).name_ok(old(self).pos()),
                old(self).data_ok(old(self).pos()),
                r,
                final(self).pos(),
                final(self).stopped(),
            ),
    {
        let k = self.next;
        let n = self.archive.len();
        if k >= n {
            return ExtractStep::Done;
        }
        let raw = match self.archive.name_at(k) {
            Ok(b) => b,
            Err(e) => {
                self.aborted = true;
                return ExtractStep::Fail { error: e };
            },
        };
        let (path, had_errors) = decode_name(&self.encoding, raw.as_slice());
        if had_errors {
            self.aborted = true;
            return ExtractStep::Fail { error: UnzipError::NameDecode { index: k } };
        }
        if raw.len() > 0 && raw[raw.len() - 1] == 47 {
            self.next = k + 1;
            return ExtractStep::MakeDir { path };
        }
        let data = match self.archive.content_at(k) {
            Ok(d) => d,
            Err(e) => {
                self.aborted = true;
                return ExtractStep::Fail { error: e };
            },
        };
        self.next = k + 1;
        ExtractStep::WriteFile { path, data }
    }
}

} // verus!
