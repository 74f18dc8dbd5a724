//! The archive-reading collaborator: a zip archive held in memory,
//! reached through trusted declarations, with verified access to its
//! entry names and entry contents.
use vstd::prelude::*;
use crate::encodings::{decode_name, decode_of, spec_name, EncodingId};
use crate::errors::UnzipError;
use crate::filter::{byte_seqs, candidates, filter_names};

verus! {

#[verifier::external_type_specification]
#[verifier::external_body]
#[verifier::reject_recursive_types(R)]
pub struct ExZipArchive<R>(zip::ZipArchive<R>);

#[verifier::external_type_specification]
#[verifier::external_body]
#[verifier::reject_recursive_types(T)]
pub struct ExCursor<T>(std::io::Cursor<T>);

#[verifier::external_type_specification]
#[verifier::external_body]
pub struct ExZipError(zip::result::ZipError);

/// The raw (undecoded) name bytes of each entry the archive reader
/// holds, in the archive's stored order.
pub uninterp spec fn entry_names(a: zip::ZipArchive<std::io::Cursor<Vec<u8>>>) -> Seq<Seq<u8>>;

/// The decompressed content bytes of each entry the archive reader
/// holds, in the archive's stored order.
pub uninterp spec fn entry_data(a: zip::ZipArchive<std::io::Cursor<Vec<u8>>>) -> Seq<Seq<u8>>;

/// Whether an archive reader can be built from these bytes at all:
/// zip::ZipArchive::new parses an in-memory buffer, so its success is
/// a function of the bytes alone.
pub uninterp spec fn zip_parses(bytes: Seq<u8>) -> bool;

/// Whether the entry record at position `i` of the reader's table can
/// be opened (its local header located and read); deterministic in the
/// in-memory archive value, and untouched by reading other entries.
pub uninterp spec fn entry_name_ok(a: zip::ZipArchive<std::io::Cursor<Vec<u8>>>, i: int) -> bool;

/// Whether the entry at position `i` can be decompressed in full
/// (record opened, content read, checksum verified); deterministic in
/// the in-memory archive value, and untouched by reading other entries.
pub uninterp spec fn entry_data_ok(a: zip::ZipArchive<std::io::Cursor<Vec<u8>>>, i: int) -> bool;

/// Relies on zip::ZipArchive::new: parses the central directory of the
/// archive held in the byte buffer and collects its entry table; fails
/// on a structurally invalid archive.
#[verifier::external_body]
fn zip_open(bytes: Vec<u8>) -> (r: Result<
    zip::ZipArchive<std::io::Cursor<Vec<u8>>>,
    zip::result::ZipError,
>)
    ensures
        r is Ok <==> zip_parses(bytes@),
        r matches Ok(a) ==> entry_names(a).len() == entry_data(a).len(),
{
    zip::ZipArchive::new(std::io::Cursor::new(bytes))
}

/// Relies on zip::ZipArchive::len: the number of entries in the
/// archive's entry table.
#[verifier::external_body]
fn zip_len(a: &zip::ZipArchive<std::io::Cursor<Vec<u8>>>) -> (n: usize)
    ensures
        n == entry_names(*a).len(),
{
    a.len()
}

/// Relies on zip::ZipArchive::by_index and zip::read::ZipFile::name_raw:
/// hands out the stored, undecoded name bytes of the entry at the given
/// index; the lookup does not change the entry table.
#[verifier::external_body]
fn zip_name_raw(a: &mut zip::ZipArchive<std::io::Cursor<Vec<u8>>>, i: usize) -> (r: Result<
    Vec<u8>,
    zip::result::ZipError,
>)
    requires
        i < entry_names(*old(a)).len(),
    ensures
        entry_names(*final(a)) == entry_names(*old(a)),
        entry_data(*final(a)) == entry_data(*old(a)),
        forall|j: int| #[trigger] entry_name_ok(*final(a), j) == entry_name_ok(*old(a), j),
        forall|j: int| #[trigger] entry_data_ok(*final(a), j) == entry_data_ok(*old(a), j),
        r is Ok <==> entry_name_ok(*old(a), i as int),
        r matches Ok(b) ==> b@ == entry_names(*old(a))[i as int],
{
    match a.by_index(i) {
        Ok(f) => Ok(f.name_raw().to_vec()),
        Err(e) => Err(e),
    }
}

/// Relies on zip::ZipArchive::by_index and std::io::Read::read_to_end:
/// decompresses the entry at the given index in full; the read does not
/// change the entry table.
#[verifier::external_body]
fn zip_content(a: &mut zip::ZipArchive<std::io::Cursor<Vec<u8>>>, i: usize) -> (r: Result<
    Vec<u8>,
    zip::result::ZipError,
>)
    requires
        i < entry_names(*old(a)).len(),
    ensures
        entry_names(*final(a)) == entry_names(*old(a)),
        entry_data(*final(a)) == entry_data(*old(a)),
        forall|j: int| #[trigger] entry_name_ok(*final(a), j) == entry_name_ok(*old(a), j),
        forall|j: int| #[trigger] entry_data_ok(*final(a), j) == entry_data_ok(*old(a), j),
        r is Ok <==> entry_data_ok(*old(a), i as int),
        r matches Ok(b) ==> b@ == entry_data(*old(a))[i as int],
{
    let mut f = match a.by_index(i) {
        Ok(f) => f,
        Err(e) => return Err(e),
    };
    let mut buf: Vec<u8> = Vec::new();
    match std::io::Read::read_to_end(&mut f, &mut buf) {
        Ok(_) => Ok(buf),
        Err(e) => Err(zip::result::ZipError::Io(e)),
    }
}

/// Relies on the Display implementation of zip::result::ZipError for a
/// human-readable description of the failure.
#[verifier::external_body]
fn zip_error_text(e: &zip::result::ZipError) -> String {
    format!("{}", e)
}

/// An open archive: the entry table of one zip file held in memory.
pub struct Archive {
    inner: zip::ZipArchive<std::io::Cursor<Vec<u8>>>,
}

impl Archive {
    /// The raw name bytes of each entry, in stored order.
    pub closed spec fn names(&self) -> Seq<Seq<u8>> {
        entry_names(self.inner)
    }

    /// The decompressed content of each entry, in stored order.
    pub closed spec fn contents(&self) -> Seq<Seq<u8>> {
        entry_data(self.inner)
    }

    /// Whether the record of the entry at `i` can be opened and its
    /// name read.
    pub closed spec fn name_ok(&self, i: int) -> bool {
        entry_name_ok(self.inner, i)
    }

    /// Whether the content of the entry at `i` can be decompressed in
    /// full.
    pub closed spec fn data_ok(&self, i: int) -> bool {
        entry_data_ok(self.inner, i)
    }

    /// Well-formedness: the entry table pairs one content with each
    /// name. Every archive that `open` hands out satisfies it, and
    /// every method keeps it.
    pub open spec fn wf(&self) -> bool {
        self.names().len() == self.contents().len()
    }

    /// Opens the archive held in `bytes`. A structurally invalid
    /// archive is a fatal container error.
    pub fn open(bytes: Vec<u8>) -> (r: Result<Archive, UnzipError>)
        ensures
            r is Ok <==> zip_parses(bytes@),
            r matches Ok(a) ==> a.wf(),
            r matches Err(e) ==> e is Container,
    {
        match zip_open(bytes) {
            Ok(inner) => Ok(Archive { inner }),
            Err(e) => Err(UnzipError::Container { text: zip_error_text(&e) }),
        }
    }

    /// The number of entries.
    pub fn len(&self) -> (n: usize)
        ensures
            n == self.names().len(),
            self.wf() ==> n == self.contents().len(),
    {
        zip_len(&self.inner)
    }

    /// The raw name bytes of the entry at `i`.
    pub fn name_at(&mut self, i: usize) -> (r: Result<Vec<u8>, UnzipError>)
        requires
            i < old(self).names().len(),
        ensures
            final(self).names() == old(self).names(),
            final(self).contents() == old(self).contents(),
            forall|j: int| #[trigger] final(self).name_ok(j) == old(self).name_ok(j),
            forall|j: int| #[trigger] final(self).data_ok(j) == old(self).data_ok(j),
            r is Ok <==> old(self).name_ok(i as int),
            r matches Ok(b) ==> b@ == old(self).names()[i as int],
            r matches Err(e) ==> e is Container,
    {
        match zip_name_raw(&mut self.inner, i) {
            Ok(b) => Ok(b),
            Err(e) => Err(UnzipError::Container { text: zip_error_text(&e) }),
        }
    }

    /// The decompressed content of the entry at `i`.
    pub fn content_at(&mut self, i: usize) -> (r: Result<Vec<u8>, UnzipError>)
        requires
            i < old(self).names().len(),
        ensures
            final(self).names() == old(self).names(),
            final(self).contents() == old(self).contents(),
            forall|j: int| #[trigger] final(self).name_ok(j) == old(self).name_ok(j),
            forall|j: int| #[trigger] final(self).data_ok(j) == old(self).data_ok(j),
            r is Ok <==> old(self).data_ok(i as int),
            r matches Ok(b) ==> b@ == old(self).contents()[i as int],
            r matches Err(e) ==> e is Container,
    {
        match zip_content(&mut self.inner, i) {
            Ok(b) => Ok(b),
            Err(e) => Err(UnzipError::Container { text: zip_error_text(&e) }),
        }
    }

    /// The raw name bytes of every entry, in stored order; succeeds
    /// exactly when every entry record can be opened.
    pub fn all_names(&mut self) -> (r: Result<Vec<Vec<u8>>, UnzipError>)
        ensures
            final(self).names() == old(self).names(),
            final(self).contents() == old(self).contents(),
            forall|j: int| #[trigger] final(self).name_ok(j) == old(self).name_ok(j),
            forall|j: int| #[trigger] final(self).data_ok(j) == old(self).data_ok(j),
            r is Ok <==> (forall|i: int|
                0 <= i < old(self).names().len() ==> #[trigger] old(self).name_ok(i)),
            r matches Ok(v) ==> byte_seqs(v@) == old(self).names(),
            r matches Err(e) ==> e is Container,
    {
        let n = self.len();
        let mut out: Vec<Vec<u8>> = Vec::new();
        let mut i: usize = 0;
        while i < n
            invariant
                i <= n,
                n == self.names().len(),
                self.names() == old(self).names(),
                self.contents() == old(self).contents(),
                forall|j: int| #[trigger] self.name_ok(j) == old(self).name_ok(j),
                forall|j: int| #[trigger] self.data_ok(j) == old(self).data_ok(j),
                forall|j: int| 0 <= j < i ==> #[trigger] old(self).name_ok(j),
                out@.len() == i,
                forall|j: int| 0 <= j < i ==> #[trigger] out@[j]@ == self.names()[j],
            decreases n - i,
        {
            match self.name_at(i) {
                Ok(b) => out.push(b),
                Err(e) => {
                    assert(!old(self).name_ok(i as int));
                    return Err(e);
                },
            }
            i = i + 1;
        }
        assert(byte_seqs(out@) =~= old(self).names());
        Ok(out)
    }

    /// Runs the encoding candidate filter on this archive: the
    /// encodings of the supported table, in table order, that decode
    /// every entry name without error and to non-empty text. Succeeds
    /// exactly when every entry record can be opened.
    pub fn possible_encodings(&mut self) -> (r: Result<Vec<EncodingId>, UnzipError>)
        ensures
            final(self).names() == old(self).names(),
            final(self).contents() == old(self).contents(),
            forall|j: int| #[trigger] final(self).name_ok(j) == old(self).name_ok(j),
            forall|j: int| #[trigger] final(self).data_ok(j) == old(self).data_ok(j),
            r is Ok <==> (forall|i: int|
                0 <= i < old(self).names().len() ==> #[trigger] old(self).name_ok(i)),
            r matches Ok(v) ==> v@.map_values(|e: EncodingId| e@) == candidates(old(self).names()),
            r matches Err(e) ==> e is Container,
    {
        let names = match self.all_names() {
            Ok(v) => v,
            Err(e) => return Err(e),
        };
        Ok(filter_names(&names))
    }

    /// Decodes every entry name with the given encoding, for listing:
    /// an entry whose name does not decode is skipped (`None`), not
    /// fatal to the rest of the listing. Succeeds exactly when every
    /// entry record can be opened.
    pub fn decoded_names(&mut self, enc: &EncodingId) -> (r: Result<
        Vec<Option<String>>,
        UnzipError,
    >)
        ensures
            final(self).names() == old(self).names(),
            final(self).contents() == old(self).contents(),
            forall|j: int| #[trigger] final(self).name_ok(j) == old(self).name_ok(j),
            forall|j: int| #[trigger] final(self).data_ok(j) == old(self).data_ok(j),
            r is Ok <==> (forall|i: int|
                0 <= i < old(self).names().len() ==> #[trigger] old(self).name_ok(i)),
            r matches Ok(v) ==> v@.len() == old(self).names().len() && forall|i: int|
                0 <= i < v@.len() ==> match #[trigger] v@[i] {
                    Some(s) => !decode_of(spec_name(enc@), old(self).names()[i]).1 && s@
                        == decode_of(spec_name(enc@), old(self).names()[i]).0,
                    None => decode_of(spec_name(enc@), old(self).names()[i]).1,
                },
            r matches Err(e) ==> e is Container,
    {
        let n = self.len();
        let mut out: Vec<Option<String>> = Vec::new();
        let mut i: usize = 0;
        while i < n
            invariant
                i <= n,
                n == self.names().len(),
                self.names() == old(self).names(),
                self.contents() == old(self).contents(),
                forall|j: int| #[trigger] self.name_ok(j) == old(self).name_ok(j),
                forall|j: int| #[trigger] self.data_ok(j) == old(self).data_ok(j),
                forall|j: int| 0 <= j < i ==> #[trigger] old(self).name_ok(j),
                out@.len() == i,
                forall|j: int| 0 <= j < i ==> match #[trigger] out@[j] {
                    Some(s) => !decode_of(spec_name(enc@), self.names()[j]).1 && s@
                        == decode_of(spec_name(enc@), self.names()[j]).0,
                    None => decode_of(spec_name(enc@), self.names()[j]).1,
                },
            decreases n - i,
        {
            let raw = match self.name_at(i) {
                Ok(b) => b,
                Err(e) => {
                    assert(!old(self).name_ok(i as int));
                    return Err(e);
                },
            };
            let (text, had_errors) = decode_name(enc, raw.as_slice());
            if had_errors {
                out.push(None);
            } else {
                out.push(Some(text));
            }
            i = i + 1;
        }
        Ok(out)
    }
}

} // verus!
