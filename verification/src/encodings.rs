//! The supported text encodings: a fixed, ordered table of canonical
//! names, and decoding of raw byte sequences through the text-decoding
//! collaborator.
use vstd::prelude::*;

verus! {

/// Number of entries in the supported encoding table.
pub const ENCODING_COUNT: usize = 39;

/// Canonical name of the supported encoding at position `i` of the table.
/// The order is a fixed priority list: "first passing candidate" semantics
/// depend on it, so it must never change.
pub open spec fn spec_name(i: int) -> Seq<char> {
    if i == 0 { "UTF-8"@ }
    else if i == 1 { "gb18030"@ }
    else if i == 2 { "GBK"@ }
    else if i == 3 { "Big5"@ }
    else if i == 4 { "EUC-JP"@ }
    else if i == 5 { "EUC-KR"@ }
    else if i == 6 { "IBM866"@ }
    else if i == 7 { "ISO-2022-JP"@ }
    else if i == 8 { "ISO-8859-10"@ }
    else if i == 9 { "ISO-8859-13"@ }
    else if i == 10 { "ISO-8859-14"@ }
    else if i == 11 { "ISO-8859-15"@ }
    else if i == 12 { "ISO-8859-16"@ }
    else if i == 13 { "ISO-8859-2"@ }
    else if i == 14 { "ISO-8859-3"@ }
    else if i == 15 { "ISO-8859-4"@ }
    else if i == 16 { "ISO-8859-5"@ }
    else if i == 17 { "ISO-8859-6"@ }
    else if i == 18 { "ISO-8859-7"@ }
    else if i == 19 { "ISO-8859-8"@ }
    else if i == 20 { "ISO-8859-8-I"@ }
    else if i == 21 { "KOI8-R"@ }
    else if i == 22 { "KOI8-U"@ }
    else if i == 23 { "Shift_JIS"@ }
    else if i == 24 { "UTF-16BE"@ }
    else if i == 25 { "UTF-16LE"@ }
    else if i == 26 { "macintosh"@ }
    else if i == 27 { "replacement"@ }
    else if i == 28 { "windows-1250"@ }
    else if i == 29 { "windows-1251"@ }
    else if i == 30 { "windows-1252"@ }
    else if i == 31 { "windows-1253"@ }
    else if i == 32 { "windows-1254"@ }
    else if i == 33 { "windows-1255"@ }
    else if i == 34 { "windows-1256"@ }
    else if i == 35 { "windows-1257"@ }
    else if i == 36 { "windows-1258"@ }
    else if i == 37 { "windows-874"@ }
    else { "x-mac-cyrillic"@ }
}

/// Canonical names are unique within the supported table, so a name
/// picks out at most one encoding.
#[verifier::rlimit(100)]
pub proof fn lemma_names_unique(i: int, j: int)
    requires
        0 <= i < ENCODING_COUNT,
        0 <= j < ENCODING_COUNT,
        i != j,
    ensures
        spec_name(i) != spec_name(j),
{
    reveal_strlit("UTF-8");
    reveal_strlit("gb18030");
    reveal_strlit("GBK");
    reveal_strlit("Big5");
    reveal_strlit("EUC-JP");
    reveal_strlit("EUC-KR");
    reveal_strlit("IBM866");
    reveal_strlit("ISO-2022-JP");
    reveal_strlit("ISO-8859-10");
    reveal_strlit("ISO-8859-13");
    reveal_strlit("ISO-8859-14");
    reveal_strlit("ISO-8859-15");
    reveal_strlit("ISO-8859-16");
    reveal_strlit("ISO-8859-2");
    reveal_strlit("ISO-8859-3");
    reveal_strlit("ISO-8859-4");
    reveal_strlit("ISO-8859-5");
    reveal_strlit("ISO-8859-6");
    reveal_strlit("ISO-8859-7");
    reveal_strlit("ISO-8859-8");
    reveal_strlit("ISO-8859-8-I");
    reveal_strlit("KOI8-R");
    reveal_strlit("KOI8-U");
    reveal_strlit("Shift_JIS");
    reveal_strlit("UTF-16BE");
    reveal_strlit("UTF-16LE");
    reveal_strlit("macintosh");
    reveal_strlit("replacement");
    reveal_strlit("windows-1250");
    reveal_strlit("windows-1251");
    reveal_strlit("windows-1252");
    reveal_strlit("windows-1253");
    reveal_strlit("windows-1254");
    reveal_strlit("windows-1255");
    reveal_strlit("windows-1256");
    reveal_strlit("windows-1257");
    reveal_strlit("windows-1258");
    reveal_strlit("windows-874");
    reveal_strlit("x-mac-cyrillic");
    assert(spec_name(0).len() == 5);
    assert(spec_name(1).len() == 7);
    assert(spec_name(2).len() == 3);
    assert(spec_name(3).len() == 4);
    assert(spec_name(4).len() == 6);
    assert(spec_name(5).len() == 6);
    assert(spec_name(6).len() == 6);
    assert(spec_name(7).len() == 11);
    assert(spec_name(8).len() == 11);
    assert(spec_name(9).len() == 11);
    assert(spec_name(10).len() == 11);
    assert(spec_name(11).len() == 11);
    assert(spec_name(12).len() == 11);
    assert(spec_name(13).len() == 10);
    assert(spec_name(14).len() == 10);
    assert(spec_name(15).len() == 10);
    assert(spec_name(16).len() == 10);
    assert(spec_name(17).len() == 10);
    assert(spec_name(18).len() == 10);
    assert(spec_name(19).len() == 10);
    assert(spec_name(20).len() == 12);
    assert(spec_name(21).len() == 6);
    assert(spec_name(22).len() == 6);
    assert(spec_name(23).len() == 9);
    assert(spec_name(24).len() == 8);
    assert(spec_name(25).len() == 8);
    assert(spec_name(26).len() == 9);
    assert(spec_name(27).len() == 11);
    assert(spec_name(28).len() == 12);
    assert(spec_name(29).len() == 12);
    assert(spec_name(30).len() == 12);
    assert(spec_name(31).len() == 12);
    assert(spec_name(32).len() == 12);
    assert(spec_name(33).len() == 12);
    assert(spec_name(34).len() == 12);
    assert(spec_name(35).len() == 12);
    assert(spec_name(36).len() == 12);
    assert(spec_name(37).len() == 11);
    assert(spec_name(38).len() == 14);
    assert(spec_name(4)[4] != spec_name(5)[4]);
    assert(spec_name(4)[0] != spec_name(6)[0]);
    assert(spec_name(4)[0] != spec_name(21)[0]);
    assert(spec_name(4)[0] != spec_name(22)[0]);
    assert(spec_name(5)[0] != spec_name(6)[0]);
    assert(spec_name(5)[0] != spec_name(21)[0]);
    assert(spec_name(5)[0] != spec_name(22)[0]);
    assert(spec_name(6)[0] != spec_name(21)[0]);
    assert(spec_name(6)[0] != spec_name(22)[0]);
    assert(spec_name(7)[4] != spec_name(8)[4]);
    assert(spec_name(7)[4] != spec_name(9)[4]);
    assert(spec_name(7)[4] != spec_name(10)[4]);
    assert(spec_name(7)[4] != spec_name(11)[4]);
    assert(spec_name(7)[4] != spec_name(12)[4]);
    assert(spec_name(7)[0] != spec_name(27)[0]);
    assert(spec_name(7)[0] != spec_name(37)[0]);
    assert(spec_name(8)[10] != spec_name(9)[10]);
    assert(spec_name(8)[10] != spec_name(10)[10]);
    assert(spec_name(8)[10] != spec_name(11)[10]);
    assert(spec_name(8)[10] != spec_name(12)[10]);
    assert(spec_name(8)[0] != spec_name(27)[0]);
    assert(spec_name(8)[0] != spec_name(37)[0]);
    assert(spec_name(9)[10] != spec_name(10)[10]);
    assert(spec_name(9)[10] != spec_name(11)[10]);
    assert(spec_name(9)[10] != spec_name(12)[10]);
    assert(spec_name(9)[0] != spec_name(27)[0]);
    assert(spec_name(9)[0] != spec_name(37)[0]);
    assert(spec_name(10)[10] != spec_name(11)[10]);
    assert(spec_name(10)[10] != spec_name(12)[10]);
    assert(spec_name(10)[0] != spec_name(27)[0]);
    assert(spec_name(10)[0] != spec_name(37)[0]);
    assert(spec_name(11)[10] != spec_name(12)[10]);
    assert(spec_name(11)[0] != spec_name(27)[0]);
    assert(spec_name(11)[0] != spec_name(37)[0]);
    assert(spec_name(12)[0] != spec_name(27)[0]);
    assert(spec_name(12)[0] != spec_name(37)[0]);
    assert(spec_name(13)[9] != spec_name(14)[9]);
    assert(spec_name(13)[9] != spec_name(15)[9]);
    assert(spec_name(13)[9] != spec_name(16)[9]);
    assert(spec_name(13)[9] != spec_name(17)[9]);
    assert(spec_name(13)[9] != spec_name(18)[9]);
    assert(spec_name(13)[9] != spec_name(19)[9]);
    assert(spec_name(14)[9] != spec_name(15)[9]);
    assert(spec_name(14)[9] != spec_name(16)[9]);
    assert(spec_name(14)[9] != spec_name(17)[9]);
    assert(spec_name(14)[9] != spec_name(18)[9]);
    assert(spec_name(14)[9] != spec_name(19)[9]);
    assert(spec_name(15)[9] != spec_name(16)[9]);
    assert(spec_name(15)[9] != spec_name(17)[9]);
    assert(spec_name(15)[9] != spec_name(18)[9]);
    assert(spec_name(15)[9] != spec_name(19)[9]);
    assert(spec_name(16)[9] != spec_name(17)[9]);
    assert(spec_name(16)[9] != spec_name(18)[9]);
    assert(spec_name(16)[9] != spec_name(19)[9]);
    assert(spec_name(17)[9] != spec_name(18)[9]);
    assert(spec_name(17)[9] != spec_name(19)[9]);
    assert(spec_name(18)[9] != spec_name(19)[9]);
    assert(spec_name(20)[0] != spec_name(28)[0]);
    assert(spec_name(20)[0] != spec_name(29)[0]);
    assert(spec_name(20)[0] != spec_name(30)[0]);
    assert(spec_name(20)[0] != spec_name(31)[0]);
    assert(spec_name(20)[0] != spec_name(32)[0]);
    assert(spec_name(20)[0] != spec_name(33)[0]);
    assert(spec_name(20)[0] != spec_name(34)[0]);
    assert(spec_name(20)[0] != spec_name(35)[0]);
    assert(spec_name(20)[0] != spec_name(36)[0]);
    assert(spec_name(21)[5] != spec_name(22)[5]);
    assert(spec_name(23)[0] != spec_name(26)[0]);
    assert(spec_name(24)[6] != spec_name(25)[6]);
    assert(spec_name(27)[0] != spec_name(37)[0]);
    assert(spec_name(28)[11] != spec_name(29)[11]);
    assert(spec_name(28)[11] != spec_name(30)[11]);
    assert(spec_name(28)[11] != spec_name(31)[11]);
    assert(spec_name(28)[11] != spec_name(32)[11]);
    assert(spec_name(28)[11] != spec_name(33)[11]);
    assert(spec_name(28)[11] != spec_name(34)[11]);
    assert(spec_name(28)[11] != spec_name(35)[11]);
    assert(spec_name(28)[11] != spec_name(36)[11]);
    assert(spec_name(29)[11] != spec_name(30)[11]);
    assert(spec_name(29)[11] != spec_name(31)[11]);
    assert(spec_name(29)[11] != spec_name(32)[11]);
    assert(spec_name(29)[11] != spec_name(33)[11]);
    assert(spec_name(29)[11] != spec_name(34)[11]);
    assert(spec_name(29)[11] != spec_name(35)[11]);
    assert(spec_name(29)[11] != spec_name(36)[11]);
    assert(spec_name(30)[11] != spec_name(31)[11]);
    assert(spec_name(30)[11] != spec_name(32)[11]);
    assert(spec_name(30)[11] != spec_name(33)[11]);
    assert(spec_name(30)[11] != spec_name(34)[11]);
    assert(spec_name(30)[11] != spec_name(35)[11]);
    assert(spec_name(30)[11] != spec_name(36)[11]);
    assert(spec_name(31)[11] != spec_name(32)[11]);
    assert(spec_name(31)[11] != spec_name(33)[11]);
    assert(spec_name(31)[11] != spec_name(34)[11]);
    assert(spec_name(31)[11] != spec_name(35)[11]);
    assert(spec_name(31)[11] != spec_name(36)[11]);
    assert(spec_name(32)[11] != spec_name(33)[11]);
    assert(spec_name(32)[11] != spec_name(34)[11]);
    assert(spec_name(32)[11] != spec_name(35)[11]);
    assert(spec_name(32)[11] != spec_name(36)[11]);
    assert(spec_name(33)[11] != spec_name(34)[11]);
    assert(spec_name(33)[11] != spec_name(35)[11]);
    assert(spec_name(33)[11] != spec_name(36)[11]);
    assert(spec_name(34)[11] != spec_name(35)[11]);
    assert(spec_name(34)[11] != spec_name(36)[11]);
    assert(spec_name(35)[11] != spec_name(36)[11]);
}

/// Whether `s` is the canonical name of a supported encoding.
pub open spec fn is_supported_name(s: Seq<char>) -> bool {
    exists|i: int| 0 <= i < ENCODING_COUNT && spec_name(i) == s
}

/// What the text-decoding collaborator computes for a named encoding on a
/// byte sequence: the decoded text, and whether any decode error occurred.
/// The result depends on the encoding and the bytes alone.
pub uninterp spec fn decode_of(label: Seq<char>, bytes: Seq<u8>) -> (Seq<char>, bool);

/// One supported encoding, identified by its position in the table.
#[derive(Clone, Copy, Debug, PartialEq, Eq, Structural)]
pub struct EncodingId {
    idx: u8,
}

impl View for EncodingId {
    type V = int;

    closed spec fn view(&self) -> int {
        self.idx as int
    }
}

impl EncodingId {
    #[verifier::type_invariant]
    pub closed spec fn inv(self) -> bool {
        self.idx < ENCODING_COUNT
    }

    /// The canonical name of this encoding.
    pub fn name(&self) -> (r: &'static str)
        ensures
            r@ == spec_name(self@),
    {
        proof {
            use_type_invariant(self);
        }
        name_of_index(self.idx)
    }
}

/// Builds the identifier for position `i` of the supported table.
pub(crate) fn encoding_at(i: u8) -> (r: EncodingId)
    requires
        i < ENCODING_COUNT,
    ensures
        r@ == i as int,
{
    EncodingId { idx: i }
}

/// The canonical name at position `i` of the supported table.
fn name_of_index(i: u8) -> (r: &'static str)
    requires
        i < ENCODING_COUNT,
    ensures
        r@ == spec_name(i as int),
{
    match i {
        0 => "UTF-8",
        1 => "gb18030",
        2 => "GBK",
        3 => "Big5",
        4 => "EUC-JP",
        5 => "EUC-KR",
        6 => "IBM866",
        7 => "ISO-2022-JP",
        8 => "ISO-8859-10",
        9 => "ISO-8859-13",
        10 => "ISO-8859-14",
        11 => "ISO-8859-15",
        12 => "ISO-8859-16",
        13 => "ISO-8859-2",
        14 => "ISO-8859-3",
        15 => "ISO-8859-4",
        16 => "ISO-8859-5",
        17 => "ISO-8859-6",
        18 => "ISO-8859-7",
        19 => "ISO-8859-8",
        20 => "ISO-8859-8-I",
        21 => "KOI8-R",
        22 => "KOI8-U",
        23 => "Shift_JIS",
        24 => "UTF-16BE",
        25 => "UTF-16LE",
        26 => "macintosh",
        27 => "replacement",
        28 => "windows-1250",
        29 => "windows-1251",
        30 => "windows-1252",
        31 => "windows-1253",
        32 => "windows-1254",
        33 => "windows-1255",
        34 => "windows-1256",
        35 => "windows-1257",
        36 => "windows-1258",
        37 => "windows-874",
        _ => "x-mac-cyrillic",
    }
}

/// The whole supported table, in priority order.
pub fn supported_encodings() -> (r: Vec<EncodingId>)
    ensures
        r@.len() == ENCODING_COUNT,
        forall|i: int| 0 <= i < ENCODING_COUNT ==> #[trigger] r@[i]@ == i,
{
    let mut v: Vec<EncodingId> = Vec::new();
    let mut i: u8 = 0;
    while i < 39
        invariant
            i <= ENCODING_COUNT,
            v@.len() == i,
            forall|j: int| 0 <= j < i ==> #[trigger] v@[j]@ == j,
        decreases ENCODING_COUNT - i,
    {
        v.push(EncodingId { idx: i });
        i = i + 1;
    }
    v
}

/// Looks up an encoding by its canonical name, with an exact,
/// case-sensitive match, and returns the first (and only) position that
/// carries that name.
pub fn find_encoding(name: &str) -> (r: Option<EncodingId>)
    ensures
        match r {
            Some(e) => spec_name(e@) == name@
                && forall|j: int| 0 <= j < e@ ==> spec_name(j) != name@,
            None => !is_supported_name(name@),
        },
{
    let target: String = name.to_owned();
    let mut i: u8 = 0;
    while i < 39
        invariant
            i <= ENCODING_COUNT,
            target@ == name@,
            forall|j: int| 0 <= j < i ==> spec_name(j) != name@,
        decreases ENCODING_COUNT - i,
    {
        let cand: String = name_of_index(i).to_owned();
        if target == cand {
            return Some(EncodingId { idx: i });
        }
        i = i + 1;
    }
    None
}

/// Relies on encoding_rs::Encoding::for_label, which resolves every
/// canonical name of the supported table to its encoding, and on
/// encoding_rs::Encoding::decode, whose result (text and error flag)
/// depends on the encoding and the input bytes alone.
#[verifier::external_body]
fn decode_raw(label: &str, bytes: &[u8]) -> (r: (String, bool))
    requires
        is_supported_name(label@),
    ensures
        r.0@ == decode_of(label@, bytes@).0,
        r.1 == decode_of(label@, bytes@).1,
{
    let enc = encoding_rs::Encoding::for_label(label.as_bytes())
        .expect("supported canonical name");
    let (text, _, had_errors) = enc.decode(bytes);
    (text.into_owned(), had_errors)
}

/// Decodes raw name bytes with the given encoding; returns the decoded
/// text and whether the decoder reported any error.
pub fn decode_name(enc: &EncodingId, bytes: &[u8]) -> (r: (String, bool))
    ensures
        r.0@ == decode_of(spec_name(enc@), bytes@).0,
        r.1 == decode_of(spec_name(enc@), bytes@).1,
{
    proof {
        use_type_invariant(enc);
    }
    let label = name_of_index(enc.idx);
    decode_raw(label, bytes)
}

/// The validity heuristic of the candidate filter: the encoding decodes
/// the bytes without error and to non-empty text. Deliberately crude
/// (a single-byte encoding can decode garbage without error); downstream
/// behavior depends on this exact predicate.
pub open spec fn name_fits(i: int, b: Seq<u8>) -> bool {
    !decode_of(spec_name(i), b).1 && decode_of(spec_name(i), b).0.len() > 0
}

/// Whether one entry name passes the validity heuristic under `enc`.
pub fn check_name(enc: &EncodingId, bytes: &[u8]) -> (r: bool)
    ensures
        r == name_fits(enc@, bytes@),
{
    let (text, had_errors) = decode_name(enc, bytes);
    !had_errors && !text.as_str().is_empty()
}

} // verus!
