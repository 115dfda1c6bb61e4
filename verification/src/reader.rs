//! Library scanning decisions: which files are new, which scanned tracks are
//! duplicates, which files need re-reading, file hashing, and the integrity
//! classification of the health check.
use vstd::prelude::*;
use crate::text::{chars_eq, chars_of, spec_to_lowercase, to_lowercase};

verus! {

/// A set of texts, kept as a list without repetition.
pub struct TextSet {
    items: Vec<String>,
}

impl View for TextSet {
    type V = Set<Seq<char>>;

    closed spec fn view(&self) -> Set<Seq<char>> {
        self.items@.map_values(|s: String| s@).to_set()
    }
}

impl TextSet {
    /// The empty set.
    pub fn new() -> (res: TextSet)
        ensures
            res@ == Set::<Seq<char>>::empty(),
    {
        let res = TextSet { items: Vec::new() };
        assert(res@ =~= Set::<Seq<char>>::empty());
        res
    }

    /// Whether `s` is in the set.
    pub fn contains(&self, s: &str) -> (res: bool)
        ensures
            res == self@.contains(s@),
    {
        let ghost tv = self.items@.map_values(|x: String| x@);
        let c = chars_of(s);
        let mut i: usize = 0;
        while i < self.items.len()
            invariant
                i <= self.items@.len(),
                tv == self.items@.map_values(|x: String| x@),
                c@ == s@,
                forall|j: int| 0 <= j < i ==> tv[j] != s@,
            decreases self.items@.len() - i,
        {
            let x = chars_of(self.items[i].as_str());
            if chars_eq(&x, &c) {
                assert(tv[i as int] == s@);
                assert(tv.to_set().contains(s@));
                return true;
            }
            i += 1;
        }
        assert(!tv.to_set().contains(s@)) by {
            if tv.to_set().contains(s@) {
                let j = choose|j: int| 0 <= j < tv.len() && tv[j] == s@;
            }
        }
        false
    }

    /// Adds `s` to the set.
    pub fn insert(&mut self, s: &str)
        ensures
            final(self)@ == old(self)@.insert(s@),
    {
        if !self.contains(s) {
            let c = chars_of(s);
            let ghost before = self.items@.map_values(|x: String| x@);
            self.items.push(crate::text::string_of(&c));
            proof {
                let after = self.items@.map_values(|x: String| x@);
                assert(after =~= before.push(s@));
                assert(after.to_set() =~= before.to_set().insert(s@)) by {
                    assert forall|t: Seq<char>| after.to_set().contains(t) <==> before.to_set().insert(s@).contains(t) by {
                        if after.to_set().contains(t) {
                            let j = choose|j: int| 0 <= j < after.len() && after[j] == t;
                            if j < before.len() {
                                assert(before[j] == t);
                            }
                        }
                        if before.to_set().contains(t) {
                            let j = choose|j: int| 0 <= j < before.len() && before[j] == t;
                            assert(after[j] == t);
                        }
                        if t == s@ {
                            assert(after[before.len() as int] == t);
                        }
                    }
                }
            }
        } else {
            assert(old(self)@.insert(s@) =~= old(self)@);
        }
    }
}

/// A scanned track is a duplicate when its ISRC or its hash is already in the
/// library or was seen earlier in the same scan.
pub open spec fn is_duplicate_of(
    isrc: Option<Seq<char>>,
    hash: Option<Seq<char>>,
    existing_isrcs: Set<Seq<char>>,
    existing_hashes: Set<Seq<char>>,
    seen_isrcs: Set<Seq<char>>,
    seen_hashes: Set<Seq<char>>,
) -> bool {
    (isrc matches Some(i) && (existing_isrcs.contains(i) || seen_isrcs.contains(i)))
        || (hash matches Some(h) && (existing_hashes.contains(h) || seen_hashes.contains(h)))
}

/// The text of an optional string.
pub open spec fn opt_text(o: Option<String>) -> Option<Seq<char>> {
    match o {
        Some(s) => Some(s@),
        None => None,
    }
}

/// The set with `o`'s text added when present.
pub open spec fn with_opt(s: Set<Seq<char>>, o: Option<Seq<char>>) -> Set<Seq<char>> {
    match o {
        Some(t) => s.insert(t),
        None => s,
    }
}

/// Decides whether a freshly scanned track duplicates one already stored or
/// seen earlier in this scan (by ISRC, then by content hash). Every scanned
/// track, duplicate or not, records its ISRC and hash as seen, so each layer
/// is also checked within the scan batch.
pub fn check_duplicate(
    isrc: &Option<String>,
    hash: &Option<String>,
    existing_isrcs: &TextSet,
    existing_hashes: &TextSet,
    seen_isrcs: &mut TextSet,
    seen_hashes: &mut TextSet,
) -> (dup: bool)
    ensures
        dup == is_duplicate_of(opt_text(*isrc), opt_text(*hash), existing_isrcs@, existing_hashes@,
            old(seen_isrcs)@, old(seen_hashes)@),
        final(seen_isrcs)@ == with_opt(old(seen_isrcs)@, opt_text(*isrc)),
        final(seen_hashes)@ == with_opt(old(seen_hashes)@, opt_text(*hash)),
{
    let isrc_dup = match isrc {
        Some(i) => existing_isrcs.contains(i.as_str()) || seen_isrcs.contains(i.as_str()),
        None => false,
    };
    let hash_dup = match hash {
        Some(h) => existing_hashes.contains(h.as_str()) || seen_hashes.contains(h.as_str()),
        None => false,
    };
    if let Some(i) = isrc {
        seen_isrcs.insert(i.as_str());
    }
    if let Some(h) = hash {
        seen_hashes.insert(h.as_str());
    }
    isrc_dup || hash_dup
}

/// The pipeline status a scanned track is stored with.
pub fn scanned_status(duplicate: bool) -> (res: String)
    ensures
        duplicate ==> res@ == "duplicate"@,
        !duplicate ==> res@ == "pending"@,
{
    let c = if duplicate { chars_of("duplicate") } else { chars_of("pending") };
    crate::text::string_of(&c)
}

/// A directory entry is picked up by a scan when its extension, lower-cased,
/// is one of the configured formats and its path is not stored yet (a path
/// that is not valid text is looked up as the empty text).
pub open spec fn is_new_audio_file(
    ext: Option<Seq<char>>,
    path: Option<Seq<char>>,
    existing: Set<Seq<char>>,
    formats: Set<Seq<char>>,
) -> bool {
    (ext matches Some(e) && formats.contains(spec_to_lowercase(e)))
        && !existing.contains(match path { Some(p) => p, None => Seq::empty() })
}

/// The text of an optional string slice.
pub open spec fn opt_str_text(o: Option<&str>) -> Option<Seq<char>> {
    match o {
        Some(s) => Some(s@),
        None => None,
    }
}

/// Whether a file found while walking the library should be imported.
pub fn is_new_audio(ext: Option<&str>, path: Option<&str>, existing: &TextSet, formats: &TextSet) -> (res: bool)
    ensures
        res == is_new_audio_file(opt_str_text(ext), opt_str_text(path), existing@, formats@),
{
    let ext_ok = match ext {
        Some(e) => {
            let l = to_lowercase(e);
            formats.contains(l.as_str())
        },
        None => false,
    };
    if !ext_ok {
        return false;
    }
    let known = match path {
        Some(p) => existing.contains(p),
        None => {
            proof {
                reveal_strlit("");
                assert(""@ =~= Seq::<char>::empty());
            }
            existing.contains("")
        },
    };
    !known
}

/// A stored track is re-read when its file's modification time (seconds since
/// the epoch, when it could be read) is later than its last scan.
pub fn needs_rescan(modified_secs: Option<i64>, last_scanned: i64) -> (res: bool)
    ensures
        res == (modified_secs matches Some(m) && m > last_scanned),
{
    match modified_secs {
        Some(m) => m > last_scanned,
        None => false,
    }
}

/// Lower-case hexadecimal BLAKE3 digest that `blake3::hash` gives for the bytes.
pub uninterp spec fn spec_blake3_hex(data: Seq<u8>) -> Seq<char>;

/// Calls `blake3::hash` and renders the digest with `Hash::to_hex`. The result
/// is named by `spec_blake3_hex`; the source of `to_hex` shows 64 characters,
/// each a lower-case hexadecimal digit.
#[verifier::external_body]
fn blake3_hex(data: &[u8]) -> (res: String)
    ensures
        res@ == spec_blake3_hex(data@),
        res@.len() == 64,
        forall|i: int| 0 <= i < 64 ==> ('0' <= #[trigger] res@[i] <= '9') || ('a' <= res@[i] <= 'f'),
{
    blake3::hash(data).to_hex().to_string()
}

/// The stored content hash of a file's bytes: the BLAKE3 digest in lower-case hexadecimal.
pub fn hash_contents(data: &[u8]) -> (res: String)
    ensures
        res@ == spec_blake3_hex(data@),
        res@.len() == 64,
{
    blake3_hex(data)
}

/// The integrity problems the health check records.
#[derive(Clone, Copy, PartialEq, Eq, Structural, Debug)]
pub enum HealthIssue {
    MissingFile,
    ZeroByte,
    DecodeError,
    HashMismatch,
    LowBitrate,
}

impl HealthIssue {
    /// The name stored in the `health_issue` column.
    pub fn label(self) -> (res: &'static str)
        ensures
            self == HealthIssue::MissingFile ==> res@ == "missing_file"@,
            self == HealthIssue::ZeroByte ==> res@ == "zero_byte"@,
            self == HealthIssue::DecodeError ==> res@ == "decode_error"@,
            self == HealthIssue::HashMismatch ==> res@ == "hash_mismatch"@,
            self == HealthIssue::LowBitrate ==> res@ == "low_bitrate"@,
    {
        proof {
            reveal_strlit("missing_file");
            reveal_strlit("zero_byte");
            reveal_strlit("decode_error");
            reveal_strlit("hash_mismatch");
            reveal_strlit("low_bitrate");
        }
        match self {
            HealthIssue::MissingFile => "missing_file",
            HealthIssue::ZeroByte => "zero_byte",
            HealthIssue::DecodeError => "decode_error",
            HealthIssue::HashMismatch => "hash_mismatch",
            HealthIssue::LowBitrate => "low_bitrate",
        }
    }
}

/// What the health check observed of one file. Later observations are only
/// consulted when the earlier ones found nothing wrong.
pub struct FileObservation {
    /// The path exists.
    pub exists: bool,
    /// Its size in bytes, when its metadata could be read.
    pub size: Option<u64>,
    /// Its tags could be read.
    pub decodes: bool,
    /// The hash of its current contents, when it could be read.
    pub current_hash: Option<String>,
}

/// The first problem found, in the order missing file, empty file, unreadable
/// tags, changed contents, low bitrate (a known, non-zero bitrate below the threshold).
pub open spec fn health_of(
    obs: FileObservation,
    stored_hash: Option<Seq<char>>,
    bitrate: Option<u32>,
    threshold: u32,
) -> Option<HealthIssue> {
    if !obs.exists {
        Some(HealthIssue::MissingFile)
    } else if obs.size is None {
        Some(HealthIssue::MissingFile)
    } else if obs.size == Some(0u64) {
        Some(HealthIssue::ZeroByte)
    } else if !obs.decodes {
        Some(HealthIssue::DecodeError)
    } else if stored_hash is Some && obs.current_hash is Some && obs.current_hash.unwrap()@ != stored_hash.unwrap() {
        Some(HealthIssue::HashMismatch)
    } else if bitrate matches Some(b) && b > 0 && b < threshold {
        Some(HealthIssue::LowBitrate)
    } else {
        None
    }
}

/// The order in which problems are reported, in terms of what was observed:
/// a file that is absent (or whose size cannot be read) is missing; an
/// existing empty file is zero-byte; a non-empty file whose tags do not read
/// is a decode error; a readable file whose current hash differs from the
/// stored one has changed contents, whatever its bitrate; only a file with
/// none of these problems is judged on its bitrate; and a file is healthy
/// exactly when none of the checks fails.
pub proof fn lemma_health_checks_in_order(
    obs: FileObservation,
    stored_hash: Option<Seq<char>>,
    bitrate: Option<u32>,
    threshold: u32,
)
    ensures
        !obs.exists ==> health_of(obs, stored_hash, bitrate, threshold) == Some(HealthIssue::MissingFile),
        (obs.exists && obs.size == Some(0u64)) ==> health_of(obs, stored_hash, bitrate, threshold)
            == Some(HealthIssue::ZeroByte),
        (obs.exists && obs.size is Some && obs.size.unwrap() > 0 && !obs.decodes)
            ==> health_of(obs, stored_hash, bitrate, threshold) == Some(HealthIssue::DecodeError),
        (obs.exists && obs.size is Some && obs.size.unwrap() > 0 && obs.decodes && stored_hash is Some
            && obs.current_hash is Some && obs.current_hash.unwrap()@ != stored_hash.unwrap())
            ==> health_of(obs, stored_hash, bitrate, threshold) == Some(HealthIssue::HashMismatch),
        health_of(obs, stored_hash, bitrate, threshold) == Some(HealthIssue::LowBitrate) ==> {
            &&& obs.exists && obs.decodes
            &&& !(stored_hash is Some && obs.current_hash is Some && obs.current_hash.unwrap()@ != stored_hash.unwrap())
            &&& bitrate is Some && 0 < bitrate.unwrap() && bitrate.unwrap() < threshold
        },
        health_of(obs, stored_hash, bitrate, threshold) is None <==> {
            &&& obs.exists
            &&& obs.size is Some && obs.size.unwrap() > 0
            &&& obs.decodes
            &&& !(stored_hash is Some && obs.current_hash is Some && obs.current_hash.unwrap()@ != stored_hash.unwrap())
            &&& !(bitrate is Some && 0 < bitrate.unwrap() && bitrate.unwrap() < threshold)
        },
{
}

/// Classifies a single file's integrity; `None` means healthy.
pub fn classify_health(
    obs: &FileObservation,
    stored_hash: &Option<String>,
    bitrate: Option<u32>,
    low_bitrate_threshold: u32,
) -> (res: Option<HealthIssue>)
    ensures
        res == health_of(*obs, opt_text(*stored_hash), bitrate, low_bitrate_threshold),
        (obs.exists && obs.size is Some && obs.size.unwrap() > 0 && obs.decodes && stored_hash is Some
            && obs.current_hash is Some && obs.current_hash.unwrap()@ != stored_hash.unwrap()@)
            ==> res == Some(HealthIssue::HashMismatch),
{
    proof {
        lemma_health_checks_in_order(*obs, opt_text(*stored_hash), bitrate, low_bitrate_threshold);
    }
    if !obs.exists {
        return Some(HealthIssue::MissingFile);
    }
    match obs.size {
        None => return Some(HealthIssue::MissingFile),
        Some(0) => return Some(HealthIssue::ZeroByte),
        _ => {},
    }
    if !obs.decodes {
        return Some(HealthIssue::DecodeError);
    }
    if let Some(stored) = stored_hash {
        if let Some(current) = &obs.current_hash {
            let a = chars_of(current.as_str());
            let b = chars_of(stored.as_str());
            if !chars_eq(&a, &b) {
                return Some(HealthIssue::HashMismatch);
            }
        }
    }
    if let Some(b) = bitrate {
        if b > 0 && b < low_bitrate_threshold {
            return Some(HealthIssue::LowBitrate);
        }
    }
    None
}

/// Progress of a scan, integrity check or rescan, sent to the interface.
pub enum ScanEvent {
    /// Files processed so far, and in all.
    Progress(usize, usize),
    Done,
    Error(String),
}

/// The end of the check for missing files.
pub enum ValidateEvent {
    Done,
    Error(String),
}

} // verus!
