//! Enrichment of pending tracks against AcoustID/MusicBrainz: folding the best
//! match into the values written back, reading the service's status, and the
//! status each track ends with.
use vstd::prelude::*;
use crate::text::{chars_eq, chars_of, extend_chars, string_of};
use crate::tags::{join_values, joined_values};

verus! {

/// Progress of an enrichment run.
pub enum EnrichEvent {
    /// Tracks processed so far, of the total.
    Progress(usize, usize),
    Done,
    Error(String),
}

/// Metadata resolved for a single track; fields are `None` when the match did not supply them.
pub struct EnrichmentResult {
    pub acoustid: Option<String>,
    pub mb_recording_id: Option<String>,
    pub mb_release_group_id: Option<String>,
    pub mb_artist_id: Option<String>,
    pub title: Option<String>,
    pub artist: Option<String>,
    pub album: Option<String>,
}

impl Default for EnrichmentResult {
    fn default() -> (res: EnrichmentResult)
        ensures
            res.acoustid is None,
            res.mb_recording_id is None,
            res.mb_release_group_id is None,
            res.mb_artist_id is None,
            res.title is None,
            res.artist is None,
            res.album is None,
    {
        EnrichmentResult {
            acoustid: None,
            mb_recording_id: None,
            mb_release_group_id: None,
            mb_artist_id: None,
            title: None,
            artist: None,
            album: None,
        }
    }
}

/// An artist credited on a recording.
pub struct MatchArtist {
    pub id: String,
    pub name: String,
}

/// A recording linked to a fingerprint match.
pub struct MatchRecording {
    pub id: String,
    pub title: Option<String>,
    pub artists: Vec<MatchArtist>,
    /// Titles of the release groups the recording appears on (absent titles as `None`).
    pub release_group_titles: Vec<Option<String>>,
}

/// The best-scoring fingerprint match.
pub struct FingerprintMatch {
    pub id: String,
    pub recordings: Vec<MatchRecording>,
}

/// The text of an optional string.
pub open spec fn opt_view(o: Option<String>) -> Option<Seq<char>> {
    match o {
        Some(s) => Some(s@),
        None => None,
    }
}

/// The first present title, if any.
pub open spec fn first_title(titles: Seq<Option<String>>) -> Option<Seq<char>>
    decreases titles.len(),
{
    if titles.len() == 0 {
        None
    } else {
        match titles[0] {
            Some(t) => Some(t@),
            None => first_title(titles.drop_first()),
        }
    }
}

/// What the best match contributes: its AcoustID; from its first recording (if
/// any) the recording id, title, all artist names joined by `; `, the first
/// artist's id and the first release-group title. Release-group ids are not
/// supplied by the compressed metadata the lookup asks for.
pub open spec fn folds_to(m: FingerprintMatch, r: EnrichmentResult) -> bool {
    &&& opt_view(r.acoustid) == Some(m.id@)
    &&& r.mb_release_group_id is None
    &&& if m.recordings@.len() == 0 {
        &&& r.mb_recording_id is None
        &&& r.mb_artist_id is None
        &&& r.title is None
        &&& r.artist is None
        &&& r.album is None
    } else {
        let rec = m.recordings@[0];
        &&& opt_view(r.mb_recording_id) == Some(rec.id@)
        &&& opt_view(r.title) == opt_view(rec.title)
        &&& opt_view(r.artist) == joined_values(rec.artists@.map_values(|a: MatchArtist| a.name@))
        &&& opt_view(r.mb_artist_id) == (if rec.artists@.len() > 0 { Some(rec.artists@[0].id@) } else { None })
        &&& opt_view(r.album) == first_title(rec.release_group_titles@)
    }
}

/// The folded title is the title of the match's first recording (none when it
/// has none, or when there is no recording), whatever release groups the
/// recording appears on; the album is the first release group's title that
/// is present. Two matches whose first recordings carry the same title fold
/// to the same title.
pub proof fn lemma_title_comes_from_the_recording(m: FingerprintMatch, r: EnrichmentResult, m2: FingerprintMatch, r2: EnrichmentResult)
    requires
        folds_to(m, r),
        folds_to(m2, r2),
    ensures
        m.recordings@.len() == 0 ==> r.title is None && r.album is None,
        m.recordings@.len() > 0 ==> opt_view(r.title) == opt_view(m.recordings@[0].title),
        m.recordings@.len() > 0 ==> (m.recordings@[0].title is None <==> r.title is None),
        m.recordings@.len() > 0 ==> (forall|k: int| (0 <= k < m.recordings@[0].release_group_titles@.len()
            && (forall|l: int| 0 <= l < k ==> (#[trigger] m.recordings@[0].release_group_titles@[l]) is None)
            && m.recordings@[0].release_group_titles@[k] is Some)
            ==> opt_view(r.album) == Some(m.recordings@[0].release_group_titles@[k].unwrap()@)),
        (m.recordings@.len() > 0 && m2.recordings@.len() > 0
            && opt_view(m.recordings@[0].title) == opt_view(m2.recordings@[0].title))
            ==> opt_view(r.title) == opt_view(r2.title),
{
    if m.recordings@.len() > 0 {
        let rec = m.recordings@[0];
        assert forall|k: int| (0 <= k < rec.release_group_titles@.len()
            && (forall|l: int| 0 <= l < k ==> (#[trigger] rec.release_group_titles@[l]) is None)
            && rec.release_group_titles@[k] is Some)
            implies opt_view(r.album) == Some(rec.release_group_titles@[k].unwrap()@) by {
            lemma_first_title_at(rec.release_group_titles@, k);
        }
    }
}

proof fn lemma_first_title_at(titles: Seq<Option<String>>, k: int)
    requires
        0 <= k < titles.len(),
        forall|l: int| 0 <= l < k ==> (#[trigger] titles[l]) is None,
        titles[k] is Some,
    ensures
        first_title(titles) == Some(titles[k].unwrap()@),
    decreases k,
{
    if k > 0 {
        assert(titles[0] is None);
        let rest = titles.drop_first();
        assert forall|l: int| 0 <= l < k - 1 implies (#[trigger] rest[l]) is None by {
            assert(rest[l] == titles[l + 1]);
        }
        lemma_first_title_at(rest, k - 1);
    }
}

fn clone_opt(o: &Option<String>) -> (res: Option<String>)
    ensures
        opt_view(res) == opt_view(*o),
{
    match o {
        Some(s) => Some(s.clone()),
        None => None,
    }
}

fn first_present_title(titles: &Vec<Option<String>>) -> (res: Option<String>)
    ensures
        opt_view(res) == first_title(titles@),
{
    let mut i: usize = 0;
    assert(titles@.skip(0) =~= titles@);
    while i < titles.len()
        invariant
            i <= titles@.len(),
            first_title(titles@) == first_title(titles@.skip(i as int)),
        decreases titles@.len() - i,
    {
        if let Some(t) = &titles[i] {
            return Some(t.clone());
        }
        assert(titles@.skip(i as int).drop_first() =~= titles@.skip(i + 1));
        i += 1;
    }
    None
}

/// Folds the best fingerprint match into the values written back to the track.
pub fn fold_match(m: &FingerprintMatch) -> (res: EnrichmentResult)
    ensures
        folds_to(*m, res),
        m.recordings@.len() > 0 ==> opt_view(res.title) == opt_view(m.recordings@[0].title),
        m.recordings@.len() == 0 ==> res.title is None,
{
    let acoustid = Some(m.id.clone());
    if m.recordings.len() == 0 {
        return EnrichmentResult {
            acoustid,
            mb_recording_id: None,
            mb_release_group_id: None,
            mb_artist_id: None,
            title: None,
            artist: None,
            album: None,
        };
    }
    let rec = &m.recordings[0];
    let mut names: Vec<String> = Vec::new();
    let mut i: usize = 0;
    while i < rec.artists.len()
        invariant
            i <= rec.artists@.len(),
            names@.map_values(|s: String| s@) == rec.artists@.take(i as int).map_values(|a: MatchArtist| a.name@),
        decreases rec.artists@.len() - i,
    {
        let ghost before = names@;
        names.push(rec.artists[i].name.clone());
        proof {
            assert(names@.map_values(|s: String| s@) =~= before.map_values(|s: String| s@).push(rec.artists@[i as int].name@));
            assert(rec.artists@.take(i + 1) =~= rec.artists@.take(i as int).push(rec.artists@[i as int]));
            assert(rec.artists@.take(i + 1).map_values(|a: MatchArtist| a.name@)
                =~= rec.artists@.take(i as int).map_values(|a: MatchArtist| a.name@).push(rec.artists@[i as int].name@));
        }
        i += 1;
    }
    assert(rec.artists@.take(rec.artists@.len() as int) =~= rec.artists@);
    let artist = join_values(&names);
    let mb_artist_id = if rec.artists.len() > 0 { Some(rec.artists[0].id.clone()) } else { None };
    EnrichmentResult {
        acoustid,
        mb_recording_id: Some(rec.id.clone()),
        mb_release_group_id: None,
        mb_artist_id,
        title: clone_opt(&rec.title),
        artist,
        album: first_present_title(&rec.release_group_titles),
    }
}

/// The error a lookup reply reports: none when its status is `ok`, otherwise
/// `AcoustID error: ` and the reply's message (or `unknown error`).
pub open spec fn reply_error(status: Seq<char>, message: Option<Seq<char>>) -> Option<Seq<char>> {
    if status == "ok"@ {
        None
    } else {
        Some("AcoustID error: "@ + match message { Some(m) => m, None => "unknown error"@ })
    }
}

/// Checks the status of an AcoustID reply.
pub fn check_reply(status: &str, message: Option<String>) -> (res: Option<String>)
    ensures
        opt_view(res) == reply_error(status@, opt_view(message)),
{
    proof {
        reveal_strlit("ok");
        reveal_strlit("AcoustID error: ");
        reveal_strlit("unknown error");
    }
    let s = chars_of(status);
    let ok = chars_of("ok");
    if chars_eq(&s, &ok) {
        return None;
    }
    let mut out = chars_of("AcoustID error: ");
    let tail = match &message {
        Some(m) => chars_of(m.as_str()),
        None => chars_of("unknown error"),
    };
    extend_chars(&mut out, &tail);
    Some(string_of(&out))
}

/// How the enrichment of one track went.
pub enum LookupOutcome {
    /// A match was found and written back (the write marks the track `enriched`).
    Matched,
    /// The service knows no recording for the fingerprint.
    NoMatch,
    /// Fingerprinting or the lookup failed.
    Failed,
}

/// The status a track is given after its lookup; `None` when the write-back
/// of a match already set it.
pub fn status_after(outcome: &LookupOutcome) -> (res: Option<String>)
    ensures
        outcome is Matched ==> res is None,
        outcome is NoMatch ==> opt_view(res) == Some("not_found"@),
        outcome is Failed ==> opt_view(res) == Some("failed"@),
{
    match outcome {
        LookupOutcome::Matched => None,
        LookupOutcome::NoMatch => {
            let c = chars_of("not_found");
            Some(string_of(&c))
        },
        LookupOutcome::Failed => {
            let c = chars_of("failed");
            Some(string_of(&c))
        },
    }
}

} // verus!
