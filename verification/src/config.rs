//! Runtime configuration: defaults, normalisation of loaded values, the
//! AcoustID key resolution, and `KEY=VALUE` lines of a `.env` file.
use vstd::prelude::*;
use crate::text::{
    chars_of, spec_to_lowercase, string_of, strip_leading, strip_leading_chars, strip_trailing,
    strip_trailing_chars, to_lowercase, trim, trim_chars,
};

verus! {

/// Runtime configuration.
pub struct Config {
    /// Default music directory to scan when no path is passed on the command line.
    pub library_path: Option<String>,
    /// File extensions (lowercase, without the dot) that count as audio files.
    pub formats: Vec<String>,
    /// Number of files hashed/tag-read concurrently during a scan.
    pub scan_concurrency: usize,
    /// AcoustID application API key (usually supplied by the environment instead).
    pub acoustid_api_key: Option<String>,
    /// Log level written to the log file.
    pub log_level: String,
    /// Start the filesystem watcher on launch.
    pub watch: bool,
    /// Directory that purged files are moved into.
    pub quarantine_dir: String,
    /// Bitrate (kbps) below which the health check flags a track.
    pub low_bitrate_threshold: u32,
    /// The AcoustID key in use: from the environment or from the field above.
    pub resolved_acoustid_key: Option<String>,
}

/// The audio extensions scanned by default.
pub open spec fn default_format_texts() -> Seq<Seq<char>> {
    seq![
        "flac"@, "mp3"@, "m4a"@, "mp4"@, "ogg"@, "opus"@, "aiff"@, "wav"@, "wv"@, "ape"@, "mpc"@, "aac"@,
    ]
}

/// The texts of a list of strings.
pub open spec fn string_texts(v: Seq<String>) -> Seq<Seq<char>> {
    v.map_values(|s: String| s@)
}

/// The audio extensions scanned by default.
pub fn default_formats() -> (res: Vec<String>)
    ensures
        string_texts(res@) == default_format_texts(),
{
    let mut out: Vec<String> = Vec::new();
    out.push(owned("flac"));
    out.push(owned("mp3"));
    out.push(owned("m4a"));
    out.push(owned("mp4"));
    out.push(owned("ogg"));
    out.push(owned("opus"));
    out.push(owned("aiff"));
    out.push(owned("wav"));
    out.push(owned("wv"));
    out.push(owned("ape"));
    out.push(owned("mpc"));
    out.push(owned("aac"));
    assert(string_texts(out@) =~= default_format_texts());
    out
}

fn owned(s: &str) -> (res: String)
    ensures
        res@ == s@,
{
    let c = chars_of(s);
    string_of(&c)
}

impl Default for Config {
    fn default() -> (res: Config)
        ensures
            res.library_path is None,
            string_texts(res.formats@) == default_format_texts(),
            res.scan_concurrency == 8,
            res.acoustid_api_key is None,
            res.log_level@ == "info"@,
            !res.watch,
            res.quarantine_dir@ == "quarantine"@,
            res.low_bitrate_threshold == 128,
            res.resolved_acoustid_key is None,
    {
        let level = chars_of("info");
        let q = chars_of("quarantine");
        Config {
            library_path: None,
            formats: default_formats(),
            scan_concurrency: 8,
            acoustid_api_key: None,
            log_level: string_of(&level),
            watch: false,
            quarantine_dir: string_of(&q),
            low_bitrate_threshold: 128,
            resolved_acoustid_key: None,
        }
    }
}

/// A configured extension as it is matched: trimmed, without leading dots, lower-cased.
pub open spec fn normalized_format(f: Seq<char>) -> Seq<char> {
    spec_to_lowercase(strip_leading(trim(f), '.'))
}

/// The configured extensions, normalised, without the ones that end up empty.
pub open spec fn normalized_formats(fs: Seq<Seq<char>>) -> Seq<Seq<char>> {
    fs.map_values(|f: Seq<char>| normalized_format(f)).filter(|f: Seq<char>| f.len() > 0)
}

/// The value, when it is not blank.
pub open spec fn non_blank(o: Option<Seq<char>>) -> Option<Seq<char>> {
    match o {
        Some(k) => if trim(k).len() > 0 { Some(k) } else { None },
        None => None,
    }
}

/// The key in use: the environment's when it is not blank, else the configured one
/// when that is not blank.
pub open spec fn resolved_key(env: Option<Seq<char>>, configured: Option<Seq<char>>) -> Option<Seq<char>> {
    match non_blank(env) {
        Some(k) => Some(k),
        None => non_blank(configured),
    }
}

/// The text of an optional string.
pub open spec fn opt_view(o: Option<String>) -> Option<Seq<char>> {
    match o {
        Some(s) => Some(s@),
        None => None,
    }
}

/// Normalises one configured extension.
pub fn normalize_format(f: &str) -> (res: String)
    ensures
        res@ == normalized_format(f@),
{
    let v = chars_of(f);
    let t = trim_chars(&v);
    let s = strip_leading_chars(&t, '.');
    let st = string_of(&s);
    to_lowercase(st.as_str())
}

fn is_blank(s: &String) -> (res: bool)
    ensures
        res == (trim(s@).len() == 0),
{
    let v = chars_of(s.as_str());
    let t = trim_chars(&v);
    t.len() == 0
}

fn take_non_blank(o: Option<String>) -> (res: Option<String>)
    ensures
        opt_view(res) == non_blank(opt_view(o)),
{
    match o {
        Some(k) => if is_blank(&k) { None } else { Some(k) },
        None => None,
    }
}

impl Config {
    /// True if a usable AcoustID key was resolved (configuration or environment).
    pub fn has_acoustid_key(&self) -> (res: bool)
        ensures
            res == self.resolved_acoustid_key is Some,
    {
        self.resolved_acoustid_key.is_some()
    }

    /// Completes a freshly loaded configuration: normalises the extensions
    /// (falling back to the defaults when none is left), makes the scan
    /// concurrency at least one, and resolves the AcoustID key, the value of
    /// the environment variable (`env_key`) taking precedence.
    pub fn finish_load(&mut self, env_key: Option<String>)
        ensures
            normalized_formats(string_texts(old(self).formats@)).len() > 0 ==>
                string_texts(final(self).formats@) == normalized_formats(string_texts(old(self).formats@)),
            normalized_formats(string_texts(old(self).formats@)).len() == 0 ==>
                string_texts(final(self).formats@) == default_format_texts(),
            final(self).scan_concurrency == (if old(self).scan_concurrency == 0 { 1 } else { old(self).scan_concurrency }),
            opt_view(final(self).resolved_acoustid_key) == resolved_key(opt_view(env_key), opt_view(old(self).acoustid_api_key)),
            final(self).library_path == old(self).library_path,
            final(self).acoustid_api_key == old(self).acoustid_api_key,
            final(self).log_level == old(self).log_level,
            final(self).watch == old(self).watch,
            final(self).quarantine_dir == old(self).quarantine_dir,
            final(self).low_bitrate_threshold == old(self).low_bitrate_threshold,
    {
        let ghost fs = string_texts(self.formats@);
        let mut out: Vec<String> = Vec::new();
        let mut i: usize = 0;
        while i < self.formats.len()
            invariant
                i <= fs.len(),
                fs == string_texts(self.formats@),
                string_texts(out@) == normalized_formats(fs.take(i as int)),
            decreases fs.len() - i,
        {
            let n = normalize_format(self.formats[i].as_str());
            let nv = chars_of(n.as_str());
            proof {
                let pre = fs.take(i as int);
                let post = fs.take(i + 1);
                assert(post =~= pre.push(fs[i as int]));
                let f = |x: Seq<char>| normalized_format(x);
                assert(post.map_values(f) =~= pre.map_values(f).push(normalized_format(fs[i as int])));
                assert(post.map_values(f).drop_last() =~= pre.map_values(f));
                reveal_with_fuel(Seq::filter, 1);
            }
            if nv.len() > 0 {
                out.push(n);
                assert(string_texts(out@) =~= normalized_formats(fs.take(i + 1)));
            } else {
                assert(string_texts(out@) =~= normalized_formats(fs.take(i + 1)));
            }
            i += 1;
        }
        assert(fs.take(fs.len() as int) =~= fs);
        if out.len() == 0 {
            out = default_formats();
        }
        self.formats = out;
        if self.scan_concurrency == 0 {
            self.scan_concurrency = 1;
        }
        let env = take_non_blank(env_key);
        self.resolved_acoustid_key = match env {
            Some(k) => Some(k),
            None => {
                let configured = match &self.acoustid_api_key {
                    Some(k) => Some(k.clone()),
                    None => None,
                };
                take_non_blank(configured)
            },
        };
    }
}

/// Position of the first `c` in `s`, or -1.
pub open spec fn first_index(s: Seq<char>, c: char) -> int
    decreases s.len(),
{
    if s.len() == 0 {
        -1
    } else if s[0] == c {
        0
    } else {
        let r = first_index(s.drop_first(), c);
        if r < 0 { -1 } else { r + 1 }
    }
}

/// A value of a `.env` line: trimmed, then stripped of surrounding double and then single quotes.
pub open spec fn env_value(v: Seq<char>) -> Seq<char> {
    let t = trim(v);
    let d = strip_trailing(strip_leading(t, '"'), '"');
    strip_trailing(strip_leading(d, '\''), '\'')
}

/// The `(key, value)` a `.env` line sets: none for blank lines, `#` comments,
/// lines without `=`, and empty keys.
pub open spec fn env_assignment(line: Seq<char>) -> Option<(Seq<char>, Seq<char>)> {
    let l = trim(line);
    if l.len() == 0 || l[0] == '#' {
        None
    } else {
        let i = first_index(l, '=');
        if i < 0 {
            None
        } else {
            let key = trim(l.take(i));
            let value = env_value(l.skip(i + 1));
            if key.len() == 0 { None } else { Some((key, value)) }
        }
    }
}

fn find_char(s: &Vec<char>, c: char) -> (res: Option<usize>)
    ensures
        match res {
            Some(i) => first_index(s@, c) == i as int && i < s@.len(),
            None => first_index(s@, c) < 0,
        },
{
    let mut i: usize = 0;
    assert(s@.skip(0) =~= s@);
    while i < s.len()
        invariant
            i <= s@.len(),
            first_index(s@, c) == (if first_index(s@.skip(i as int), c) < 0 { -1 } else { first_index(s@.skip(i as int), c) + i }),
        decreases s@.len() - i,
    {
        if s[i] == c {
            assert(s@.skip(i as int)[0] == c);
            return Some(i);
        }
        assert(s@.skip(i as int).drop_first() =~= s@.skip(i + 1));
        i += 1;
    }
    None
}

fn slice_chars(s: &Vec<char>, from: usize, to: usize) -> (res: Vec<char>)
    requires
        from <= to <= s@.len(),
    ensures
        res@ == s@.subrange(from as int, to as int),
{
    let mut out: Vec<char> = Vec::new();
    let mut k: usize = from;
    while k < to
        invariant
            from <= k <= to <= s@.len(),
            out@ == s@.subrange(from as int, k as int),
        decreases to - k,
    {
        out.push(s[k]);
        assert(s@.subrange(from as int, k + 1) =~= s@.subrange(from as int, k as int).push(s@[k as int]));
        k += 1;
    }
    out
}

/// Parses one `KEY=VALUE` line of a `.env` file.
pub fn parse_env_line(line: &str) -> (res: Option<(String, String)>)
    ensures
        match env_assignment(line@) {
            None => res is None,
            Some((k, v)) => res matches Some((rk, rv)) && rk@ == k && rv@ == v,
        },
{
    let raw = chars_of(line);
    let l = trim_chars(&raw);
    if l.len() == 0 || l[0] == '#' {
        return None;
    }
    let i = match find_char(&l, '=') {
        Some(i) => i,
        None => return None,
    };
    let key_raw = slice_chars(&l, 0, i);
    assert(key_raw@ =~= l@.take(i as int));
    let key = trim_chars(&key_raw);
    let val_raw = slice_chars(&l, i + 1, l.len());
    assert(val_raw@ =~= l@.skip(i + 1));
    let vt = trim_chars(&val_raw);
    let v1 = strip_leading_chars(&vt, '"');
    let v2 = strip_trailing_chars(&v1, '"');
    let v3 = strip_leading_chars(&v2, '\'');
    let v4 = strip_trailing_chars(&v3, '\'');
    if key.len() == 0 {
        return None;
    }
    Some((string_of(&key), string_of(&v4)))
}

} // verus!
