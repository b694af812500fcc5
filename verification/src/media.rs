//! Submitted URLs and the audio files extracted from them.

use vstd::prelude::*;
use vstd::string::*;

use crate::text::{str_equal, trim, trim_spec};

verus! {

/// An extracted audio file: where it lies, how long it plays, and its title.
#[derive(Clone, Debug)]
pub struct AudioFile {
    pub path: String,
    pub duration_secs: Option<u32>,
    pub title: String,
}

/// An absolute URL as the `url` crate parsed it.
#[derive(Clone, Debug)]
pub struct ParsedUrl {
    href: String,
    scheme: String,
    host: Option<String>,
}

impl View for ParsedUrl {
    type V = (Seq<char>, Seq<char>, Option<Seq<char>>);

    closed spec fn view(&self) -> Self::V {
        (
            self.href@,
            self.scheme@,
            match self.host {
                Some(h) => Some(h@),
                None => None,
            },
        )
    }
}

impl ParsedUrl {
    /// The serialised URL.
    pub fn as_str(&self) -> (r: &str)
        ensures
            r@ == self@.0,
    {
        self.href.as_str()
    }

    /// The scheme, lowercase, without the `:`.
    pub fn scheme(&self) -> (r: &str)
        ensures
            r@ == self@.1,
    {
        self.scheme.as_str()
    }

    /// The host, when the URL has one.
    pub fn host_str(&self) -> (r: Option<&str>)
        ensures
            match r {
                Some(h) => self@.2 == Some(h@),
                None => self@.2 is None,
            },
    {
        match &self.host {
            Some(h) => Some(h.as_str()),
            None => None,
        }
    }
}

/// What `url::Url::parse` makes of `raw`: the serialised URL, its scheme and
/// its host, or `None` when it rejects `raw`.
pub uninterp spec fn url_parse_parts(raw: Seq<char>) -> Option<(Seq<char>, Seq<char>, Option<Seq<char>>)>;

/// Parses `raw` with `url::Url::parse` and reads back the serialisation,
/// scheme and host of the result.
#[verifier::external_body]
fn parse_url(raw: &str) -> (r: Option<ParsedUrl>)
    ensures
        match url_parse_parts(raw@) {
            Some(parts) => (r matches Some(u) && u@ == parts),
            None => r is None,
        },
{
    match url::Url::parse(raw) {
        Ok(u) => Some(ParsedUrl { href: u.as_str().to_string(), scheme: u.scheme().to_string(), host: u.host_str().map(str::to_string) }),
        Err(_) => None,
    }
}

/// Why a submitted URL was refused.
#[derive(Clone, Debug, PartialEq, Eq)]
pub enum UrlError {
    /// The URL was the empty string.
    Empty,
    /// The URL could not be parsed.
    Invalid,
    /// The URL's scheme, given here, is neither `http` nor `https`.
    UnsupportedScheme(String),
}

/// The text `http`.
pub open spec fn http_text() -> Seq<char> {
    seq!['h', 't', 't', 'p']
}

/// The text `https`.
pub open spec fn https_text() -> Seq<char> {
    seq!['h', 't', 't', 'p', 's']
}

/// The result of validating `raw` as a proper http/https URL.
pub open spec fn validation_result(raw: Seq<char>, r: Result<ParsedUrl, UrlError>) -> bool {
    if raw.len() == 0 {
        r matches Err(UrlError::Empty)
    } else {
        match url_parse_parts(raw) {
            None => r matches Err(UrlError::Invalid),
            Some(parts) => url_check_result(parts, r),
        }
    }
}

/// The outcome of checking a parsed URL with parts `parts`.
pub open spec fn url_check_result(
    parts: (Seq<char>, Seq<char>, Option<Seq<char>>),
    r: Result<ParsedUrl, UrlError>,
) -> bool {
    if parts.1 == http_text() || parts.1 == https_text() {
        (r matches Ok(u) && u@ == parts)
    } else {
        (r matches Err(UrlError::UnsupportedScheme(s)) && s@ == parts.1)
    }
}

/// Accepts a parsed URL whose scheme is `http` or `https`.
pub fn check_parsed_url(parsed: Option<ParsedUrl>) -> (r: Result<ParsedUrl, UrlError>)
    ensures
        parsed is None ==> (r matches Err(UrlError::Invalid)),
        parsed is Some ==> url_check_result(parsed->0@, r),
{
    match parsed {
        None => Err(UrlError::Invalid),
        Some(u) => {
            let http = "http";
            let https = "https";
            proof {
                reveal_strlit("http");
                reveal_strlit("https");
            }
            assert(http@ =~= http_text());
            assert(https@ =~= https_text());
            if str_equal(u.scheme.as_str(), http) || str_equal(u.scheme.as_str(), https) {
                Ok(u)
            } else {
                Err(UrlError::UnsupportedScheme(u.scheme))
            }
        },
    }
}

/// Validates that `raw` is a proper http/https URL.
pub fn validate_url(raw: &str) -> (r: Result<ParsedUrl, UrlError>)
    ensures
        validation_result(raw@, r),
{
    if raw.unicode_len() == 0 {
        return Err(UrlError::Empty);
    }
    check_parsed_url(parse_url(raw))
}

/// `dir` joined with `name` as `PathBuf::push` does on Unix: an absolute
/// `name` replaces `dir`; otherwise a `/` is put between them unless `dir` is
/// empty or already ends in one.
pub open spec fn joined_path(dir: Seq<char>, name: Seq<char>) -> Seq<char> {
    if name.len() > 0 && name[0] == '/' {
        name
    } else if dir.len() == 0 || dir.last() == '/' {
        dir + name
    } else {
        dir + seq!['/'] + name
    }
}

/// Where the audio file `filename` is looked up under the media directory.
pub fn media_file_path(media_dir: &str, filename: &str) -> (p: String)
    ensures
        p@ == joined_path(media_dir@, filename@),
{
    if filename.unicode_len() > 0 && filename.get_char(0) == '/' {
        return String::from_str(filename);
    }
    let n = media_dir.unicode_len();
    let mut p = String::from_str(media_dir);
    if n > 0 && media_dir.get_char(n - 1) != '/' {
        proof {
            reveal_strlit("/");
        }
        p.append("/");
    }
    p.append(filename);
    p
}

/// The arguments given to `yt-dlp` to fetch `url` as an MP3 into `output_dir`,
/// printing the path of the file it wrote.
pub open spec fn download_args(output_dir: Seq<char>, url: Seq<char>) -> Seq<Seq<char>> {
    seq![
        "-x"@,
        "--audio-format"@,
        "mp3"@,
        "--audio-quality"@,
        "0"@,
        "--print"@,
        "after_move:filepath"@,
        "-o"@,
        joined_path(output_dir, "%(title)s.%(ext)s"@),
        url,
    ]
}

/// The command line of `yt-dlp` for downloading `url` into `output_dir`.
pub fn download_command_args(output_dir: &str, url: &ParsedUrl) -> (args: Vec<String>)
    ensures
        args@.map_values(|a: String| a@) == download_args(output_dir@, url@.0),
{
    let mut args: Vec<String> = Vec::new();
    args.push(String::from_str("-x"));
    args.push(String::from_str("--audio-format"));
    args.push(String::from_str("mp3"));
    args.push(String::from_str("--audio-quality"));
    args.push(String::from_str("0"));
    args.push(String::from_str("--print"));
    args.push(String::from_str("after_move:filepath"));
    args.push(String::from_str("-o"));
    args.push(media_file_path(output_dir, "%(title)s.%(ext)s"));
    args.push(String::from_str(url.as_str()));
    assert(args@.map_values(|a: String| a@) =~= download_args(output_dir@, url@.0));
    args
}

/// The arguments given to `ffprobe` to report the streams of `path` as JSON.
pub open spec fn probe_args(path: Seq<char>) -> Seq<Seq<char>> {
    seq!["-v"@, "quiet"@, "-print_format"@, "json"@, "-show_streams"@, path]
}

/// The command line of `ffprobe` for reading the streams of `path`.
pub fn probe_command_args(path: &str) -> (args: Vec<String>)
    ensures
        args@.map_values(|a: String| a@) == probe_args(path@),
{
    let mut args: Vec<String> = Vec::new();
    args.push(String::from_str("-v"));
    args.push(String::from_str("quiet"));
    args.push(String::from_str("-print_format"));
    args.push(String::from_str("json"));
    args.push(String::from_str("-show_streams"));
    args.push(String::from_str(path));
    assert(args@.map_values(|a: String| a@) =~= probe_args(path@));
    args
}

/// A URL that passes validation is an `http` or `https` URL.
pub proof fn lemma_accepted_urls_are_http(raw: Seq<char>, r: Result<ParsedUrl, UrlError>)
    requires
        validation_result(raw, r),
        r is Ok,
    ensures
        r->Ok_0@.1 == http_text() || r->Ok_0@.1 == https_text(),
{
}

impl UrlError {
    /// The message shown to the submitter.
    pub fn message(&self) -> (m: String)
        ensures
            m@ == url_error_message(*self),
    {
        match self {
            UrlError::Empty => {
                proof {
                    reveal_strlit("URL must not be empty");
                }
                String::from_str("URL must not be empty")
            },
            UrlError::Invalid => {
                proof {
                    reveal_strlit("Failed to parse URL");
                }
                String::from_str("Failed to parse URL")
            },
            UrlError::UnsupportedScheme(s) => {
                proof {
                    reveal_strlit("Unsupported URL scheme '");
                    reveal_strlit("'; only http and https are allowed");
                }
                let mut m = String::from_str("Unsupported URL scheme '");
                m.append(s.as_str());
                m.append("'; only http and https are allowed");
                m
            },
        }
    }
}

/// The message for each refusal.
pub open spec fn url_error_message(e: UrlError) -> Seq<char> {
    match e {
        UrlError::Empty => "URL must not be empty"@,
        UrlError::Invalid => "Failed to parse URL"@,
        UrlError::UnsupportedScheme(s) => "Unsupported URL scheme '"@ + s@
            + "'; only http and https are allowed"@,
    }
}

/// The position just after the last `/` of `p`, or 0 when it has none.
pub open spec fn segment_start(p: Seq<char>) -> int
    decreases p.len(),
{
    if p.len() == 0 {
        0
    } else if p.last() == '/' {
        p.len() as int
    } else {
        segment_start(p.drop_last())
    }
}

/// `segment_start` lies within the path, before its end when the path ends in a name.
pub proof fn lemma_segment_start_bounds(p: Seq<char>)
    ensures
        0 <= segment_start(p) <= p.len(),
        p.len() > 0 && p.last() != '/' ==> segment_start(p) < p.len(),
    decreases p.len(),
{
    if p.len() > 0 {
        lemma_segment_start_bounds(p.drop_last());
    }
}

/// The final component of the path `p` when it is a normal name, as
/// `Path::file_name` gives it on Unix: empty and `.` components are skipped,
/// and a final `..` (or no component at all) gives `None`.
pub open spec fn file_name_spec(p: Seq<char>) -> Option<Seq<char>>
    decreases p.len(),
{
    if p.len() == 0 {
        None
    } else if p.last() == '/' {
        file_name_spec(p.drop_last())
    } else {
        let start = segment_start(p);
        proof {
            lemma_segment_start_bounds(p);
        }
        let seg = p.subrange(start, p.len() as int);
        if seg == seq!['.'] {
            file_name_spec(p.subrange(0, start))
        } else if seg == seq!['.', '.'] {
            None
        } else {
            Some(seg)
        }
    }
}

/// The position of the last `.` in `name`, or -1 when it has none.
pub open spec fn last_dot(name: Seq<char>) -> int
    decreases name.len(),
{
    if name.len() == 0 {
        -1
    } else if name.last() == '.' {
        name.len() - 1
    } else {
        last_dot(name.drop_last())
    }
}

/// A file name without its extension, as `Path::file_stem` gives it: the text
/// before the last `.`, unless that `.` opens the name or there is none.
pub open spec fn stem_of(name: Seq<char>) -> Seq<char> {
    if last_dot(name) <= 0 {
        name
    } else {
        name.subrange(0, last_dot(name))
    }
}

/// `Path::file_stem` of the path `p`.
pub open spec fn file_stem_spec(p: Seq<char>) -> Option<Seq<char>> {
    match file_name_spec(p) {
        Some(name) => Some(stem_of(name)),
        None => None,
    }
}

proof fn lemma_segment_start(p: Seq<char>, k: int)
    requires
        0 <= k <= p.len(),
        k == 0 || p[k - 1] == '/',
        forall|j: int| k <= j < p.len() ==> p[j] != '/',
    ensures
        segment_start(p) == k,
    decreases p.len(),
{
    if p.len() > 0 && k < p.len() {
        lemma_segment_start(p.drop_last(), k);
    }
}

proof fn lemma_last_dot(name: Seq<char>, k: int)
    requires
        -1 <= k < name.len(),
        k == -1 || name[k] == '.',
        forall|j: int| k < j < name.len() ==> name[j] != '.',
    ensures
        last_dot(name) == k,
    decreases name.len(),
{
    if name.len() > 0 && k < name.len() - 1 {
        lemma_last_dot(name.drop_last(), k);
    }
}

/// The final component of `path` when it is a normal name (`Path::file_name`).
pub fn path_file_name(path: &str) -> (r: Option<&str>)
    ensures
        match file_name_spec(path@) {
            Some(name) => (r matches Some(s) && s@ == name),
            None => r is None,
        },
{
    let mut end = path.unicode_len();
    assert(path@.subrange(0, end as int) =~= path@);
    loop
        invariant
            end <= path@.len(),
            file_name_spec(path@) == file_name_spec(path@.subrange(0, end as int)),
        decreases end,
    {
        let ghost p = path@.subrange(0, end as int);
        if end == 0 {
            return None;
        }
        if path.get_char(end - 1) == '/' {
            assert(p.drop_last() =~= path@.subrange(0, end - 1));
            end = end - 1;
        } else {
            let mut start = end - 1;
            while start > 0 && path.get_char(start - 1) != '/'
                invariant
                    start < end <= path@.len(),
                    forall|j: int| start <= j < end ==> path@[j] != '/',
                decreases start,
            {
                start = start - 1;
            }
            proof {
                lemma_segment_start(p, start as int);
            }
            let seg_len = end - start;
            let ghost seg = p.subrange(start as int, end as int);
            assert(seg =~= path@.subrange(start as int, end as int));
            if seg_len == 1 && path.get_char(start) == '.' {
                assert(seg =~= seq!['.']);
                assert(p.subrange(0, start as int) =~= path@.subrange(0, start as int));
                end = start;
            } else if seg_len == 2 && path.get_char(start) == '.' && path.get_char(start + 1) == '.' {
                assert(seg =~= seq!['.', '.']);
                return None;
            } else {
                assert(seg != seq!['.']) by {
                    if seg_len == 1 {
                        assert(seg[0] == path@[start as int]);
                    }
                }
                assert(seg != seq!['.', '.']) by {
                    if seg_len == 2 {
                        assert(seg[0] == path@[start as int] && seg[1] == path@[start + 1]);
                    }
                }
                return Some(path.substring_char(start, end));
            }
        }
    }
}

/// `name` without its extension.
pub fn name_stem(name: &str) -> (r: &str)
    ensures
        r@ == stem_of(name@),
{
    let n = name.unicode_len();
    let mut k = n;
    while k > 0 && name.get_char(k - 1) != '.'
        invariant
            k <= n,
            n == name@.len(),
            forall|j: int| k <= j < n ==> name@[j] != '.',
        decreases k,
    {
        k = k - 1;
    }
    proof {
        lemma_last_dot(name@, k - 1);
    }
    if k <= 1 {
        assert(name@.subrange(0, n as int) =~= name@);
        name.substring_char(0, n)
    } else {
        name.substring_char(0, k - 1)
    }
}

/// The final component of `path` without its extension (`Path::file_stem`).
pub fn path_file_stem(path: &str) -> (r: Option<&str>)
    ensures
        match file_stem_spec(path@) {
            Some(stem) => (r matches Some(s) && s@ == stem),
            None => r is None,
        },
{
    match path_file_name(path) {
        Some(name) => Some(name_stem(name)),
        None => None,
    }
}

/// The title given to an episode whose audio lies at `path`.
pub open spec fn title_for_path(path: Seq<char>) -> Seq<char> {
    match file_stem_spec(path) {
        Some(stem) => stem,
        None => "Unknown Title"@,
    }
}

/// The audio file whose path the downloader printed (`printed`, surrounding
/// whitespace ignored): its title is the file stem, or `Unknown Title`.
pub fn audio_file_from_download(printed: &str, duration_secs: Option<u32>) -> (a: AudioFile)
    ensures
        a.path@ == trim_spec(printed@),
        a.title@ == title_for_path(trim_spec(printed@)),
        a.duration_secs == duration_secs,
{
    let path = trim(printed);
    let title = match path_file_stem(path) {
        Some(stem) => String::from_str(stem),
        None => {
            proof {
                reveal_strlit("Unknown Title");
            }
            String::from_str("Unknown Title")
        },
    };
    AudioFile { path: String::from_str(path), duration_secs, title }
}

/// The public URL under which the audio at `audio_path` is served.
pub open spec fn audio_url_for(podcast_link: Seq<char>, audio_path: Seq<char>) -> Seq<char> {
    podcast_link + "/audio/"@ + match file_name_spec(audio_path) {
        Some(name) => name,
        None => "episode.mp3"@,
    }
}

/// Builds `{podcast_link}/audio/{file name}` for a downloaded file, falling
/// back to `episode.mp3` when the path has no file name.
pub fn episode_audio_url(podcast_link: &str, audio_path: &str) -> (url: String)
    ensures
        url@ == audio_url_for(podcast_link@, audio_path@),
{
    proof {
        reveal_strlit("/audio/");
        reveal_strlit("episode.mp3");
    }
    let mut url = String::from_str(podcast_link);
    url.append("/audio/");
    match path_file_name(audio_path) {
        Some(name) => url.append(name),
        None => url.append("episode.mp3"),
    }
    url
}

/// How a run of the downloader went, as its caller saw it.
#[derive(Clone, Debug)]
pub enum DownloadRun {
    /// The downloader is not installed.
    NotFound,
    /// The downloader could not be started for another reason.
    CouldNotRun,
    /// The downloader ran: whether it succeeded, and what it printed.
    Exited { success: bool, stdout: String, stderr: String },
}

/// Why no audio came out of a download.
#[derive(Clone, Debug, PartialEq, Eq)]
pub enum DownloadError {
    /// The downloader is not installed.
    ToolMissing,
    /// The downloader could not be started.
    CouldNotRun,
    /// The downloader failed, with what it wrote to its error stream.
    Failed(String),
    /// The file the downloader reported, given here, does not exist.
    MissingFile(String),
}

/// The message of each download error.
pub open spec fn download_error_message(e: DownloadError) -> Seq<char> {
    match e {
        DownloadError::ToolMissing => "yt-dlp not found; please install yt-dlp to download videos"@,
        DownloadError::CouldNotRun => "Failed to run yt-dlp"@,
        DownloadError::Failed(stderr) => "yt-dlp failed: "@ + stderr@,
        DownloadError::MissingFile(path) => "yt-dlp reported file '"@ + path@
            + "' but it does not exist"@,
    }
}

impl DownloadError {
    /// The message reported for the submission.
    pub fn message(&self) -> (m: String)
        ensures
            m@ == download_error_message(*self),
    {
        match self {
            DownloadError::ToolMissing => {
                proof {
                    reveal_strlit("yt-dlp not found; please install yt-dlp to download videos");
                }
                String::from_str("yt-dlp not found; please install yt-dlp to download videos")
            },
            DownloadError::CouldNotRun => {
                proof {
                    reveal_strlit("Failed to run yt-dlp");
                }
                String::from_str("Failed to run yt-dlp")
            },
            DownloadError::Failed(stderr) => {
                proof {
                    reveal_strlit("yt-dlp failed: ");
                }
                let mut m = String::from_str("yt-dlp failed: ");
                m.append(stderr.as_str());
                m
            },
            DownloadError::MissingFile(path) => {
                proof {
                    reveal_strlit("yt-dlp reported file '");
                    reveal_strlit("' but it does not exist");
                }
                let mut m = String::from_str("yt-dlp reported file '");
                m.append(path.as_str());
                m.append("' but it does not exist");
                m
            },
        }
    }
}

/// The audio file a run of the downloader produced, before its file is
/// checked: the file it printed when it succeeded, else why it failed.
pub fn download_outcome(run: DownloadRun) -> (r: Result<AudioFile, DownloadError>)
    ensures
        match run {
            DownloadRun::NotFound => r == Err::<AudioFile, DownloadError>(DownloadError::ToolMissing),
            DownloadRun::CouldNotRun => r == Err::<AudioFile, DownloadError>(DownloadError::CouldNotRun),
            DownloadRun::Exited { success, stdout, stderr } => if success {
                r matches Ok(a) && a.path@ == trim_spec(stdout@) && a.title@ == title_for_path(
                    trim_spec(stdout@),
                ) && a.duration_secs is None
            } else {
                r == Err::<AudioFile, DownloadError>(DownloadError::Failed(stderr))
            },
        },
{
    match run {
        DownloadRun::NotFound => Err(DownloadError::ToolMissing),
        DownloadRun::CouldNotRun => Err(DownloadError::CouldNotRun),
        DownloadRun::Exited { success, stdout, stderr } => if success {
            Ok(audio_file_from_download(stdout.as_str(), None))
        } else {
            Err(DownloadError::Failed(stderr))
        },
    }
}

/// Keeps the downloaded `audio` when its file exists, and refuses it otherwise.
pub fn checked_download(audio: AudioFile, exists: bool) -> (r: Result<AudioFile, DownloadError>)
    ensures
        exists ==> (r matches Ok(a) && a == audio),
        !exists ==> r == Err::<AudioFile, DownloadError>(DownloadError::MissingFile(audio.path)),
{
    if exists {
        Ok(audio)
    } else {
        Err(DownloadError::MissingFile(audio.path))
    }
}

} // verus!
