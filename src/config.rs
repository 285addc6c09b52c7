//! The settings file: where the music is, and how that path is written down.

use vstd::prelude::*;
use vstd::string::*;

verus! {

/// The settings: the directory that holds the music.
pub struct Config {
    pub path: String,
}

/// `path` with a leading `~` replaced by the home directory, when it is known.
pub open spec fn expanded(path: Seq<char>, home: Option<Seq<char>>) -> Seq<char> {
    match home {
        Some(h) => if path.len() > 0 && path[0] == '~' {
            h + path.drop_first()
        } else {
            path
        },
        None => path,
    }
}

/// The text of a settings file that names `path`.
pub open spec fn config_text(path: Seq<char>) -> Seq<char> {
    "path = \""@ + path + "\""@
}

/// The file extensions of the tracks that the player takes.
pub open spec fn is_audio(extension: Seq<char>) -> bool {
    extension == "mp3"@ || extension == "mp4"@ || extension == "wav"@
}

/// Whether two strings hold the same characters.
pub fn same_text(a: &str, b: &str) -> (r: bool)
    ensures
        r == (a@ == b@),
{
    let n = a.unicode_len();
    if n != b.unicode_len() {
        return false;
    }
    let mut i: usize = 0;
    while i < n
        invariant
            i <= n,
            n == a@.len(),
            n == b@.len(),
            a@.subrange(0, i as int) == b@.subrange(0, i as int),
        decreases n - i,
    {
        if a.get_char(i) != b.get_char(i) {
            assert(a@[i as int] != b@[i as int]);
            return false;
        }
        assert(a@.subrange(0, i + 1) =~= a@.subrange(0, i as int).push(a@[i as int]));
        assert(b@.subrange(0, i + 1) =~= b@.subrange(0, i as int).push(b@[i as int]));
        i = i + 1;
    }
    assert(a@ =~= a@.subrange(0, n as int));
    assert(b@ =~= b@.subrange(0, n as int));
    true
}

/// Replaces a leading `~` of `path` by `home`, the home directory, when it is known.
pub fn expand_var(path: &str, home: Option<&str>) -> (r: String)
    ensures
        r@ == expanded(path@, match home {
            Some(h) => Some(h@),
            None => None,
        }),
{
    let len = path.unicode_len();
    if let Some(h) = home {
        if len > 0 && path.get_char(0) == '~' {
            let mut r = String::from_str(h);
            r.append(path.substring_char(1, len));
            assert(path@.drop_first() =~= path@.subrange(1, len as int));
            return r;
        }
    }
    String::from_str(path)
}

/// Whether a file with this extension is a track the player takes.
pub fn is_audio_extension(extension: &str) -> (r: bool)
    ensures
        r == is_audio(extension@),
{
    same_text(extension, "mp3") || same_text(extension, "mp4") || same_text(extension, "wav")
}

/// The text of a settings file that names `path`.
pub fn config_line(path: &str) -> (r: String)
    ensures
        r@ == config_text(path@),
{
    let mut r = String::from_str("path = \"");
    r.append(path);
    r.append("\"");
    r
}

impl Config {
    /// The settings read from a file whose `path` entry is `raw_path`, with a
    /// leading `~` replaced by `home`, the home directory, when it is known.
    pub fn from_raw(raw_path: &str, home: Option<&str>) -> (r: Config)
        ensures
            r.path@ == expanded(raw_path@, match home {
                Some(h) => Some(h@),
                None => None,
            }),
    {
        Config { path: expand_var(raw_path, home) }
    }
}

} // verus!
