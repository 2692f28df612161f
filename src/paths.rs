use vstd::prelude::*;
use vstd::string::*;

use crate::rng::choose_string;
use crate::text::{push_str, trim, trim_of};

verus! {

/// Directory of the media and list files, beside the program.
pub const DATA_DIR: &'static str = "data";

/// File name of the settings, in the configuration directory.
pub const CONFIG_FILE: &'static str = "config.toml";

/// Extension of a list file.
pub const LIST_EXTENSION: &'static str = "txt";

pub open spec fn is_separator(c: char) -> bool {
    c == '/' || c == '\\'
}

/// `name` appended to the path `base` as one more component.
pub open spec fn joined(base: Seq<char>, name: Seq<char>) -> Seq<char> {
    if base.len() == 0 {
        name
    } else if is_separator(base.last()) {
        base + name
    } else {
        base + seq!['/'] + name
    }
}

/// Index of the last path separator in `s`, or -1.
pub open spec fn last_separator(s: Seq<char>) -> int
    decreases s.len(),
{
    if s.len() == 0 {
        -1
    } else if is_separator(s.last()) {
        s.len() - 1
    } else {
        last_separator(s.drop_last())
    }
}

/// Index of the last dot in `s`, or -1.
pub open spec fn last_dot(s: Seq<char>) -> int
    decreases s.len(),
{
    if s.len() == 0 {
        -1
    } else if s.last() == '.' {
        s.len() - 1
    } else {
        last_dot(s.drop_last())
    }
}

/// The last component of a path.
pub open spec fn file_name_of(path: Seq<char>) -> Seq<char> {
    path.skip(last_separator(path) + 1)
}

/// The extension of a path: what follows the last dot of its file name,
/// unless that dot opens the name or the name is `..`.
pub open spec fn extension_of(path: Seq<char>) -> Option<Seq<char>> {
    let name = file_name_of(path);
    let dot = last_dot(name);
    if dot <= 0 || name =~= seq!['.', '.'] {
        None
    } else {
        Some(name.skip(dot + 1))
    }
}

/// A character folded to lower case if it is an ASCII capital.
pub open spec fn ascii_lower(c: char) -> u32 {
    if 'A' <= c <= 'Z' {
        (c as u32 + 32) as u32
    } else {
        c as u32
    }
}

/// `s` equals the lower-case `lower` up to ASCII case.
pub open spec fn equals_ignoring_case(s: Seq<char>, lower: Seq<char>) -> bool {
    s.len() == lower.len() && forall|i: int| 0 <= i < s.len() ==> ascii_lower(#[trigger] s[i]) == lower[i] as u32
}

/// The extensions of audio tracks.
pub open spec fn sound_extension(e: Seq<char>) -> bool {
    equals_ignoring_case(e, "aiff"@) || equals_ignoring_case(e, "aif"@) || equals_ignoring_case(
        e,
        "aifc"@,
    ) || equals_ignoring_case(e, "flac"@) || equals_ignoring_case(e, "mp3"@)
        || equals_ignoring_case(e, "mp4"@) || equals_ignoring_case(e, "oga"@)
        || equals_ignoring_case(e, "ogg"@) || equals_ignoring_case(e, "wav"@)
        || equals_ignoring_case(e, "wma"@)
}

/// The extensions of background images and videos.
pub open spec fn background_extension(e: Seq<char>) -> bool {
    equals_ignoring_case(e, "bmp"@) || equals_ignoring_case(e, "gif"@) || equals_ignoring_case(
        e,
        "jpg"@,
    ) || equals_ignoring_case(e, "jpeg"@) || equals_ignoring_case(e, "png"@)
        || equals_ignoring_case(e, "svg"@) || equals_ignoring_case(e, "webp"@)
        || equals_ignoring_case(e, "mp4"@) || equals_ignoring_case(e, "webm"@)
}

pub open spec fn is_sound_path(path: Seq<char>) -> bool {
    extension_of(path) matches Some(e) && sound_extension(e)
}

pub open spec fn is_background_path(path: Seq<char>) -> bool {
    extension_of(path) matches Some(e) && background_extension(e)
}

/// The paths of `files` that name audio tracks, in order.
pub open spec fn sound_files(files: Seq<String>) -> Seq<String>
    decreases files.len(),
{
    if files.len() == 0 {
        Seq::empty()
    } else if is_sound_path(files.last()@) {
        sound_files(files.drop_last()).push(files.last())
    } else {
        sound_files(files.drop_last())
    }
}

/// The paths of `files` that name backgrounds, in order.
pub open spec fn background_files(files: Seq<String>) -> Seq<String>
    decreases files.len(),
{
    if files.len() == 0 {
        Seq::empty()
    } else if is_background_path(files.last()@) {
        background_files(files.drop_last()).push(files.last())
    } else {
        background_files(files.drop_last())
    }
}

/// A line of a list file that holds an item: not a comment.
pub open spec fn is_item_line(line: Seq<char>) -> bool {
    line.len() == 0 || line[0] != '#'
}

/// The text of each string.
pub open spec fn views(s: Seq<String>) -> Seq<Seq<char>> {
    s.map_values(|x: String| x@)
}

/// The lines of `lines` that are not comments, in order.
pub open spec fn item_lines(lines: Seq<Seq<char>>) -> Seq<Seq<char>>
    decreases lines.len(),
{
    if lines.len() == 0 {
        Seq::empty()
    } else if is_item_line(lines.last()) {
        item_lines(lines.drop_last()).push(lines.last())
    } else {
        item_lines(lines.drop_last())
    }
}

/// `name` appended to the path `base` as one more component.
pub fn join_path(base: &str, name: &str) -> (r: String)
    ensures
        r@ == joined(base@, name@),
{
    let n = base.unicode_len();
    let mut r = base.to_owned();
    if n > 0 {
        let last = base.get_char(n - 1);
        if last != '/' && last != '\\' {
            push_str(&mut r, "/");
            proof {
                reveal_strlit("/");
            }
        }
    }
    push_str(&mut r, name);
    proof {
        if n > 0 {
            assert(base@.last() == base@[n - 1]);
        }
    }
    r
}

/// The data directory under the program's directory `app_dir`.
pub fn data_path(app_dir: &str) -> (r: String)
    ensures
        r@ == joined(app_dir@, DATA_DIR@),
{
    join_path(app_dir, DATA_DIR)
}

/// The settings file under the configuration directory `config_dir`.
pub fn config_path(config_dir: &str) -> (r: String)
    ensures
        r@ == joined(config_dir@, CONFIG_FILE@),
{
    join_path(config_dir, CONFIG_FILE)
}

/// Index of the last character of `s` that is a path separator (or a dot,
/// with `dot`).
fn last_index_of(s: &str, dot: bool) -> (r: Option<usize>)
    ensures
        ({
            let i = if dot { last_dot(s@) } else { last_separator(s@) };
            &&& r matches Some(k) ==> k == i && 0 <= i < s@.len() && (dot ==> s@[i] == '.')
            &&& r is None ==> i == -1
        }),
{
    let n = s.unicode_len();
    let mut i: usize = n;
    assert(s@.take(n as int) =~= s@);
    while i > 0
        invariant
            i <= n == s@.len(),
            dot ==> last_dot(s@) == last_dot(s@.take(i as int)),
            !dot ==> last_separator(s@) == last_separator(s@.take(i as int)),
        decreases i,
    {
        let c = s.get_char(i - 1);
        assert(s@.take(i as int).last() == c);
        if (dot && c == '.') || (!dot && (c == '/' || c == '\\')) {
            return Some(i - 1);
        }
        assert(s@.take(i as int).drop_last() =~= s@.take(i - 1));
        i = i - 1;
    }
    None
}

/// The extension of `path`, as `Path::extension` gives it.
pub fn path_extension(path: &str) -> (r: Option<String>)
    ensures
        r matches Some(e) ==> extension_of(path@) == Some(e@),
        r is None ==> extension_of(path@) is None,
{
    let n = path.unicode_len();
    let start: usize = match last_index_of(path, false) {
        Some(k) => k + 1,
        None => 0,
    };
    let name = path.substring_char(start, n);
    assert(name@ =~= file_name_of(path@));
    let dot: usize = match last_index_of(name, true) {
        Some(k) => k,
        None => {
            return None;
        },
    };
    if dot == 0 {
        return None;
    }
    let m = name.unicode_len();
    if m == 2 {
        // a name of two characters whose second is a dot: `..` or `x.`
        if name.get_char(0) == '.' {
            assert(name@ =~= seq!['.', '.']);
            return None;
        }
    }
    assert(!(name@ =~= seq!['.', '.'])) by {
        if name@ =~= seq!['.', '.'] {
            assert(name@[0] == '.');
            assert(name@[1] == '.');
        }
    }
    let ext = name.substring_char(dot + 1, m);
    assert(ext@ =~= name@.skip(dot + 1));
    Some(ext.to_owned())
}

/// `s` equals the lower-case `lower` up to ASCII case.
fn eq_ignoring_case(s: &str, lower: &str) -> (r: bool)
    ensures
        r == equals_ignoring_case(s@, lower@),
{
    let n = s.unicode_len();
    if n != lower.unicode_len() {
        return false;
    }
    let mut i: usize = 0;
    while i < n
        invariant
            n == s@.len() == lower@.len(),
            i <= n,
            forall|j: int| 0 <= j < i ==> ascii_lower(#[trigger] s@[j]) == lower@[j] as u32,
        decreases n - i,
    {
        let c = s.get_char(i);
        let folded: u32 = if 'A' <= c && c <= 'Z' {
            c as u32 + 32
        } else {
            c as u32
        };
        if folded != lower.get_char(i) as u32 {
            return false;
        }
        i = i + 1;
    }
    true
}

/// `e` is the extension of an audio track.
pub fn is_sound_extension(e: &str) -> (r: bool)
    ensures
        r == sound_extension(e@),
{
    eq_ignoring_case(e, "aiff") || eq_ignoring_case(e, "aif") || eq_ignoring_case(e, "aifc")
        || eq_ignoring_case(e, "flac") || eq_ignoring_case(e, "mp3") || eq_ignoring_case(e, "mp4")
        || eq_ignoring_case(e, "oga") || eq_ignoring_case(e, "ogg") || eq_ignoring_case(e, "wav")
        || eq_ignoring_case(e, "wma")
}

/// `e` is the extension of a background image or video.
pub fn is_background_extension(e: &str) -> (r: bool)
    ensures
        r == background_extension(e@),
{
    eq_ignoring_case(e, "bmp") || eq_ignoring_case(e, "gif") || eq_ignoring_case(e, "jpg")
        || eq_ignoring_case(e, "jpeg") || eq_ignoring_case(e, "png") || eq_ignoring_case(e, "svg")
        || eq_ignoring_case(e, "webp") || eq_ignoring_case(e, "mp4") || eq_ignoring_case(e, "webm")
}

/// `path` names an audio track.
pub fn is_sound_file(path: &str) -> (r: bool)
    ensures
        r == is_sound_path(path@),
{
    match path_extension(path) {
        Some(e) => is_sound_extension(e.as_str()),
        None => false,
    }
}

/// `path` names a background image or video.
pub fn is_background_file(path: &str) -> (r: bool)
    ensures
        r == is_background_path(path@),
{
    match path_extension(path) {
        Some(e) => is_background_extension(e.as_str()),
        None => false,
    }
}

/// The tracks of a directory: its audio files, in order, then the entries
/// of its playlist.
pub fn load_tracks(files: &Vec<String>, playlist: Vec<String>) -> (r: Vec<String>)
    ensures
        r@ == sound_files(files@) + playlist@,
{
    let mut r: Vec<String> = Vec::new();
    let mut i: usize = 0;
    while i < files.len()
        invariant
            i <= files@.len(),
            r@ == sound_files(files@.take(i as int)),
        decreases files@.len() - i,
    {
        proof {
            assert(files@.take(i + 1).drop_last() =~= files@.take(i as int));
            assert(files@.take(i + 1).last() == files@[i as int]);
        }
        if is_sound_file(files[i].as_str()) {
            r.push(files[i].clone());
        }
        i = i + 1;
    }
    assert(files@.take(files@.len() as int) =~= files@);
    let mut playlist = playlist;
    r.append(&mut playlist);
    r
}

/// The background files among `files`, in order.
pub fn background_files_of(files: &Vec<String>) -> (r: Vec<String>)
    ensures
        r@ == background_files(files@),
{
    let mut r: Vec<String> = Vec::new();
    let mut i: usize = 0;
    while i < files.len()
        invariant
            i <= files@.len(),
            r@ == background_files(files@.take(i as int)),
        decreases files@.len() - i,
    {
        proof {
            assert(files@.take(i + 1).drop_last() =~= files@.take(i as int));
            assert(files@.take(i + 1).last() == files@[i as int]);
        }
        if is_background_file(files[i].as_str()) {
            r.push(files[i].clone());
        }
        i = i + 1;
    }
    assert(files@.take(files@.len() as int) =~= files@);
    r
}

/// A uniformly drawn background: from the list's own files when any is a
/// background, else from the common ones; `None` when neither has one.
pub fn random_bg(list_files: &Vec<String>, common_files: &Vec<String>) -> (r: Option<String>)
    ensures
        ({
            let c = if background_files(list_files@).len() > 0 {
                background_files(list_files@)
            } else {
                background_files(common_files@)
            };
            &&& r is None <==> c.len() == 0
            &&& r matches Some(t) ==> c.contains(t)
        }),
{
    let own = background_files_of(list_files);
    if own.len() > 0 {
        choose_string(&own)
    } else {
        let common = background_files_of(common_files);
        choose_string(&common)
    }
}

/// The lines of a list that hold items: those that are not comments.
pub fn drop_comments(lines: Vec<String>) -> (r: Vec<String>)
    ensures
        views(r@) == item_lines(views(lines@)),
{
    let mut r: Vec<String> = Vec::new();
    let mut i: usize = 0;
    while i < lines.len()
        invariant
            i <= lines@.len(),
            views(r@) == item_lines(views(lines@.take(i as int))),
        decreases lines@.len() - i,
    {
        let line = lines[i].as_str();
        proof {
            assert(views(lines@.take(i + 1)).drop_last() =~= views(lines@.take(i as int)));
            assert(views(lines@.take(i + 1)).last() == lines@[i as int]@);
        }
        let keep = line.unicode_len() == 0 || line.get_char(0) != '#';
        if keep {
            r.push(lines[i].clone());
        }
        assert(views(r@) =~= item_lines(views(lines@.take(i + 1))));
        i = i + 1;
    }
    assert(lines@.take(lines@.len() as int) =~= lines@);
    r
}

/// The items of a list file given by its lines: each line trimmed, the
/// comments left out.
pub fn list_items(lines: &Vec<String>) -> (r: Vec<String>)
    ensures
        views(r@) == item_lines(views(lines@).map_values(|l: Seq<char>| trim_of(l))),
{
    let mut trimmed: Vec<String> = Vec::new();
    let mut i: usize = 0;
    while i < lines.len()
        invariant
            i <= lines@.len(),
            trimmed@.len() == i,
            views(trimmed@) =~= views(lines@.take(i as int)).map_values(|l: Seq<char>| trim_of(l)),
        decreases lines@.len() - i,
    {
        let t = trim(lines[i].as_str());
        let ghost before = trimmed@;
        trimmed.push(t);
        proof {
            let goal = views(lines@.take(i + 1)).map_values(|l: Seq<char>| trim_of(l));
            assert forall|j: int| 0 <= j < i + 1 implies views(trimmed@)[j] == goal[j] by {
                if j < i {
                    assert(trimmed@[j] == before[j]);
                    assert(views(before)[j] == views(lines@.take(i as int)).map_values(
                        |l: Seq<char>| trim_of(l),
                    )[j]);
                    assert(lines@.take(i + 1)[j] == lines@.take(i as int)[j]);
                } else {
                    assert(trimmed@[j] == t);
                    assert(lines@.take(i + 1)[j] == lines@[i as int]);
                }
            }
            assert(views(trimmed@) =~= goal);
        }
        i = i + 1;
    }
    assert(lines@.take(lines@.len() as int) =~= lines@);
    drop_comments(trimmed)
}

} // verus!
