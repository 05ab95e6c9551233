//! Locations under the per-user support directory, as text.
//!
//! A path is held as a `String`. Components are joined the way a Unix path
//! is extended: an absolute component replaces what came before, and a
//! separator is put in only where the base does not already end in one.
use vstd::prelude::*;
use vstd::string::*;
use vstd::utf8::decode_utf8;
use vstd::utf8::valid_utf8;

verus! {

/// `base` extended by `component`.
pub open spec fn joined(base: Seq<char>, component: Seq<char>) -> Seq<char> {
    if component.len() > 0 && component[0] == '/' {
        component
    } else if base.len() > 0 && base.last() != '/' {
        base + seq!['/'] + component
    } else {
        base + component
    }
}

/// Extends `base` by `component`.
pub fn join_path(base: &str, component: &str) -> (path: String)
    ensures
        path@ == joined(base@, component@),
{
    let n: usize = component.unicode_len();
    if n > 0 && component.get_char(0) == '/' {
        return String::from_str(component);
    }
    let m: usize = base.unicode_len();
    let mut path = String::from_str(base);
    if m > 0 && base.get_char(m - 1) != '/' {
        proof {
            reveal_strlit("/");
        }
        path.append("/");
        assert(path@ =~= base@ + seq!['/']);
    }
    path.append(component);
    path
}

/// The home directory: the one of the password database where it has one,
/// else the value of `HOME`, else the empty path.
pub fn get_real_home_directory(passwd_home: Option<String>, env_home: Option<String>) -> (home:
    String)
    ensures
        home@ == home_of(passwd_home, env_home),
{
    match passwd_home {
        Some(dir) => dir,
        None => match env_home {
            Some(dir) => dir,
            None => String::new(),
        },
    }
}

pub open spec fn home_of(passwd_home: Option<String>, env_home: Option<String>) -> Seq<char> {
    match passwd_home {
        Some(dir) => dir@,
        None => match env_home {
            Some(dir) => dir@,
            None => Seq::<char>::empty(),
        },
    }
}

/// The support directory that belongs to `home`.
pub open spec fn support_path_of(home: Seq<char>) -> Seq<char> {
    joined(joined(joined(home, "Library"@), "Application Support"@), "Zanshin"@)
}

/// The application's support directory under `home`:
/// `Library/Application Support/Zanshin`.
pub fn get_zanshin_application_support_path(home: &str) -> (path: String)
    ensures
        path@ == support_path_of(home@),
{
    let library = join_path(home, "Library");
    let support = join_path(library.as_str(), "Application Support");
    join_path(support.as_str(), "Zanshin")
}

/// Under a home directory that is not empty and does not end in a
/// separator, the support directory is the home directory followed by
/// `/Library/Application Support/Zanshin`.
pub proof fn support_path_under_plain_home(home: Seq<char>)
    requires
        home.len() > 0,
        home.last() != '/',
    ensures
        support_path_of(home) == home + "/Library/Application Support/Zanshin"@,
{
    reveal_strlit("Library");
    reveal_strlit("Application Support");
    reveal_strlit("Zanshin");
    reveal_strlit("/Library/Application Support/Zanshin");
    let library = joined(home, "Library"@);
    assert(library == home + seq!['/'] + "Library"@);
    assert(library.last() == 'y');
    let support = joined(library, "Application Support"@);
    assert(support == library + seq!['/'] + "Application Support"@);
    assert(support.last() == 't');
    let whole = joined(support, "Zanshin"@);
    assert(whole == support + seq!['/'] + "Zanshin"@);
    assert(whole =~= home + "/Library/Application Support/Zanshin"@);
}

/// Decodes `bytes` with `std::str::from_utf8` and copies the text. Trusted:
/// the bytes are accepted exactly when they are valid UTF-8, and the text is
/// what they encode.
#[verifier::external_body]
fn utf8_text(bytes: &[u8]) -> (text: Option<String>)
    ensures
        text.is_some() == valid_utf8(bytes@),
        text matches Some(s) ==> s@ == decode_utf8(bytes@),
{
    match std::str::from_utf8(bytes) {
        Ok(s) => Some(s.to_string()),
        Err(_) => None,
    }
}

/// The text of a path given as the bytes the system holds it in. A path
/// that is not valid UTF-8 has none and is refused as `"Invalid path"`.
pub fn pathbuf_to_string(path: &[u8]) -> (text: Result<String, String>)
    ensures
        text.is_ok() == valid_utf8(path@),
        text matches Ok(s) ==> s@ == decode_utf8(path@),
        text matches Err(e) ==> e@ == "Invalid path"@,
{
    match utf8_text(path) {
        Some(s) => Ok(s),
        None => Err(String::from_str("Invalid path")),
    }
}

/// Where the first-run marker lies under the support directory.
pub fn first_run_marker_path(app_support: &str) -> (path: String)
    ensures
        path@ == joined(app_support@, "first_run"@),
{
    join_path(app_support, "first_run")
}

/// `existing` holds the path `wanted`.
pub open spec fn holds_path(existing: Seq<String>, wanted: Seq<char>) -> bool {
    exists|i: int| 0 <= i < existing.len() && (#[trigger] existing[i])@ == wanted
}

/// Whether the first-run marker of `app_support` is among the paths that
/// were found to exist.
pub fn first_run_file_exists(app_support: &str, existing: &Vec<String>) -> (found: bool)
    ensures
        found == holds_path(existing@, joined(app_support@, "first_run"@)),
{
    let marker = first_run_marker_path(app_support);
    let mut i: usize = 0;
    while i < existing.len()
        invariant
            i <= existing.len(),
            marker@ == joined(app_support@, "first_run"@),
            forall|j: int| 0 <= j < i ==> (#[trigger] existing@[j])@ != marker@,
        decreases existing.len() - i,
    {
        if existing[i] == marker {
            return true;
        }
        i += 1;
    }
    false
}

/// Once the marker was created, the check finds it: a run is the first one
/// at most once, and creating the marker again changes nothing of that.
pub proof fn marker_found_once_created(app_support: Seq<char>, existing: Seq<String>, marker: String)
    requires
        marker@ == joined(app_support, "first_run"@),
    ensures
        holds_path(existing.push(marker), joined(app_support, "first_run"@)),
        holds_path(existing.push(marker).push(marker), joined(app_support, "first_run"@)),
{
    let once = existing.push(marker);
    assert(once[existing.len() as int]@ == marker@);
    let twice = once.push(marker);
    assert(twice[existing.len() as int]@ == marker@);
}

/// The worker's interpreter under the support directory.
pub fn interpreter_path(app_support: &str) -> (path: String)
    ensures
        path@ == joined(
            app_support@,
            "zanshin/python_interpreter/cpython-3.11.13-macos-aarch64-none/bin/python"@,
        ),
{
    join_path(
        app_support,
        "zanshin/python_interpreter/cpython-3.11.13-macos-aarch64-none/bin/python",
    )
}

/// The worker's script under the support directory.
pub fn script_path(app_support: &str) -> (path: String)
    ensures
        path@ == joined(app_support@, "zanshin/src/app.py"@),
{
    join_path(app_support, "zanshin/src/app.py")
}

/// The package installer under the support directory.
pub fn uv_path(app_support: &str) -> (path: String)
    ensures
        path@ == joined(app_support@, "zanshin/third_party/uv/uv"@),
{
    join_path(app_support, "zanshin/third_party/uv/uv")
}

/// The media database under the support directory.
pub fn media_db_path(app_support: &str) -> (path: String)
    ensures
        path@ == joined(joined(app_support@, "zanshin"@), "media.db"@),
{
    let dir = join_path(app_support, "zanshin");
    join_path(dir.as_str(), "media.db")
}

/// The directory in which an update leaves its script.
pub fn update_dir(app_support: &str) -> (path: String)
    ensures
        path@ == joined(app_support@, "update"@),
{
    join_path(app_support, "update")
}

/// The update script under the support directory.
pub fn update_script_path(app_support: &str) -> (path: String)
    ensures
        path@ == joined(joined(app_support@, "update"@), "update.py"@),
{
    let dir = update_dir(app_support);
    join_path(dir.as_str(), "update.py")
}

} // verus!
