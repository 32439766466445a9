use vstd::prelude::*;

verus! {

/// The application's name, used for its directories.
pub const APP_NAME: &'static str = "OpenCapt";

/// Where the configuration file and the logs live.
#[derive(Debug, Clone)]
pub struct AppPaths {
    pub config_dir: String,
    pub config_file: String,
    pub log_dir: String,
}

/// Why no configuration directory could be found.
#[derive(Debug, Clone, Copy, PartialEq, Eq, Structural)]
pub enum PathsError {
    /// The operating system reported no base directories.
    NoBaseDirectories,
}

/// `s` ends with `suffix`.
pub open spec fn ends_with_spec(s: Seq<char>, suffix: Seq<char>) -> bool {
    s.len() >= suffix.len() && s.subrange(s.len() - suffix.len(), s.len() as int) == suffix
}

/// A path component name: non-empty, with no separator or drive colon in it.
pub open spec fn is_plain_component(name: Seq<char>) -> bool {
    name.len() > 0 && forall|i: int| 0 <= i < name.len() ==> name[i] != '/' && name[i] != '\\' && name[i] != ':'
}

/// `path` is `base` with the plain component `name` joined on: directly, or
/// after one separator (`/` or `\\`, whichever the platform writes).
pub open spec fn is_join_of(path: Seq<char>, base: Seq<char>, name: Seq<char>) -> bool {
    ||| path == base + name
    ||| path == base + seq!['/'] + name
    ||| path == base + seq!['\\'] + name
}

/// `path` starts with a verbatim prefix (`\\?\`), which Windows paths
/// treat specially when joined.
pub open spec fn is_verbatim(path: Seq<char>) -> bool {
    path.len() >= 4 && path.subrange(0, 4) == seq!['\\', '\\', '?', '\\']
}

/// `path` is `name` joined onto `base` as `Path::join` documents it: no
/// separator after an empty base or one ending in `/`; exactly one after a
/// base ending in anything but a separator or a drive colon; after a base
/// ending in `\\` or `:` (a separator, or a drive, on Windows only) the
/// platform decides between none and one.
pub open spec fn joined_path(path: Seq<char>, base: Seq<char>, name: Seq<char>) -> bool {
    if base.len() == 0 {
        path == name
    } else if base.last() == '/' {
        path == base + name
    } else if base.last() == '\\' || base.last() == ':' {
        is_join_of(path, base, name)
    } else {
        path == base + seq!['/'] + name || path == base + seq!['\\'] + name
    }
}

/// Calls `std::path::Path::join` and writes the result out as text.
/// Claimed, for a plain component other than `.` and `..`: the component is
/// adjoined at the end; for a base without a verbatim prefix, the text is
/// `joined_path` (which of `/` and `\\` is written is the platform's).
/// Left unsaid: how a verbatim base is rewritten, which the documentation
/// only calls normalising.
#[verifier::external_body]
pub(crate) fn join_path(base: &str, name: &str) -> (r: String)
    requires
        is_plain_component(name@),
        name@ != "."@,
        name@ != ".."@,
    ensures
        ends_with_spec(r@, name@),
        !is_verbatim(base@) ==> joined_path(r@, base@, name@),
{
    std::path::Path::new(base).join(name).to_string_lossy().into_owned()
}

/// Calls `directories_next::UserDirs::new` and `UserDirs::picture_dir`.
/// Nothing is claimed of the result: which directory is reported is the environment's.
#[verifier::external_body]
pub(crate) fn picture_dir() -> (r: Option<String>) {
    directories_next::UserDirs::new().and_then(
        |dirs| dirs.picture_dir().map(|dir| dir.to_string_lossy().into_owned()),
    )
}

/// Calls `directories_next::BaseDirs::new` and `BaseDirs::config_dir`.
/// Nothing is claimed of the result: it is the environment's.
#[verifier::external_body]
pub(crate) fn base_config_dir() -> (r: Option<String>) {
    directories_next::BaseDirs::new().map(|dirs| dirs.config_dir().to_string_lossy().into_owned())
}

/// Paths beside the executable: `config.toml` and `logs` in its directory.
pub fn portable_app_paths(exe_dir: &str) -> (r: AppPaths)
    ensures
        r.config_dir@ == exe_dir@,
        ends_with_spec(r.config_file@, "config.toml"@),
        ends_with_spec(r.log_dir@, "logs"@),
        !is_verbatim(exe_dir@) ==> joined_path(r.config_file@, exe_dir@, "config.toml"@),
        !is_verbatim(exe_dir@) ==> joined_path(r.log_dir@, exe_dir@, "logs"@),
{
    proof {
        reveal_strlit("config.toml");
        reveal_strlit("logs");
        reveal_strlit(".");
        reveal_strlit("..");
    }
    let config_dir = String::from_str(exe_dir);
    let config_file = join_path(exe_dir, "config.toml");
    let log_dir = join_path(exe_dir, "logs");
    AppPaths { config_dir, config_file, log_dir }
}

/// Paths under the per-user configuration directory `base`, in a directory
/// named after the application; an error where the system reported none.
pub fn appdata_app_paths_from(base: Option<String>) -> (r: Result<AppPaths, PathsError>)
    ensures
        match base {
            None => r == Err::<AppPaths, PathsError>(PathsError::NoBaseDirectories),
            Some(b) => r matches Ok(p)
                && (!is_verbatim(b@) ==> joined_path(p.config_dir@, b@, APP_NAME@))
                && (!is_verbatim(p.config_dir@) ==> joined_path(p.config_file@, p.config_dir@, "config.toml"@))
                && (!is_verbatim(p.config_dir@) ==> joined_path(p.log_dir@, p.config_dir@, "logs"@))
                && ends_with_spec(p.config_dir@, APP_NAME@)
                && ends_with_spec(p.config_file@, "config.toml"@)
                && ends_with_spec(p.log_dir@, "logs"@),
        },
{
    proof {
        reveal_strlit("OpenCapt");
        reveal_strlit("config.toml");
        reveal_strlit("logs");
        reveal_strlit(".");
        reveal_strlit("..");
    }
    match base {
        None => Err(PathsError::NoBaseDirectories),
        Some(b) => {
            let config_dir = join_path(b.as_str(), APP_NAME);
            let config_file = join_path(config_dir.as_str(), "config.toml");
            assert("logs"@.len() != ".."@.len());
            let log_dir = join_path(config_dir.as_str(), "logs");
            Ok(AppPaths { config_dir, config_file, log_dir })
        },
    }
}

/// The per-user configuration paths, as the system reports its configuration directory.
pub fn appdata_app_paths() -> (r: Result<AppPaths, PathsError>)
    ensures
        r matches Ok(p) ==> ends_with_spec(p.config_dir@, APP_NAME@)
            && ends_with_spec(p.config_file@, "config.toml"@)
            && ends_with_spec(p.log_dir@, "logs"@)
            && (!is_verbatim(p.config_dir@) ==> joined_path(p.config_file@, p.config_dir@, "config.toml"@))
            && (!is_verbatim(p.config_dir@) ==> joined_path(p.log_dir@, p.config_dir@, "logs"@)),
{
    let base = base_config_dir();
    appdata_app_paths_from(base)
}

/// The directory for saved captures under the pictures folder `pictures`:
/// `<pictures>/OpenCapt`, or a public pictures folder where there is none.
pub fn save_dir_under(pictures: Option<String>) -> (r: String)
    ensures
        match pictures {
            Some(p) => !is_verbatim(p@) ==> joined_path(r@, p@, APP_NAME@),
            None => r@ == "C:\\Users\\Public\\Pictures\\OpenCapt"@,
        },
        ends_with_spec(r@, APP_NAME@),
{
    proof {
        reveal_strlit("OpenCapt");
        reveal_strlit(".");
        reveal_strlit("..");
        reveal_strlit("C:\\Users\\Public\\Pictures\\OpenCapt");
    }
    match pictures {
        Some(p) => {
            join_path(p.as_str(), APP_NAME)
        },
        None => {
            let r = String::from_str("C:\\Users\\Public\\Pictures\\OpenCapt");
            proof {
                assert(r@.subrange(r@.len() - 8, r@.len() as int) =~= APP_NAME@);
            }
            r
        },
    }
}

/// The default directory for saved captures, under the pictures folder the system reports.
pub fn default_save_dir() -> (r: String)
    ensures
        ends_with_spec(r@, APP_NAME@),
{
    save_dir_under(picture_dir())
}

} // verus!
