//! Where the application keeps its files: the user-data directory and the
//! files below it. Paths are texts with `/` between their components; the
//! host creates the directories.

use vstd::prelude::*;
use vstd::string::StringExecFns;
use crate::text::chars_of;

verus! {

/// The operating system family that decides where user data lives.
#[derive(Clone, Copy, Debug)]
pub enum Platform {
    Linux,
    MacOs,
    Other,
}

/// What the host knows of its surroundings, as far as paths depend on it.
#[derive(Debug)]
pub struct HostEnv {
    pub platform: Platform,
    /// The value of `XDG_DATA_HOME`, where it is set.
    pub data_home: Option<String>,
    /// The value of `HOME`, where it is set.
    pub home: Option<String>,
    /// The directory of the running executable, where it is known.
    pub exe_dir: Option<String>,
}

/// A host environment as plain text values.
pub ghost struct HostEnvModel {
    pub platform: Platform,
    pub data_home: Option<Seq<char>>,
    pub home: Option<Seq<char>>,
    pub exe_dir: Option<Seq<char>>,
}

/// The view of an optional text.
pub open spec fn text_of(o: Option<String>) -> Option<Seq<char>> {
    match o {
        Some(s) => Some(s@),
        None => None,
    }
}

/// The view of a path or the message that came in its place.
pub open spec fn outcome_of(r: Result<String, String>) -> Result<Seq<char>, Seq<char>> {
    match r {
        Ok(s) => Ok(s@),
        Err(e) => Err(e@),
    }
}

impl View for HostEnv {
    type V = HostEnvModel;

    open spec fn view(&self) -> HostEnvModel {
        HostEnvModel {
            platform: self.platform,
            data_home: text_of(self.data_home),
            home: text_of(self.home),
            exe_dir: text_of(self.exe_dir),
        }
    }
}

/// `base` extended by `part`: an absolute `part` stands alone; otherwise the
/// two are put together with exactly one `/` between them, none after an empty
/// `base` or one that already ends in `/`.
pub open spec fn join(base: Seq<char>, part: Seq<char>) -> Seq<char> {
    if part.len() > 0 && part[0] == '/' {
        part
    } else if base.len() == 0 || base.last() == '/' {
        base + part
    } else {
        base + "/"@ + part
    }
}

/// The application's directory name below the data home.
pub open spec fn app_identifier() -> Seq<char> {
    "com.bhao.endfieldgacha"@
}

/// The user-data directory where none has been fixed at start-up.
pub open spec fn fallback_dir(env: HostEnvModel) -> Result<Seq<char>, Seq<char>> {
    match env.platform {
        Platform::Linux => match env.data_home {
            Some(d) => Ok(join(join(d, app_identifier()), "userData"@)),
            None => match env.home {
                Some(h) => Ok(
                    join(
                        join(join(join(h, ".local"@), "share"@), app_identifier()),
                        "userData"@,
                    ),
                ),
                None => Err("Unable to resolve data directory (XDG_DATA_HOME/HOME not set)"@),
            },
        },
        Platform::MacOs => Err(
            "userData dir not initialized (expected to be set in Tauri setup on macOS)"@,
        ),
        Platform::Other => match env.exe_dir {
            Some(d) => Ok(join(d, "userData"@)),
            None => Err("Unable to find exe directory"@),
        },
    }
}

/// The user-data directory: the one fixed at start-up where there is one,
/// the fallback otherwise.
pub open spec fn userdata_dir(cached: Option<Seq<char>>, env: HostEnvModel) -> Result<
    Seq<char>,
    Seq<char>,
> {
    match cached {
        Some(d) => Ok(d),
        None => fallback_dir(env),
    }
}

/// Extends a path by one component.
pub fn join_path(base: &str, part: &str) -> (path: String)
    ensures
        path@ == join(base@, part@),
{
    let b: Vec<char> = chars_of(base);
    let p: Vec<char> = chars_of(part);
    if p.len() > 0 && p[0] == '/' {
        return String::from_str(part);
    }
    let mut path: String = String::from_str(base);
    if b.len() > 0 && b[b.len() - 1] != '/' {
        path.append("/");
    }
    path.append(part);
    path
}

/// The user-data directory for a host on which none was fixed at start-up.
/// On Linux it lies below `XDG_DATA_HOME`, or below `.local/share` in `HOME`;
/// on macOS there is none; elsewhere it lies beside the executable.
pub fn get_userdata_dir_fallback(env: &HostEnv) -> (r: Result<String, String>)
    ensures
        outcome_of(r) == fallback_dir(env@),
{
    match env.platform {
        Platform::Linux => {
            let data_home: String = match &env.data_home {
                Some(d) => d.clone(),
                None => match &env.home {
                    Some(h) => {
                        let local: String = join_path(h.as_str(), ".local");
                        join_path(local.as_str(), "share")
                    },
                    None => {
                        return Err(
                            String::from_str(
                                "Unable to resolve data directory (XDG_DATA_HOME/HOME not set)",
                            ),
                        );
                    },
                },
            };
            let app_dir: String = join_path(data_home.as_str(), "com.bhao.endfieldgacha");
            Ok(join_path(app_dir.as_str(), "userData"))
        },
        Platform::MacOs => Err(
            String::from_str(
                "userData dir not initialized (expected to be set in Tauri setup on macOS)",
            ),
        ),
        Platform::Other => match &env.exe_dir {
            Some(d) => Ok(join_path(d.as_str(), "userData")),
            None => Err(String::from_str("Unable to find exe directory")),
        },
    }
}

/// The user-data directory: `cached` where the host fixed one at start-up,
/// the fallback for `env` otherwise.
pub fn get_userdata_dir(cached: Option<&str>, env: &HostEnv) -> (r: Result<String, String>)
    ensures
        outcome_of(r) == userdata_dir(
            match cached {
                Some(d) => Some(d@),
                None => None,
            },
            env@,
        ),
{
    match cached {
        Some(d) => Ok(String::from_str(d)),
        None => get_userdata_dir_fallback(env),
    }
}

/// The directory to fix at start-up: none where one is fixed already,
/// whatever became of the application's data directory; otherwise `userData`
/// below that directory, or the message that came in its place.
pub fn init_userdata_dir(cached: Option<&str>, app_data_dir: Result<String, String>) -> (r: Result<
    Option<String>,
    String,
>)
    ensures
        cached.is_some() ==> r == Ok::<Option<String>, String>(None),
        cached.is_none() ==> match app_data_dir {
            Ok(d) => r is Ok && r->Ok_0.is_some() && r->Ok_0.unwrap()@ == join(d@, "userData"@),
            Err(e) => r == Err::<Option<String>, String>(e),
        },
{
    match cached {
        Some(_) => Ok(None),
        None => match app_data_dir {
            Ok(d) => Ok(Some(join_path(d.as_str(), "userData"))),
            Err(e) => Err(e),
        },
    }
}

/// The configuration file below the user-data directory `root`.
pub fn get_config_path(root: &str) -> (path: String)
    ensures
        path@ == join(root@, "config.json"@),
{
    join_path(root, "config.json")
}

/// The directory of the stored records below `root`.
pub fn get_gacha_dir(root: &str) -> (path: String)
    ensures
        path@ == join(root@, "gachaData"@),
{
    join_path(root, "gachaData")
}

/// The record file of the identity `uid` below `root`.
pub fn get_record_path(root: &str, uid: &str) -> (path: String)
    ensures
        path@ == join(join(root@, "gachaData"@), uid@ + ".json"@),
{
    let dir: String = join_path(root, "gachaData");
    let mut name: String = String::from_str(uid);
    name.append(".json");
    join_path(dir.as_str(), name.as_str())
}

/// The pool-info file below `root`.
pub fn get_pool_info_path(root: &str) -> (path: String)
    ensures
        path@ == join(join(root@, "gachaData"@), "poolInfo.json"@),
{
    let dir: String = join_path(root, "gachaData");
    join_path(dir.as_str(), "poolInfo.json")
}

} // verus!
