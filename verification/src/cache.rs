//! Where the downloaded files are kept: a cache directory under the user's
//! home directory.
use vstd::prelude::*;

use crate::choices::project_type_name;
use crate::config::{Config, ConfigView, Field};
use crate::text::{join_path, join_spec};

verus! {

/// The cache directory below the home directory `home`.
pub open spec fn cache_dir(home: Seq<char>) -> Seq<char> {
    home + "/.cache/robostart/"@
}

/// The name shared by the cached archive of a project type and its
/// unpacked directory: the WPILib version, a dash and the project type.
pub open spec fn project_name(v: ConfigView) -> Result<Seq<char>, Field> {
    if v.wpilib_version is None {
        Err(Field::WpilibVersion)
    } else if v.project_type is None {
        Err(Field::ProjectType)
    } else {
        Ok(v.wpilib_version.unwrap() + "-"@ + project_type_name(v.project_type.unwrap()))
    }
}

/// The cached archive of the project type's projects.
pub open spec fn project_zip_path(home: Seq<char>, v: ConfigView) -> Result<Seq<char>, Field> {
    match project_name(v) {
        Ok(n) => Ok(join_spec(cache_dir(home), n + ".zip"@)),
        Err(f) => Err(f),
    }
}

/// The directory the cached archive is unpacked into.
pub open spec fn project_unzipped_path(home: Seq<char>, v: ConfigView) -> Result<
    Seq<char>,
    Field,
> {
    match project_name(v) {
        Ok(n) => Ok(join_spec(cache_dir(home), n)),
        Err(f) => Err(f),
    }
}

/// The cached command-based vendor dependency of the WPILib version.
pub open spec fn commands_vendordep_path(home: Seq<char>, v: ConfigView) -> Result<
    Seq<char>,
    Field,
> {
    match v.wpilib_version {
        Some(ver) => Ok(join_spec(cache_dir(home), "vendordeps/newcommands-"@ + ver + ".json"@)),
        None => Err(Field::WpilibVersion),
    }
}

/// The cached `.gitignore` file.
pub open spec fn gitignore_path(home: Seq<char>) -> Seq<char> {
    join_spec(cache_dir(home), "gitignore"@)
}

/// The cache directory below the home directory `home`.
pub fn get_robostart_cache(home: &str) -> (p: String)
    ensures
        p@ == cache_dir(home@),
{
    let mut p = String::from_str(home);
    p.append("/.cache/robostart/");
    p
}

/// The version and the project type of the settings, joined by a dash; or
/// the first of them (the version, then the type) that holds no value.
pub fn get_project_name(config: &Config) -> (r: Result<String, Field>)
    ensures
        match r {
            Ok(n) => project_name(config@) == Ok::<Seq<char>, Field>(n@),
            Err(f) => project_name(config@) == Err::<Seq<char>, Field>(f),
        },
{
    let version = match config.wpilib_version() {
        Some(v) => v,
        None => return Err(Field::WpilibVersion),
    };
    let project_type = match config.project_type() {
        Some(p) => p,
        None => return Err(Field::ProjectType),
    };
    let mut n = version;
    n.append("-");
    let t = project_type.to_string();
    n.append(t.as_str());
    Ok(n)
}

/// Where the archive of the settings' project type is cached.
pub fn get_project_zip_path(home: &str, config: &Config) -> (r: Result<String, Field>)
    ensures
        match r {
            Ok(p) => project_zip_path(home@, config@) == Ok::<Seq<char>, Field>(p@),
            Err(f) => project_zip_path(home@, config@) == Err::<Seq<char>, Field>(f),
        },
{
    let mut name = get_project_name(config)?;
    name.append(".zip");
    let cache = get_robostart_cache(home);
    Ok(join_path(cache.as_str(), name.as_str()))
}

/// Where the archive of the settings' project type is unpacked.
pub fn get_project_unzipped_path(home: &str, config: &Config) -> (r: Result<String, Field>)
    ensures
        match r {
            Ok(p) => project_unzipped_path(home@, config@) == Ok::<Seq<char>, Field>(p@),
            Err(f) => project_unzipped_path(home@, config@) == Err::<Seq<char>, Field>(f),
        },
{
    let name = get_project_name(config)?;
    let cache = get_robostart_cache(home);
    Ok(join_path(cache.as_str(), name.as_str()))
}

/// Where the command-based vendor dependency of the settings' WPILib
/// version is cached.
pub fn get_cached_commands_vendordep(home: &str, config: &Config) -> (r: Result<String, Field>)
    ensures
        match r {
            Ok(p) => commands_vendordep_path(home@, config@) == Ok::<Seq<char>, Field>(p@),
            Err(f) => commands_vendordep_path(home@, config@) == Err::<Seq<char>, Field>(f),
        },
{
    let version = match config.wpilib_version() {
        Some(v) => v,
        None => return Err(Field::WpilibVersion),
    };
    let mut rel = String::from_str("vendordeps/newcommands-");
    rel.append(version.as_str());
    rel.append(".json");
    let cache = get_robostart_cache(home);
    Ok(join_path(cache.as_str(), rel.as_str()))
}

/// Where the `.gitignore` file is cached.
pub fn get_cached_gitignore(home: &str) -> (p: String)
    ensures
        p@ == gitignore_path(home@),
{
    let cache = get_robostart_cache(home);
    join_path(cache.as_str(), "gitignore")
}

/// The cached archive and the directory it is unpacked into share their
/// name: the archive's path is the directory's path followed by `.zip`.
pub proof fn law_archive_beside_unpacked(home: Seq<char>, v: ConfigView)
    ensures
        project_zip_path(home, v) is Ok <==> project_unzipped_path(home, v) is Ok,
        project_zip_path(home, v) is Ok ==> project_zip_path(home, v)->Ok_0
            == project_unzipped_path(home, v)->Ok_0 + ".zip"@,
{
    reveal_strlit("/.cache/robostart/");
    if let Ok(n) = project_name(v) {
        let c = cache_dir(home);
        assert(c.last() == '/');
        if n.len() > 0 && n[0] == '/' {
            assert((n + ".zip"@)[0] == '/');
        } else {
            assert((n + ".zip"@).len() == 0 || (n + ".zip"@)[0] != '/') by {
                reveal_strlit(".zip");
            }
            assert(c + (n + ".zip"@) =~= (c + n) + ".zip"@);
        }
    }
}

/// The cached `.gitignore` file lies directly inside the cache directory.
pub proof fn law_gitignore_in_cache(home: Seq<char>)
    ensures
        gitignore_path(home) == cache_dir(home) + "gitignore"@,
{
    reveal_strlit("/.cache/robostart/");
    reveal_strlit("gitignore");
}

} // verus!
