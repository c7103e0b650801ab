//! What to download into the cache, and from where.
use vstd::prelude::*;

use crate::cache::{
    cache_dir, commands_vendordep_path, get_cached_commands_vendordep, get_cached_gitignore,
    get_project_zip_path, get_robostart_cache, gitignore_path, project_zip_path,
};
use crate::choices::{ascii_lower, project_type_name, ProjectType};
use crate::config::{Config, ConfigView, Field};

verus! {

/// A file to download unless it is already cached.
pub struct Download {
    pub url: String,
    pub path: String,
}

/// The downloads that fill the cache for a project.
pub struct FetchPlan {
    /// The directory that must exist before anything is downloaded.
    pub cache_dir: String,
    /// The release archive with every project of the chosen type.
    pub project_zip: Download,
    /// The `.gitignore` file every project gets.
    pub gitignore: Download,
    /// The command-based vendor dependency of the chosen WPILib version.
    pub commands_vendordep: Download,
}

/// The release archive of WPILib version `version` that holds every project
/// of type `p`.
pub open spec fn project_zip_url(version: Seq<char>, p: ProjectType) -> Seq<char> {
    "https://github.com/wpilibsuite/vscode-wpilib/releases/download/v"@ + version + "/"@
        + ascii_lower(project_type_name(p)) + "s"@ + ".zip"@
}

/// Where the `.gitignore` file comes from.
pub open spec fn gitignore_url() -> Seq<char> {
    "https://raw.githubusercontent.com/wpilibsuite/vscode-wpilib/refs/heads/main/vscode-wpilib/resources/gradle/shared/.gitignore"@
}

/// Where the command-based vendor dependency of WPILib version `version`
/// comes from.
pub open spec fn commands_vendordep_url(version: Seq<char>) -> Seq<char> {
    "https://raw.githubusercontent.com/wpilibsuite/allwpilib/refs/tags/v"@ + version
        + "/wpilibNewCommands/WPILibNewCommands.json"@
}

/// The first setting a fetch needs that holds no value: the project type,
/// then the WPILib version.
pub open spec fn fetch_missing(v: ConfigView) -> Option<Field> {
    if v.project_type is None {
        Some(Field::ProjectType)
    } else if v.wpilib_version is None {
        Some(Field::WpilibVersion)
    } else {
        None
    }
}

/// `plan` holds the downloads for the settings `v`, with the cache below
/// the home directory `home`.
pub open spec fn is_fetch_plan(plan: FetchPlan, home: Seq<char>, v: ConfigView) -> bool {
    let version = v.wpilib_version.unwrap();
    &&& plan.cache_dir@ == cache_dir(home)
    &&& plan.project_zip.url@ == project_zip_url(version, v.project_type.unwrap())
    &&& project_zip_path(home, v) == Ok::<Seq<char>, Field>(plan.project_zip.path@)
    &&& plan.gitignore.url@ == gitignore_url()
    &&& plan.gitignore.path@ == gitignore_path(home)
    &&& plan.commands_vendordep.url@ == commands_vendordep_url(version)
    &&& commands_vendordep_path(home, v) == Ok::<Seq<char>, Field>(
        plan.commands_vendordep.path@,
    )
}

/// `p` begins with `prefix`.
pub open spec fn starts_with(p: Seq<char>, prefix: Seq<char>) -> bool {
    prefix.len() <= p.len() && p.subrange(0, prefix.len() as int) == prefix
}

/// Every download of a fetch lands inside the cache directory, provided the
/// WPILib version is not itself an absolute path.
pub proof fn law_downloads_inside_cache(plan: FetchPlan, home: Seq<char>, v: ConfigView)
    requires
        fetch_missing(v) is None,
        is_fetch_plan(plan, home, v),
        v.wpilib_version.unwrap().len() == 0 || v.wpilib_version.unwrap()[0] != '/',
    ensures
        starts_with(plan.project_zip.path@, plan.cache_dir@),
        starts_with(plan.gitignore.path@, plan.cache_dir@),
        starts_with(plan.commands_vendordep.path@, plan.cache_dir@),
{
    reveal_strlit("/.cache/robostart/");
    reveal_strlit("-");
    reveal_strlit(".zip");
    reveal_strlit("gitignore");
    reveal_strlit("vendordeps/newcommands-");
    reveal_strlit(".json");
    let c = cache_dir(home);
    let ver = v.wpilib_version.unwrap();
    assert(c.last() == '/');
    let zip_rel = ver + "-"@ + project_type_name(v.project_type.unwrap()) + ".zip"@;
    assert(zip_rel[0] != '/');
    assert((c + zip_rel).subrange(0, c.len() as int) =~= c);
    assert((c + "gitignore"@).subrange(0, c.len() as int) =~= c);
    let cmd_rel = "vendordeps/newcommands-"@ + ver + ".json"@;
    assert(cmd_rel[0] != '/');
    assert((c + cmd_rel).subrange(0, c.len() as int) =~= c);
}

/// The downloads that fill the cache below the home directory `home` for
/// the settings' project type and WPILib version; or the first of those two
/// settings that holds no value.
pub fn fetch_plan(home: &str, config: &Config) -> (r: Result<FetchPlan, Field>)
    ensures
        match r {
            Ok(plan) => fetch_missing(config@) is None && is_fetch_plan(plan, home@, config@),
            Err(f) => fetch_missing(config@) == Some(f),
        },
{
    let project_type = match config.project_type() {
        Some(p) => p,
        None => return Err(Field::ProjectType),
    };
    let version = match config.wpilib_version() {
        Some(v) => v,
        None => return Err(Field::WpilibVersion),
    };
    let mut zip_url = String::from_str(
        "https://github.com/wpilibsuite/vscode-wpilib/releases/download/v",
    );
    zip_url.append(version.as_str());
    zip_url.append("/");
    let archive = project_type.archive_name();
    zip_url.append(archive.as_str());
    zip_url.append(".zip");
    proof {
        reveal_strlit("s");
    }
    let zip_path = match get_project_zip_path(home, config) {
        Ok(p) => p,
        Err(f) => return Err(f),
    };
    let gitignore = Download {
        url: String::from_str(
            "https://raw.githubusercontent.com/wpilibsuite/vscode-wpilib/refs/heads/main/vscode-wpilib/resources/gradle/shared/.gitignore",
        ),
        path: get_cached_gitignore(home),
    };
    let mut commands_url = String::from_str(
        "https://raw.githubusercontent.com/wpilibsuite/allwpilib/refs/tags/v",
    );
    commands_url.append(version.as_str());
    commands_url.append("/wpilibNewCommands/WPILibNewCommands.json");
    let commands_path = match get_cached_commands_vendordep(home, config) {
        Ok(p) => p,
        Err(f) => return Err(f),
    };
    let plan = FetchPlan {
        cache_dir: get_robostart_cache(home),
        project_zip: Download { url: zip_url, path: zip_path },
        gitignore,
        commands_vendordep: Download { url: commands_url, path: commands_path },
    };
    assert(plan.project_zip.url@ =~= project_zip_url(version@, project_type));
    assert(plan.commands_vendordep.url@ =~= commands_vendordep_url(version@));
    Ok(plan)
}

/// A download as its address and its destination.
pub open spec fn download_view(d: Download) -> (Seq<char>, Seq<char>) {
    (d.url@, d.path@)
}

/// The download `d`, unless its file is already cached.
pub open spec fn pending(d: Download, cached: bool) -> Seq<(Seq<char>, Seq<char>)> {
    if cached {
        Seq::empty()
    } else {
        seq![download_view(d)]
    }
}

fn copy_download(d: &Download) -> (c: Download)
    ensures
        download_view(c) == download_view(*d),
{
    Download { url: d.url.clone(), path: d.path.clone() }
}

/// The downloads of `plan` still to make, in the plan's order: the archive,
/// the `.gitignore` file and the vendor dependency, each one only when its
/// file is not cached yet.
pub fn downloads_to_make(
    plan: &FetchPlan,
    zip_cached: bool,
    gitignore_cached: bool,
    commands_cached: bool,
) -> (r: Vec<Download>)
    ensures
        r@.map_values(|d: Download| download_view(d)) == pending(plan.project_zip, zip_cached)
            + pending(plan.gitignore, gitignore_cached) + pending(
            plan.commands_vendordep,
            commands_cached,
        ),
{
    let mut r: Vec<Download> = Vec::new();
    if !zip_cached {
        r.push(copy_download(&plan.project_zip));
    }
    if !gitignore_cached {
        r.push(copy_download(&plan.gitignore));
    }
    if !commands_cached {
        r.push(copy_download(&plan.commands_vendordep));
    }
    assert(r@.map_values(|d: Download| download_view(d)) =~= pending(plan.project_zip, zip_cached)
        + pending(plan.gitignore, gitignore_cached) + pending(
        plan.commands_vendordep,
        commands_cached,
    ));
    r
}

} // verus!
