//! How an unpacked project is installed: where it goes, which files are
//! copied where, and how the team number is written into its preferences.
use vstd::prelude::*;

use crate::cache::{
    commands_vendordep_path, get_cached_commands_vendordep, get_cached_gitignore,
    gitignore_path,
};
use crate::choices::{ascii_lower, language_name, project_type_name};
use crate::config::{Config, ConfigView, Field};
use crate::text::{
    decimal, decimal_spec, is_canonical_numeral, join_path, join_spec, law_decimal_reads_back,
    numeral_value, occurs_at, replace_all, replace_all_spec,
};

verus! {

/// The steps of installing a project, as paths and texts.
pub struct InstallPlan {
    /// The directory that will hold the project's directory; created if
    /// absent.
    pub output_prefix: String,
    /// The project's directory, which must not exist yet.
    pub output_dir: String,
    /// The language's directory name inside the unpacked archive.
    pub language: String,
    /// The language's directory inside the unpacked archive: its entries
    /// are the projects to choose from, and the path of each begins with it.
    pub subtype_prefix: String,
    /// The question that asks which project to install.
    pub subtype_prompt: String,
    /// The directory the archive was unpacked into.
    pub source_dir: String,
    /// The project's preferences file.
    pub preferences_path: String,
    /// What stands for the team number in the preferences file.
    pub team_number_text: String,
    /// The cached `.gitignore` file, and where it is copied to.
    pub gitignore_source: String,
    pub gitignore_dest: String,
    /// The cached command-based vendor dependency, the directory it is
    /// copied into, and its path there.
    pub commands_source: String,
    pub vendordep_dir: String,
    pub vendordep_dest: String,
}

/// The placeholder for the team number in a fresh project's preferences.
pub open spec fn team_placeholder() -> Seq<char> {
    "\"teamNumber\": -1"@
}

/// The team number entry of the preferences for team `team`.
pub open spec fn team_number_entry(team: u32) -> Seq<char> {
    "\"teamNumber\": "@ + decimal_spec(team as nat)
}

/// The first setting an installation needs that holds no value, in the
/// order in which the installation asks for them.
pub open spec fn install_missing(v: ConfigView) -> Option<Field> {
    if v.output_prefix is None {
        Some(Field::OutputPrefix)
    } else if v.name is None {
        Some(Field::Name)
    } else if v.language is None {
        Some(Field::Language)
    } else if v.project_type is None {
        Some(Field::ProjectType)
    } else if v.team_number is None {
        Some(Field::TeamNumber)
    } else if v.wpilib_version is None {
        Some(Field::WpilibVersion)
    } else {
        None
    }
}

/// The project's directory: the project's name below the output prefix.
pub open spec fn output_dir(v: ConfigView) -> Seq<char> {
    join_spec(v.output_prefix.unwrap(), v.name.unwrap())
}

/// `plan` installs the project of the settings `v` from the archive
/// unpacked into the directory `source_dir`, with the cache below the home
/// directory `home`.
pub open spec fn is_install_plan(
    plan: InstallPlan,
    home: Seq<char>,
    source_dir: Seq<char>,
    v: ConfigView,
) -> bool {
    let out = output_dir(v);
    let lang = ascii_lower(language_name(v.language.unwrap()));
    &&& plan.output_prefix@ == v.output_prefix.unwrap()
    &&& plan.output_dir@ == out
    &&& plan.language@ == lang
    &&& plan.source_dir@ == source_dir
    &&& plan.subtype_prefix@ == source_dir + "/"@ + lang + "/"@
    &&& plan.subtype_prompt@ == "Desired "@ + project_type_name(v.project_type.unwrap())
    &&& plan.preferences_path@ == join_spec(out, ".wpilib/wpilib_preferences.json"@)
    &&& plan.team_number_text@ == team_number_entry(v.team_number.unwrap())
    &&& plan.gitignore_source@ == gitignore_path(home)
    &&& plan.gitignore_dest@ == join_spec(out, ".gitignore"@)
    &&& commands_vendordep_path(home, v) == Ok::<Seq<char>, Field>(plan.commands_source@)
    &&& plan.vendordep_dir@ == join_spec(out, "vendordeps"@)
    &&& plan.vendordep_dest@ == join_spec(join_spec(out, "vendordeps"@), "WPILibNewCommands.json"@)
}

/// The team number entry of the preferences for team `team`.
pub fn team_number_text(team: u32) -> (t: String)
    ensures
        t@ == team_number_entry(team),
        t@.subrange(0, 14) == "\"teamNumber\": "@,
        is_canonical_numeral(t@.skip(14)),
        numeral_value(t@.skip(14)) == team,
{
    proof {
        law_team_number_entry_reads_back(team);
    }
    let mut t = String::from_str("\"teamNumber\": ");
    let digits = decimal(team);
    t.append(digits.as_str());
    t
}

/// The steps of installing the settings' project from the archive unpacked
/// into the directory `source_dir`, with the cache below the home directory
/// `home`; or the first setting the installation needs that holds no value.
pub fn install_plan(home: &str, source_dir: &str, config: &Config) -> (r: Result<
    InstallPlan,
    Field,
>)
    ensures
        match r {
            Ok(plan) => install_missing(config@) is None && is_install_plan(
                plan,
                home@,
                source_dir@,
                config@,
            ),
            Err(f) => install_missing(config@) == Some(f),
        },
{
    let prefix = match config.output_prefix() {
        Some(p) => p,
        None => return Err(Field::OutputPrefix),
    };
    let name = match config.name() {
        Some(n) => n,
        None => return Err(Field::Name),
    };
    let language = match config.language() {
        Some(l) => l,
        None => return Err(Field::Language),
    };
    let project_type = match config.project_type() {
        Some(p) => p,
        None => return Err(Field::ProjectType),
    };
    let team = match config.team_number() {
        Some(t) => t,
        None => return Err(Field::TeamNumber),
    };
    let commands_source = match get_cached_commands_vendordep(home, config) {
        Ok(p) => p,
        Err(f) => return Err(f),
    };
    let out = join_path(prefix.as_str(), name.as_str());
    let lang = language.lowercase_name();
    let source_dir = String::from_str(source_dir);
    let mut subtype_prefix = source_dir.clone();
    subtype_prefix.append("/");
    subtype_prefix.append(lang.as_str());
    subtype_prefix.append("/");
    let mut subtype_prompt = String::from_str("Desired ");
    let kind_text = project_type.to_string();
    subtype_prompt.append(kind_text.as_str());
    let preferences_path = join_path(out.as_str(), ".wpilib/wpilib_preferences.json");
    let gitignore_dest = join_path(out.as_str(), ".gitignore");
    let vendordep_dir = join_path(out.as_str(), "vendordeps");
    let vendordep_dest = join_path(vendordep_dir.as_str(), "WPILibNewCommands.json");
    let plan = InstallPlan {
        output_prefix: prefix,
        output_dir: out,
        language: lang,
        subtype_prefix,
        subtype_prompt,
        source_dir,
        preferences_path,
        team_number_text: team_number_text(team),
        gitignore_source: get_cached_gitignore(home),
        gitignore_dest,
        commands_source,
        vendordep_dir,
        vendordep_dest,
    };
    Ok(plan)
}

/// The name of the project that the directory entry `entry_path` stands
/// for: the entry's path with every occurrence of `subtype_prefix` removed
/// (an empty prefix removes nothing).
pub fn subtype_name(subtype_prefix: &str, entry_path: &str) -> (n: String)
    ensures
        n@ == replace_all_spec(entry_path@, subtype_prefix@, Seq::<char>::empty()),
{
    if subtype_prefix.unicode_len() == 0 {
        return String::from_str(entry_path);
    }
    proof {
        reveal_strlit("");
        assert(""@ =~= Seq::<char>::empty());
    }
    replace_all(entry_path, subtype_prefix, "")
}

/// The project's directory, `name` below `output_prefix`: `Ok` when
/// nothing exists there yet (`exists` is false), `Err` when something
/// does, since an existing directory is never installed into.
pub fn free_project_dir(output_prefix: &str, name: &str, exists: bool) -> (r: Result<
    String,
    String,
>)
    ensures
        match r {
            Ok(d) => !exists && d@ == join_spec(output_prefix@, name@),
            Err(d) => exists && d@ == join_spec(output_prefix@, name@),
        },
{
    let d = join_path(output_prefix, name);
    if exists {
        Err(d)
    } else {
        Ok(d)
    }
}

/// The directory of the chosen project `subtype` inside the unpacked
/// archive.
pub fn subtype_source_dir(plan: &InstallPlan, subtype: &str) -> (d: String)
    ensures
        d@ == plan.source_dir@ + "/"@ + plan.language@ + "/"@ + subtype@ + "/"@,
{
    let mut d = plan.source_dir.clone();
    d.append("/");
    d.append(plan.language.as_str());
    d.append("/");
    d.append(subtype);
    d.append("/");
    d
}

/// The preferences text `text` with each team number placeholder replaced
/// by `team_text`.
pub fn update_preferences(text: &str, team_text: &str) -> (t: String)
    ensures
        t@ == replace_all_spec(text@, team_placeholder(), team_text@),
{
    proof {
        reveal_strlit("\"teamNumber\": -1");
    }
    replace_all(text, "\"teamNumber\": -1", team_text)
}

proof fn lemma_replace_without_occurrence(s: Seq<char>, pat: Seq<char>, rep: Seq<char>)
    requires
        pat.len() > 0,
        forall|i: int| !occurs_at(s, pat, i),
    ensures
        replace_all_spec(s, pat, rep) == s,
    decreases s.len(),
{
    if s.len() >= pat.len() {
        assert(!occurs_at(s, pat, 0));
        assert forall|i: int| !occurs_at(s.skip(1), pat, i) by {
            if occurs_at(s.skip(1), pat, i) {
                assert(s.subrange(i + 1, i + 1 + pat.len()) =~= s.skip(1).subrange(
                    i,
                    i + pat.len(),
                ));
                assert(occurs_at(s, pat, i + 1));
            }
        }
        lemma_replace_without_occurrence(s.skip(1), pat, rep);
        assert(seq![s[0]] + s.skip(1) =~= s);
    }
}

/// Preferences without a team number placeholder are left as they are.
pub proof fn law_preferences_without_placeholder_unchanged(text: Seq<char>, team_text: Seq<char>)
    requires
        forall|i: int| !occurs_at(text, team_placeholder(), i),
    ensures
        replace_all_spec(text, team_placeholder(), team_text) == text,
{
    reveal_strlit("\"teamNumber\": -1");
    lemma_replace_without_occurrence(text, team_placeholder(), team_text);
}

/// The team number entry is the key `"teamNumber": ` followed by a numeral
/// without leading zeros that reads back, in base ten, as the team number.
pub proof fn law_team_number_entry_reads_back(team: u32)
    ensures
        team_number_entry(team).len() > 14,
        team_number_entry(team).subrange(0, 14) == "\"teamNumber\": "@,
        is_canonical_numeral(team_number_entry(team).skip(14)),
        numeral_value(team_number_entry(team).skip(14)) == team,
{
    reveal_strlit("\"teamNumber\": ");
    law_decimal_reads_back(team as nat);
    let key = "\"teamNumber\": "@;
    let digits = decimal_spec(team as nat);
    assert(key.len() == 14);
    assert((key + digits).subrange(0, 14) =~= key);
    assert((key + digits).skip(14) =~= digits);
}

/// A project whose name is a relative path is installed inside the output
/// prefix.
pub proof fn law_project_inside_prefix(v: ConfigView)
    requires
        v.output_prefix is Some,
        v.name is Some,
        v.name.unwrap().len() == 0 || v.name.unwrap()[0] != '/',
    ensures
        output_dir(v).len() >= v.output_prefix.unwrap().len(),
        output_dir(v).subrange(0, v.output_prefix.unwrap().len() as int) == v.output_prefix.unwrap(),
{
    let p = v.output_prefix.unwrap();
    let n = v.name.unwrap();
    if p.len() > 0 && p.last() != '/' {
        assert((p + seq!['/'] + n).subrange(0, p.len() as int) =~= p);
    } else {
        assert((p + n).subrange(0, p.len() as int) =~= p);
    }
}

} // verus!
