//! The project's settings, each filled at most once: from a command-line
//! flag, or from the answer to a prompt the first time the value is needed.
//! A value once filled is kept for good.
use vstd::prelude::*;

use crate::choices::{all_languages, all_project_types, project_type_name, Language, ProjectType};
use crate::text::{replace_all, replace_all_spec};

verus! {

/// One setting of the project.
#[derive(Clone, Copy, Debug, PartialEq, Eq, Structural)]
pub enum Field {
    Language,
    ProjectType,
    WpilibVersion,
    OutputPrefix,
    Name,
    TeamNumber,
}

/// The settings given on the command line; each one may be absent.
pub struct CliParser {
    pub language: Option<Language>,
    pub project_type: Option<ProjectType>,
    pub wpilib_version: Option<String>,
    pub output_prefix: Option<String>,
    pub name: Option<String>,
    pub team_number: Option<u32>,
}

/// The settings of a project, each one filled at most once.
pub struct Config {
    language: Option<Language>,
    project_type: Option<ProjectType>,
    wpilib_version: Option<String>,
    output_prefix: Option<String>,
    name: Option<String>,
    team_number: Option<u32>,
}

/// What a `Config` holds, with its texts as character sequences.
pub struct ConfigView {
    pub language: Option<Language>,
    pub project_type: Option<ProjectType>,
    pub wpilib_version: Option<Seq<char>>,
    pub output_prefix: Option<Seq<char>>,
    pub name: Option<Seq<char>>,
    pub team_number: Option<u32>,
}

/// The characters of an optional text.
pub open spec fn opt_text(o: Option<String>) -> Option<Seq<char>> {
    match o {
        Some(s) => Some(s@),
        None => None,
    }
}

impl View for Config {
    type V = ConfigView;

    closed spec fn view(&self) -> ConfigView {
        ConfigView {
            language: self.language,
            project_type: self.project_type,
            wpilib_version: opt_text(self.wpilib_version),
            output_prefix: opt_text(self.output_prefix),
            name: opt_text(self.name),
            team_number: self.team_number,
        }
    }
}

/// The value that a prompt for one setting was answered with.
pub enum Answer {
    Language(Language),
    ProjectType(ProjectType),
    WpilibVersion(String),
    /// The directory as typed, and the user's home directory, which stands
    /// in for each `~` of what was typed.
    OutputPrefix { typed: String, home: String },
    Name(String),
    TeamNumber(u32),
}

/// A question to ask the user, to fill one setting.
pub enum Prompt {
    SelectLanguage { message: String, languages: Vec<Language> },
    SelectProjectType { message: String, project_types: Vec<ProjectType> },
    Text { field: Field, message: String, help: Option<String> },
    TeamNumber { message: String, error_message: String },
}

impl ConfigView {
    /// Whether setting `f` holds a value.
    pub open spec fn has(self, f: Field) -> bool {
        match f {
            Field::Language => self.language is Some,
            Field::ProjectType => self.project_type is Some,
            Field::WpilibVersion => self.wpilib_version is Some,
            Field::OutputPrefix => self.output_prefix is Some,
            Field::Name => self.name is Some,
            Field::TeamNumber => self.team_number is Some,
        }
    }

    /// No setting holds a value.
    pub open spec fn is_empty(self) -> bool {
        &&& self.language is None
        &&& self.project_type is None
        &&& self.wpilib_version is None
        &&& self.output_prefix is None
        &&& self.name is None
        &&& self.team_number is None
    }

    /// The settings after `a` is stored into a setting that held no value.
    pub open spec fn stored(self, a: Answer) -> ConfigView {
        match a {
            Answer::Language(l) => ConfigView { language: Some(l), ..self },
            Answer::ProjectType(p) => ConfigView { project_type: Some(p), ..self },
            Answer::WpilibVersion(v) => ConfigView { wpilib_version: Some(v@), ..self },
            Answer::OutputPrefix { typed, home } => ConfigView {
                output_prefix: Some(expanded_prefix(typed@, home@)),
                ..self
            },
            Answer::Name(n) => ConfigView { name: Some(n@), ..self },
            Answer::TeamNumber(t) => ConfigView { team_number: Some(t), ..self },
        }
    }

    /// The settings after answering with `a`: a setting that already holds a
    /// value keeps it, an empty one takes the answer.
    pub open spec fn answered(self, a: Answer) -> ConfigView {
        if self.has(answer_field(a)) {
            self
        } else {
            self.stored(a)
        }
    }
}

/// The directory typed by the user with each `~` replaced by the home
/// directory.
pub open spec fn expanded_prefix(typed: Seq<char>, home: Seq<char>) -> Seq<char> {
    replace_all_spec(typed, "~"@, home)
}

/// `typed` with each `~` standing for the text `home`, character by
/// character.
pub open spec fn tilde_substituted(typed: Seq<char>, home: Seq<char>) -> Seq<char>
    decreases typed.len(),
{
    if typed.len() == 0 {
        typed
    } else if typed[0] == '~' {
        home + tilde_substituted(typed.skip(1), home)
    } else {
        seq![typed[0]] + tilde_substituted(typed.skip(1), home)
    }
}

/// The output directory a user types is stored with each `~` replaced by
/// the home directory and every other character kept as typed, in place:
/// a directory typed without `~` is stored exactly as typed.
pub proof fn law_output_prefix_expands_tilde_only(v: ConfigView, typed: Seq<char>, home: Seq<char>)
    ensures
        expanded_prefix(typed, home) == tilde_substituted(typed, home),
        !typed.contains('~') ==> expanded_prefix(typed, home) == typed,
        v.output_prefix is None ==> forall|t: String, h: String|
            t@ == typed && h@ == home ==> v.answered(Answer::OutputPrefix { typed: t, home: h }).output_prefix
                == Some(tilde_substituted(typed, home)),
    decreases typed.len(),
{
    reveal_strlit("~");
    assert("~"@ =~= seq!['~']);
    if typed.len() > 0 {
        law_output_prefix_expands_tilde_only(v, typed.skip(1), home);
        assert(typed.subrange(0, 1) =~= seq![typed[0]]);
        if !typed.contains('~') {
            assert forall|i: int| 0 <= i < typed.skip(1).len() implies typed.skip(1)[i] != '~' by {
                assert(typed.skip(1)[i] == typed[i + 1]);
            }
            assert(typed[0] != '~');
            assert(seq![typed[0]] + typed.skip(1) =~= typed);
        }
    }
}

/// The setting that an answer fills.
pub open spec fn answer_field(a: Answer) -> Field {
    match a {
        Answer::Language(_) => Field::Language,
        Answer::ProjectType(_) => Field::ProjectType,
        Answer::WpilibVersion(_) => Field::WpilibVersion,
        Answer::OutputPrefix { .. } => Field::OutputPrefix,
        Answer::Name(_) => Field::Name,
        Answer::TeamNumber(_) => Field::TeamNumber,
    }
}

/// The setting that must be asked for next so that `f` can be filled: none
/// when `f` holds a value; the project type when the WPILib version is
/// wanted and the project type is not known yet, since the version's
/// question names the project type; `f` itself otherwise.
pub open spec fn prompt_target(v: ConfigView, f: Field) -> Option<Field> {
    if v.has(f) {
        None
    } else if f == Field::WpilibVersion && v.project_type is None {
        Some(Field::ProjectType)
    } else {
        Some(f)
    }
}

/// The help shown with the question for the WPILib version.
pub open spec fn version_help() -> Seq<char> {
    "This will match the corresponding WPILib version, e.g. 2025.3.2"@
}

/// The question for the output directory.
pub open spec fn prefix_message() -> Seq<char> {
    "What directory should the project live under?"@
}

/// The help shown with the question for the output directory.
pub open spec fn prefix_help() -> Seq<char> {
    "This is just the parent directory of your project, don't include the project name."@
}

/// `p` is the question that fills setting `target` in the settings `v`.
pub open spec fn prompt_describes(p: Prompt, target: Field, v: ConfigView) -> bool {
    match target {
        Field::Language => p matches Prompt::SelectLanguage { message, languages } && message@
            == "Language: "@ && languages@ == all_languages(),
        Field::ProjectType => p matches Prompt::SelectProjectType { message, project_types }
            && message@ == "Project Type: "@ && project_types@ == all_project_types(),
        Field::WpilibVersion => p matches Prompt::Text { field, message, help } && field
            == Field::WpilibVersion && v.project_type is Some && message@ == project_type_name(
            v.project_type.unwrap(),
        ) + " Version: "@ && opt_text(help) == Some(version_help()),
        Field::OutputPrefix => p matches Prompt::Text { field, message, help } && field
            == Field::OutputPrefix && message@ == prefix_message() && opt_text(help) == Some(
            prefix_help(),
        ),
        Field::Name => p matches Prompt::Text { field, message, help } && field == Field::Name
            && message@ == "Project Name: "@ && help is None,
        Field::TeamNumber => p matches Prompt::TeamNumber { message, error_message } && message@
            == "Team Number: "@ && error_message@ == "Please type a valid integer greater than 0"@,
    }
}

/// A copy of an optional text.
fn copy_text(o: &Option<String>) -> (r: Option<String>)
    ensures
        opt_text(r) == opt_text(*o),
{
    match o {
        Some(s) => Some(s.clone()),
        None => None,
    }
}

impl Config {
    /// Settings with no value in any of them.
    pub fn new() -> (c: Config)
        ensures
            c@.is_empty(),
    {
        Config {
            language: None,
            project_type: None,
            wpilib_version: None,
            output_prefix: None,
            name: None,
            team_number: None,
        }
    }

    /// Settings that hold what was given on the command line.
    pub fn from_cli(cli: CliParser) -> (c: Config)
        ensures
            c@.language == cli.language,
            c@.project_type == cli.project_type,
            c@.wpilib_version == opt_text(cli.wpilib_version),
            c@.output_prefix == opt_text(cli.output_prefix),
            c@.name == opt_text(cli.name),
            c@.team_number == cli.team_number,
    {
        Config {
            language: cli.language,
            project_type: cli.project_type,
            wpilib_version: cli.wpilib_version,
            output_prefix: cli.output_prefix,
            name: cli.name,
            team_number: cli.team_number,
        }
    }

    /// The settings as command-line values: each one present exactly when
    /// it holds a value.
    pub fn to_cli(&self) -> (c: CliParser)
        ensures
            c.language == self@.language,
            c.project_type == self@.project_type,
            opt_text(c.wpilib_version) == self@.wpilib_version,
            opt_text(c.output_prefix) == self@.output_prefix,
            opt_text(c.name) == self@.name,
            c.team_number == self@.team_number,
    {
        CliParser {
            language: self.language,
            project_type: self.project_type,
            wpilib_version: copy_text(&self.wpilib_version),
            output_prefix: copy_text(&self.output_prefix),
            name: copy_text(&self.name),
            team_number: self.team_number,
        }
    }

    /// Whether setting `f` holds a value.
    pub fn has(&self, f: Field) -> (b: bool)
        ensures
            b == self@.has(f),
    {
        match f {
            Field::Language => self.language.is_some(),
            Field::ProjectType => self.project_type.is_some(),
            Field::WpilibVersion => self.wpilib_version.is_some(),
            Field::OutputPrefix => self.output_prefix.is_some(),
            Field::Name => self.name.is_some(),
            Field::TeamNumber => self.team_number.is_some(),
        }
    }

    /// The language, if known.
    pub fn language(&self) -> (r: Option<Language>)
        ensures
            r == self@.language,
    {
        self.language
    }

    /// The project type, if known.
    pub fn project_type(&self) -> (r: Option<ProjectType>)
        ensures
            r == self@.project_type,
    {
        self.project_type
    }

    /// The WPILib version, if known.
    pub fn wpilib_version(&self) -> (r: Option<String>)
        ensures
            opt_text(r) == self@.wpilib_version,
    {
        copy_text(&self.wpilib_version)
    }

    /// The directory that will hold the project's directory, if known.
    pub fn output_prefix(&self) -> (r: Option<String>)
        ensures
            opt_text(r) == self@.output_prefix,
    {
        copy_text(&self.output_prefix)
    }

    /// The project's name, if known.
    pub fn name(&self) -> (r: Option<String>)
        ensures
            opt_text(r) == self@.name,
    {
        copy_text(&self.name)
    }

    /// The team number, if known.
    pub fn team_number(&self) -> (r: Option<u32>)
        ensures
            r == self@.team_number,
    {
        self.team_number
    }

    /// Stores an answer into the setting it fills, unless that setting
    /// already holds a value, which is then kept.
    pub fn answer(&mut self, a: Answer)
        ensures
            final(self)@ == old(self)@.answered(a),
    {
        match a {
            Answer::Language(l) => {
                if self.language.is_none() {
                    self.language = Some(l);
                }
            },
            Answer::ProjectType(p) => {
                if self.project_type.is_none() {
                    self.project_type = Some(p);
                }
            },
            Answer::WpilibVersion(v) => {
                if self.wpilib_version.is_none() {
                    self.wpilib_version = Some(v);
                }
            },
            Answer::OutputPrefix { typed, home } => {
                if self.output_prefix.is_none() {
                    proof {
                        reveal_strlit("~");
                    }
                    let expanded = replace_all(typed.as_str(), "~", home.as_str());
                    self.output_prefix = Some(expanded);
                }
            },
            Answer::Name(n) => {
                if self.name.is_none() {
                    self.name = Some(n);
                }
            },
            Answer::TeamNumber(t) => {
                if self.team_number.is_none() {
                    self.team_number = Some(t);
                }
            },
        }
    }

    /// The question to ask next on the way to filling setting `f`, or none
    /// when `f` already holds a value.
    pub fn next_prompt(&self, f: Field) -> (r: Option<Prompt>)
        ensures
            match prompt_target(self@, f) {
                None => r is None,
                Some(t) => r matches Some(p) && prompt_describes(p, t, self@),
            },
    {
        if self.has(f) {
            return None;
        }
        let target = if f == Field::WpilibVersion && self.project_type.is_none() {
            Field::ProjectType
        } else {
            f
        };
        match target {
            Field::Language => Some(
                Prompt::SelectLanguage {
                    message: String::from_str("Language: "),
                    languages: Language::all_variants(),
                },
            ),
            Field::ProjectType => Some(
                Prompt::SelectProjectType {
                    message: String::from_str("Project Type: "),
                    project_types: ProjectType::all_variants(),
                },
            ),
            Field::WpilibVersion => {
                let p = self.project_type.unwrap();
                let mut message = p.to_string();
                message.append(" Version: ");
                Some(
                    Prompt::Text {
                        field: Field::WpilibVersion,
                        message,
                        help: Some(
                            String::from_str(
                                "This will match the corresponding WPILib version, e.g. 2025.3.2",
                            ),
                        ),
                    },
                )
            },
            Field::OutputPrefix => Some(
                Prompt::Text {
                    field: Field::OutputPrefix,
                    message: String::from_str("What directory should the project live under?"),
                    help: Some(
                        String::from_str(
                            "This is just the parent directory of your project, don't include the project name.",
                        ),
                    ),
                },
            ),
            Field::Name => Some(
                Prompt::Text {
                    field: Field::Name,
                    message: String::from_str("Project Name: "),
                    help: None,
                },
            ),
            Field::TeamNumber => Some(
                Prompt::TeamNumber {
                    message: String::from_str("Team Number: "),
                    error_message: String::from_str("Please type a valid integer greater than 0"),
                },
            ),
        }
    }
}

/// A setting that holds a value keeps it: answering again changes nothing.
pub proof fn law_filled_setting_is_kept(v: ConfigView, a: Answer)
    requires
        v.has(answer_field(a)),
    ensures
        v.answered(a) == v,
{
}

/// An empty setting takes the answer given for it, and afterwards holds
/// that value; every other setting is left as it was.
pub proof fn law_answer_is_read_back(v: ConfigView, a: Answer, g: Field)
    requires
        !v.has(answer_field(a)),
    ensures
        v.answered(a).has(answer_field(a)),
        a matches Answer::Language(l) ==> v.answered(a).language == Some(l),
        a matches Answer::ProjectType(p) ==> v.answered(a).project_type == Some(p),
        a matches Answer::WpilibVersion(s) ==> v.answered(a).wpilib_version == Some(s@),
        a matches Answer::OutputPrefix { typed, home } ==> v.answered(a).output_prefix == Some(
            expanded_prefix(typed@, home@),
        ),
        a matches Answer::Name(n) ==> v.answered(a).name == Some(n@),
        a matches Answer::TeamNumber(t) ==> v.answered(a).team_number == Some(t),
        g != answer_field(a) ==> (v.answered(a).has(g) == v.has(g)),
        answer_field(a) != Field::Language ==> v.answered(a).language == v.language,
        answer_field(a) != Field::ProjectType ==> v.answered(a).project_type == v.project_type,
        answer_field(a) != Field::WpilibVersion ==> v.answered(a).wpilib_version
            == v.wpilib_version,
        answer_field(a) != Field::OutputPrefix ==> v.answered(a).output_prefix == v.output_prefix,
        answer_field(a) != Field::Name ==> v.answered(a).name == v.name,
        answer_field(a) != Field::TeamNumber ==> v.answered(a).team_number == v.team_number,
{
}

/// A question is asked on the way to a setting exactly when that setting
/// holds no value, and it always asks for a setting that holds no value, so
/// that answering it fills one more setting.
pub proof fn law_prompt_only_when_absent(v: ConfigView, f: Field)
    ensures
        (prompt_target(v, f) is None) <==> v.has(f),
        prompt_target(v, f) matches Some(t) ==> !v.has(t),
        prompt_target(v, f) matches Some(t) ==> (t == f || (f == Field::WpilibVersion && t
            == Field::ProjectType)),
{
}

/// Answering the question asked on the way to a setting either fills the
/// setting or leaves the setting itself as the next question; answering
/// that one too fills it. No setting takes more than two answers.
pub proof fn law_prompts_fill_the_setting(v: ConfigView, f: Field, a1: Answer, a2: Answer)
    requires
        prompt_target(v, f) matches Some(t) && answer_field(a1) == t,
        answer_field(a2) == f,
    ensures
        v.answered(a1).has(f) || prompt_target(v.answered(a1), f) == Some(f),
        v.answered(a1).answered(a2).has(f),
{
}

} // verus!
