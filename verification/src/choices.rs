//! The two closed choices of a project: its language and its kind.
use vstd::prelude::*;

verus! {

/// Which language to use.
#[derive(Clone, Copy, Debug, PartialEq, Eq, Structural)]
pub enum Language {
    Java,
    Cpp,
}

/// Which type of project to initialize.
#[derive(Clone, Copy, Debug, PartialEq, Eq, Structural)]
pub enum ProjectType {
    Example,
    Template,
}

/// ASCII letters made lower case, every other character kept.
pub open spec fn ascii_lower(s: Seq<char>) -> Seq<char> {
    s.map_values(|c: char| if 'A' <= c && c <= 'Z' { ((c as int) + 32) as char } else { c })
}

/// The name under which a language is shown: the variant's name.
pub open spec fn language_name(l: Language) -> Seq<char> {
    match l {
        Language::Java => "Java"@,
        Language::Cpp => "Cpp"@,
    }
}

/// The name under which a project type is shown: the variant's name.
pub open spec fn project_type_name(p: ProjectType) -> Seq<char> {
    match p {
        ProjectType::Example => "Example"@,
        ProjectType::Template => "Template"@,
    }
}

/// The declared variants of `Language`, in declaration order.
pub open spec fn all_languages() -> Seq<Language> {
    seq![Language::Java, Language::Cpp]
}

/// The declared variants of `ProjectType`, in declaration order.
pub open spec fn all_project_types() -> Seq<ProjectType> {
    seq![ProjectType::Example, ProjectType::Template]
}

impl Language {
    /// Every variant, once each, in declaration order.
    pub fn all_variants() -> (v: Vec<Language>)
        ensures
            v@ == all_languages(),
    {
        let v = vec![Language::Java, Language::Cpp];
        assert(v@ =~= all_languages());
        v
    }

    /// The text under which the language is shown to the user.
    pub fn to_string(&self) -> (s: String)
        ensures
            s@ == language_name(*self),
    {
        match self {
            Language::Java => String::from_str("Java"),
            Language::Cpp => String::from_str("Cpp"),
        }
    }

    /// The shown name in lower case: the directory that holds the
    /// language's projects inside a fetched archive.
    pub fn lowercase_name(&self) -> (s: String)
        ensures
            s@ == ascii_lower(language_name(*self)),
    {
        match self {
            Language::Java => {
                proof {
                    reveal_strlit("Java");
                    reveal_strlit("java");
                    assert("java"@ =~= ascii_lower("Java"@));
                }
                String::from_str("java")
            },
            Language::Cpp => {
                proof {
                    reveal_strlit("Cpp");
                    reveal_strlit("cpp");
                    assert("cpp"@ =~= ascii_lower("Cpp"@));
                }
                String::from_str("cpp")
            },
        }
    }
}

impl ProjectType {
    /// Every variant, once each, in declaration order.
    pub fn all_variants() -> (v: Vec<ProjectType>)
        ensures
            v@ == all_project_types(),
    {
        let v = vec![ProjectType::Example, ProjectType::Template];
        assert(v@ =~= all_project_types());
        v
    }

    /// The text under which the project type is shown to the user.
    pub fn to_string(&self) -> (s: String)
        ensures
            s@ == project_type_name(*self),
    {
        match self {
            ProjectType::Example => String::from_str("Example"),
            ProjectType::Template => String::from_str("Template"),
        }
    }

    /// The shown name in lower case with an `s` appended: the name of the
    /// release archive that holds all projects of this type.
    pub fn archive_name(&self) -> (s: String)
        ensures
            s@ == ascii_lower(project_type_name(*self)) + seq!['s'],
    {
        match self {
            ProjectType::Example => {
                proof {
                    reveal_strlit("Example");
                    reveal_strlit("examples");
                    assert("examples"@ =~= ascii_lower("Example"@) + seq!['s']);
                }
                String::from_str("examples")
            },
            ProjectType::Template => {
                proof {
                    reveal_strlit("Template");
                    reveal_strlit("templates");
                    assert("templates"@ =~= ascii_lower("Template"@) + seq!['s']);
                }
                String::from_str("templates")
            },
        }
    }
}

/// Every language is listed by `all_variants`, exactly once.
pub proof fn lemma_all_languages_complete(l: Language)
    ensures
        all_languages().contains(l),
        all_languages().no_duplicates(),
{
    match l {
        Language::Java => assert(all_languages()[0] == l),
        Language::Cpp => assert(all_languages()[1] == l),
    }
}

/// Every project type is listed by `all_variants`, exactly once.
pub proof fn lemma_all_project_types_complete(p: ProjectType)
    ensures
        all_project_types().contains(p),
        all_project_types().no_duplicates(),
{
    match p {
        ProjectType::Example => assert(all_project_types()[0] == p),
        ProjectType::Template => assert(all_project_types()[1] == p),
    }
}

} // verus!
