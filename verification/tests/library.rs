use robostart::cache::{
    get_cached_commands_vendordep, get_cached_gitignore, get_project_name,
    get_project_unzipped_path, get_project_zip_path, get_robostart_cache,
};
use robostart::choices::{Language, ProjectType};
use robostart::config::{Answer, CliParser, Config, Field, Prompt};
use robostart::fetcher::{downloads_to_make, fetch_plan};
use robostart::text::{chars_of, decimal, join_path, replace_all};
use robostart::unpack::{
    free_project_dir, install_plan, subtype_name, subtype_source_dir, team_number_text,
    update_preferences,
};

fn full_config() -> Config {
    Config::from_cli(CliParser {
        language: Some(Language::Java),
        project_type: Some(ProjectType::Template),
        wpilib_version: Some("2025.3.2".to_string()),
        output_prefix: Some("/home/team/robots".to_string()),
        name: Some("MyRobot".to_string()),
        team_number: Some(1234),
    })
}

#[test]
fn replace_all_replaces_every_occurrence() {
    assert_eq!(replace_all("~/a/~", "~", "/home/u"), "/home/u/a//home/u");
    assert_eq!(replace_all("no tilde", "~", "/home/u"), "no tilde");
    assert_eq!(replace_all("aaa", "aa", "b"), "ba");
    assert_eq!(replace_all("", "x", "y"), "");
    assert_eq!(replace_all("xyx", "xyx", ""), "");
}

#[test]
fn replace_all_agrees_with_std() {
    let cases = [
        ("abcabcab", "ab", "Z"),
        ("héllo wörld", "ö", "oe"),
        ("aaaa", "aa", "aa"),
        ("mississippi", "ss", "S"),
    ];
    for (s, p, r) in cases {
        assert_eq!(replace_all(s, p, r), s.replace(p, r));
    }
}

#[test]
fn decimal_renders_like_display() {
    assert_eq!(decimal(0), "0");
    assert_eq!(decimal(7), "7");
    assert_eq!(decimal(10), "10");
    assert_eq!(decimal(1234), "1234");
    assert_eq!(decimal(u32::MAX), "4294967295");
    for n in [1u32, 9, 99, 100, 65535, 1000000] {
        assert_eq!(decimal(n), n.to_string());
    }
}

#[test]
fn join_path_agrees_with_pathbuf() {
    assert_eq!(join_path("a", "b"), "a/b");
    assert_eq!(join_path("a/", "b"), "a/b");
    assert_eq!(join_path("", "b"), "b");
    assert_eq!(join_path("a", "/b"), "/b");
    assert_eq!(join_path("a", ""), "a/");
    for (b, r) in [("/x/y", "z/w"), ("/x/", ".wpilib/p.json"), ("rel", "/abs"), ("", "")] {
        let expected = std::path::Path::new(b).join(r);
        assert_eq!(join_path(b, r), expected.to_str().unwrap());
    }
}

#[test]
fn chars_of_lists_characters() {
    assert_eq!(chars_of("añb"), vec!['a', 'ñ', 'b']);
    assert_eq!(chars_of(""), Vec::<char>::new());
}

#[test]
fn language_names() {
    assert_eq!(Language::all_variants(), vec![Language::Java, Language::Cpp]);
    assert_eq!(Language::Java.to_string(), "Java");
    assert_eq!(Language::Cpp.to_string(), "Cpp");
    assert_eq!(Language::Java.lowercase_name(), "java");
    assert_eq!(Language::Cpp.lowercase_name(), "cpp");
    for l in Language::all_variants() {
        assert_eq!(l.to_string(), format!("{:?}", l));
        assert_eq!(l.lowercase_name(), l.to_string().to_lowercase());
    }
}

#[test]
fn project_type_names() {
    assert_eq!(ProjectType::all_variants(), vec![ProjectType::Example, ProjectType::Template]);
    assert_eq!(ProjectType::Example.to_string(), "Example");
    assert_eq!(ProjectType::Template.to_string(), "Template");
    assert_eq!(ProjectType::Example.archive_name(), "examples");
    assert_eq!(ProjectType::Template.archive_name(), "templates");
    for p in ProjectType::all_variants() {
        assert_eq!(p.to_string(), format!("{:?}", p));
    }
}

#[test]
fn new_config_is_empty_and_prompts_for_everything() {
    let c = Config::new();
    for f in [
        Field::Language,
        Field::ProjectType,
        Field::WpilibVersion,
        Field::OutputPrefix,
        Field::Name,
        Field::TeamNumber,
    ] {
        assert!(!c.has(f));
        assert!(c.next_prompt(f).is_some());
    }
    assert_eq!(c.language(), None);
    assert_eq!(c.wpilib_version(), None);
}

#[test]
fn prompts_carry_their_questions() {
    let c = Config::new();
    match c.next_prompt(Field::Language) {
        Some(Prompt::SelectLanguage { message, languages }) => {
            assert_eq!(message, "Language: ");
            assert_eq!(languages, vec![Language::Java, Language::Cpp]);
        },
        _ => panic!("expected the language question"),
    }
    match c.next_prompt(Field::ProjectType) {
        Some(Prompt::SelectProjectType { message, project_types }) => {
            assert_eq!(message, "Project Type: ");
            assert_eq!(project_types, vec![ProjectType::Example, ProjectType::Template]);
        },
        _ => panic!("expected the project type question"),
    }
    match c.next_prompt(Field::OutputPrefix) {
        Some(Prompt::Text { field, message, help }) => {
            assert_eq!(field, Field::OutputPrefix);
            assert_eq!(message, "What directory should the project live under?");
            assert_eq!(
                help.unwrap(),
                "This is just the parent directory of your project, don't include the project name."
            );
        },
        _ => panic!("expected the output directory question"),
    }
    match c.next_prompt(Field::Name) {
        Some(Prompt::Text { field, message, help }) => {
            assert_eq!(field, Field::Name);
            assert_eq!(message, "Project Name: ");
            assert!(help.is_none());
        },
        _ => panic!("expected the name question"),
    }
    match c.next_prompt(Field::TeamNumber) {
        Some(Prompt::TeamNumber { message, error_message }) => {
            assert_eq!(message, "Team Number: ");
            assert_eq!(error_message, "Please type a valid integer greater than 0");
        },
        _ => panic!("expected the team number question"),
    }
}

#[test]
fn version_question_needs_the_project_type_first() {
    let mut c = Config::new();
    assert!(matches!(c.next_prompt(Field::WpilibVersion), Some(Prompt::SelectProjectType { .. })));
    c.answer(Answer::ProjectType(ProjectType::Example));
    match c.next_prompt(Field::WpilibVersion) {
        Some(Prompt::Text { field, message, help }) => {
            assert_eq!(field, Field::WpilibVersion);
            assert_eq!(message, "Example Version: ");
            assert_eq!(
                help.unwrap(),
                "This will match the corresponding WPILib version, e.g. 2025.3.2"
            );
        },
        _ => panic!("expected the version question"),
    }
    c.answer(Answer::WpilibVersion("2025.3.2".to_string()));
    assert!(c.next_prompt(Field::WpilibVersion).is_none());
    assert_eq!(c.wpilib_version().unwrap(), "2025.3.2");
}

#[test]
fn answers_are_kept_once_given() {
    let mut c = Config::new();
    c.answer(Answer::Name("First".to_string()));
    c.answer(Answer::Name("Second".to_string()));
    assert_eq!(c.name().unwrap(), "First");
    c.answer(Answer::TeamNumber(254));
    c.answer(Answer::TeamNumber(1678));
    assert_eq!(c.team_number(), Some(254));
    c.answer(Answer::Language(Language::Cpp));
    c.answer(Answer::Language(Language::Java));
    assert_eq!(c.language(), Some(Language::Cpp));
    assert!(c.project_type().is_none());
}

#[test]
fn command_line_values_are_not_asked_for() {
    let mut c = full_config();
    assert!(c.next_prompt(Field::Language).is_none());
    assert!(c.next_prompt(Field::TeamNumber).is_none());
    c.answer(Answer::ProjectType(ProjectType::Example));
    assert_eq!(c.project_type(), Some(ProjectType::Template));
}

#[test]
fn output_prefix_expands_home() {
    let mut c = Config::new();
    c.answer(Answer::OutputPrefix {
        typed: "~/robots/~x".to_string(),
        home: "/home/team".to_string(),
    });
    assert_eq!(c.output_prefix().unwrap(), "/home/team/robots//home/teamx");
}

#[test]
fn cache_paths() {
    let c = full_config();
    assert_eq!(get_robostart_cache("/home/team"), "/home/team/.cache/robostart/");
    assert_eq!(get_project_name(&c).unwrap(), "2025.3.2-Template");
    assert_eq!(
        get_project_zip_path("/home/team", &c).unwrap(),
        "/home/team/.cache/robostart/2025.3.2-Template.zip"
    );
    assert_eq!(
        get_project_unzipped_path("/home/team", &c).unwrap(),
        "/home/team/.cache/robostart/2025.3.2-Template"
    );
    assert_eq!(
        get_cached_commands_vendordep("/home/team", &c).unwrap(),
        "/home/team/.cache/robostart/vendordeps/newcommands-2025.3.2.json"
    );
    assert_eq!(get_cached_gitignore("/home/team"), "/home/team/.cache/robostart/gitignore");
}

#[test]
fn cache_paths_report_the_missing_setting() {
    let mut c = Config::new();
    assert_eq!(get_project_name(&c).err(), Some(Field::WpilibVersion));
    assert_eq!(get_cached_commands_vendordep("/h", &c).err(), Some(Field::WpilibVersion));
    c.answer(Answer::WpilibVersion("2024.1.1".to_string()));
    assert_eq!(get_project_zip_path("/h", &c).err(), Some(Field::ProjectType));
    c.answer(Answer::ProjectType(ProjectType::Example));
    assert_eq!(get_project_name(&c).unwrap(), "2024.1.1-Example");
}

#[test]
fn archive_and_unpacked_directory_share_a_name() {
    let c = full_config();
    let zip = get_project_zip_path("/home/u", &c).unwrap();
    let dir = get_project_unzipped_path("/home/u", &c).unwrap();
    assert_eq!(zip, format!("{}.zip", dir));
}

#[test]
fn fetch_plan_urls_and_paths() {
    let c = full_config();
    let plan = fetch_plan("/home/team", &c).ok().unwrap();
    assert_eq!(plan.cache_dir, "/home/team/.cache/robostart/");
    assert_eq!(
        plan.project_zip.url,
        "https://github.com/wpilibsuite/vscode-wpilib/releases/download/v2025.3.2/templates.zip"
    );
    assert_eq!(plan.project_zip.path, "/home/team/.cache/robostart/2025.3.2-Template.zip");
    assert_eq!(
        plan.gitignore.url,
        "https://raw.githubusercontent.com/wpilibsuite/vscode-wpilib/refs/heads/main/vscode-wpilib/resources/gradle/shared/.gitignore"
    );
    assert_eq!(plan.gitignore.path, "/home/team/.cache/robostart/gitignore");
    assert_eq!(
        plan.commands_vendordep.url,
        "https://raw.githubusercontent.com/wpilibsuite/allwpilib/refs/tags/v2025.3.2/wpilibNewCommands/WPILibNewCommands.json"
    );
    assert_eq!(
        plan.commands_vendordep.path,
        "/home/team/.cache/robostart/vendordeps/newcommands-2025.3.2.json"
    );
}

#[test]
fn fetch_plan_examples_archive() {
    let mut c = Config::new();
    c.answer(Answer::ProjectType(ProjectType::Example));
    c.answer(Answer::WpilibVersion("2024.3.1".to_string()));
    let plan = fetch_plan("/h", &c).ok().unwrap();
    assert_eq!(
        plan.project_zip.url,
        "https://github.com/wpilibsuite/vscode-wpilib/releases/download/v2024.3.1/examples.zip"
    );
}

#[test]
fn fetch_plan_reports_the_missing_setting() {
    let mut c = Config::new();
    assert_eq!(fetch_plan("/h", &c).err(), Some(Field::ProjectType));
    c.answer(Answer::ProjectType(ProjectType::Example));
    assert_eq!(fetch_plan("/h", &c).err(), Some(Field::WpilibVersion));
}

#[test]
fn install_plan_steps() {
    let c = full_config();
    let plan = install_plan("/home/team", "/home/team/.cache/robostart/2025.3.2-Template", &c)
        .ok()
        .unwrap();
    assert_eq!(plan.output_prefix, "/home/team/robots");
    assert_eq!(plan.output_dir, "/home/team/robots/MyRobot");
    assert_eq!(plan.language, "java");
    assert_eq!(plan.source_dir, "/home/team/.cache/robostart/2025.3.2-Template");
    assert_eq!(
        plan.subtype_prefix,
        "/home/team/.cache/robostart/2025.3.2-Template/java/"
    );
    assert_eq!(plan.subtype_prompt, "Desired Template");
    assert_eq!(plan.preferences_path, "/home/team/robots/MyRobot/.wpilib/wpilib_preferences.json");
    assert_eq!(plan.team_number_text, "\"teamNumber\": 1234");
    assert_eq!(plan.gitignore_source, "/home/team/.cache/robostart/gitignore");
    assert_eq!(plan.gitignore_dest, "/home/team/robots/MyRobot/.gitignore");
    assert_eq!(
        plan.commands_source,
        "/home/team/.cache/robostart/vendordeps/newcommands-2025.3.2.json"
    );
    assert_eq!(plan.vendordep_dir, "/home/team/robots/MyRobot/vendordeps");
    assert_eq!(
        plan.vendordep_dest,
        "/home/team/robots/MyRobot/vendordeps/WPILibNewCommands.json"
    );
}

#[test]
fn install_plan_reads_the_language_directory() {
    let c = full_config();
    let plan = install_plan("/h", "/c", &c).ok().unwrap();
    assert_eq!(plan.subtype_prefix, "/c/java/");
    assert_eq!(subtype_source_dir(&plan, "arcade"), "/c/java/arcade/");
    let entry = std::path::Path::new(&plan.subtype_prefix).join("arcade");
    assert_eq!(subtype_name(&plan.subtype_prefix, entry.to_str().unwrap()), "arcade");
}

#[test]
fn install_plan_reports_the_missing_setting() {
    let mut c = Config::new();
    assert_eq!(install_plan("/h", "S", &c).err(), Some(Field::OutputPrefix));
    c.answer(Answer::OutputPrefix { typed: "/p".to_string(), home: "/h".to_string() });
    assert_eq!(install_plan("/h", "S", &c).err(), Some(Field::Name));
    c.answer(Answer::Name("n".to_string()));
    assert_eq!(install_plan("/h", "S", &c).err(), Some(Field::Language));
    c.answer(Answer::Language(Language::Cpp));
    assert_eq!(install_plan("/h", "S", &c).err(), Some(Field::ProjectType));
    c.answer(Answer::ProjectType(ProjectType::Example));
    assert_eq!(install_plan("/h", "S", &c).err(), Some(Field::TeamNumber));
    c.answer(Answer::TeamNumber(5));
    assert_eq!(install_plan("/h", "S", &c).err(), Some(Field::WpilibVersion));
    c.answer(Answer::WpilibVersion("2025.1.1".to_string()));
    let plan = install_plan("/h", "S", &c).ok().unwrap();
    assert_eq!(plan.output_dir, "/p/n");
    assert_eq!(plan.language, "cpp");
    assert_eq!(plan.subtype_prompt, "Desired Example");
}

#[test]
fn subtype_names_strip_the_prefix() {
    let prefix = "/c/2025-Template/java/";
    assert_eq!(subtype_name(prefix, "/c/2025-Template/java/gyro"), "gyro");
    assert_eq!(subtype_name(prefix, "elsewhere/gyro"), "elsewhere/gyro");
}

#[test]
fn preferences_get_the_team_number() {
    assert_eq!(team_number_text(0), "\"teamNumber\": 0");
    assert_eq!(team_number_text(9999), "\"teamNumber\": 9999");
    let text = "{\n  \"enableCppIntellisense\": false,\n  \"currentLanguage\": \"java\",\n  \"projectYear\": \"2025\",\n  \"teamNumber\": -1\n}\n";
    let updated = update_preferences(text, &team_number_text(1234));
    assert_eq!(
        updated,
        "{\n  \"enableCppIntellisense\": false,\n  \"currentLanguage\": \"java\",\n  \"projectYear\": \"2025\",\n  \"teamNumber\": 1234\n}\n"
    );
    let untouched = "{\"teamNumber\": 42}";
    assert_eq!(update_preferences(untouched, "\"teamNumber\": 7"), untouched);
}

#[test]
fn downloads_land_inside_the_cache() {
    let c = full_config();
    let plan = fetch_plan("/home/team", &c).ok().unwrap();
    assert!(plan.project_zip.path.starts_with(&plan.cache_dir));
    assert!(plan.gitignore.path.starts_with(&plan.cache_dir));
    assert!(plan.commands_vendordep.path.starts_with(&plan.cache_dir));
}

#[test]
fn settings_round_trip_through_the_command_line_form() {
    let c = full_config();
    let cli = c.to_cli();
    assert_eq!(cli.language, Some(Language::Java));
    assert_eq!(cli.project_type, Some(ProjectType::Template));
    assert_eq!(cli.wpilib_version.as_deref(), Some("2025.3.2"));
    assert_eq!(cli.output_prefix.as_deref(), Some("/home/team/robots"));
    assert_eq!(cli.name.as_deref(), Some("MyRobot"));
    assert_eq!(cli.team_number, Some(1234));
    let empty = Config::new().to_cli();
    assert!(empty.language.is_none() && empty.name.is_none() && empty.team_number.is_none());
}

#[test]
fn each_question_fills_its_setting() {
    let mut c = Config::new();
    let answers = [
        (Field::Language, Answer::Language(Language::Java)),
        (Field::ProjectType, Answer::ProjectType(ProjectType::Template)),
        (Field::WpilibVersion, Answer::WpilibVersion("2025.3.2".to_string())),
        (
            Field::OutputPrefix,
            Answer::OutputPrefix { typed: "~/r".to_string(), home: "/h".to_string() },
        ),
        (Field::Name, Answer::Name("Bot".to_string())),
        (Field::TeamNumber, Answer::TeamNumber(3)),
    ];
    for (field, answer) in answers {
        assert!(!c.has(field));
        c.answer(answer);
        assert!(c.has(field));
        assert!(c.next_prompt(field).is_none());
    }
    assert_eq!(c.output_prefix().unwrap(), "/h/r");
}

#[test]
fn only_missing_files_are_downloaded() {
    let plan = fetch_plan("/home/team", &full_config()).ok().unwrap();
    let all = downloads_to_make(&plan, false, false, false);
    assert_eq!(all.len(), 3);
    assert_eq!(all[0].path, plan.project_zip.path);
    assert_eq!(all[1].url, plan.gitignore.url);
    assert_eq!(all[2].path, plan.commands_vendordep.path);
    let some = downloads_to_make(&plan, true, false, true);
    assert_eq!(some.len(), 1);
    assert_eq!(some[0].path, plan.gitignore.path);
    assert!(downloads_to_make(&plan, true, true, true).is_empty());
}

#[test]
fn an_existing_project_directory_is_refused() {
    assert_eq!(free_project_dir("/out", "bot", false), Ok("/out/bot".to_string()));
    assert_eq!(free_project_dir("/out/", "bot", true), Err("/out/bot".to_string()));
}

#[test]
fn an_empty_prefix_removes_nothing() {
    assert_eq!(subtype_name("", "/c/java/gyro"), "/c/java/gyro");
    assert_eq!(subtype_name("", "/c/java/gyro"), "/c/java/gyro".replace("", ""));
}
