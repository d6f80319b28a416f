use std::collections::HashMap;
use yacc_gen::config::{get, layout, path_join, Args, Config, ConfigError, Probe};
use yacc_gen::pipeline::{
    artifacts, create_run_script, gitignore, input_fixture, prepare_template, render_template,
    run_script_content, runnable_script,
};
use yacc_gen::template::{
    resolve, resolved_template_name, template_file_name, template_kind, Policy, Resolution,
    Template,
};
use yacc_gen::text::{drop_first_line, replace};

fn args(name: &str) -> Args {
    Args {
        resource_name: name.to_string(),
        scan_directory: "resources".to_string(),
        output: "build".to_string(),
        build_only: false,
        make: false,
        cmake: false,
        conan: false,
        run_file: None,
    }
}

fn all_present() -> Probe {
    Probe {
        yacc_exists: true,
        lex_exists: true,
        local_run_template_exists: false,
        global_run_template_exists: false,
        local_template_exists: true,
        global_template_exists: false,
    }
}

fn config(name: &str) -> Config {
    get(&args(name), all_present()).unwrap()
}

#[test]
fn complete_resource_is_configured() {
    let c = config("foo");
    assert_eq!(c.resource_name, "foo");
    assert_eq!(c.yacc_file, "foo.y");
    assert_eq!(c.lex_file, "foo.l");
    assert_eq!(c.resource_directory, "resources/foo");
    assert_eq!(c.yacc_path, "resources/foo/foo.y");
    assert_eq!(c.lex_path, "resources/foo/foo.l");
    assert_eq!(c.output_directory, "resources/foo/build");
    assert_eq!(c.scan_directory, "resources");
    assert!(!c.supress_run);
    assert_eq!(c.run_options.input, "input.txt");
    assert_eq!(c.run_options.input_path, "resources/foo/input.txt");
    assert!(c.run_options.script_path.is_none());
    assert_eq!(c.build_template, Template::Make);
    assert_eq!(c.template_file_path, "resources/foo/Makefile.template");
}

#[test]
fn missing_grammar_or_lexer_is_incomplete() {
    let mut p = all_present();
    p.yacc_exists = false;
    assert_eq!(get(&args("foo"), p).unwrap_err(), ConfigError::IncompleteResource);
    let mut p = all_present();
    p.lex_exists = false;
    assert_eq!(get(&args("foo"), p).unwrap_err(), ConfigError::IncompleteResource);
}

#[test]
fn incomplete_resource_reported_before_flag_conflict() {
    let mut a = args("foo");
    a.make = true;
    a.conan = true;
    let mut p = all_present();
    p.lex_exists = false;
    assert_eq!(get(&a, p).unwrap_err(), ConfigError::IncompleteResource);
}

#[test]
fn resolve_prefers_local() {
    let local = "resources/foo/run.template".to_string();
    let global = "resources/run.template".to_string();
    match resolve(&local, false, &global, true, Policy::Optional) {
        Resolution::Found(p) => assert_eq!(p, global),
        other => panic!("unexpected {:?}", other),
    }
    match resolve(&local, true, &global, false, Policy::Optional) {
        Resolution::Found(p) => assert_eq!(p, local),
        other => panic!("unexpected {:?}", other),
    }
    match resolve(&local, true, &global, true, Policy::Required) {
        Resolution::Found(p) => assert_eq!(p, local),
        other => panic!("unexpected {:?}", other),
    }
    assert!(matches!(resolve(&local, false, &global, false, Policy::Optional), Resolution::UsingDefault));
    assert!(matches!(resolve(&local, false, &global, false, Policy::Required), Resolution::Missing));
}

#[test]
fn build_template_local_then_global() {
    let mut p = all_present();
    p.global_template_exists = true;
    assert_eq!(get(&args("foo"), p).unwrap().template_file_path, "resources/foo/Makefile.template");
    p.local_template_exists = false;
    assert_eq!(get(&args("foo"), p).unwrap().template_file_path, "Makefile.template");
    p.global_template_exists = false;
    assert_eq!(get(&args("foo"), p).unwrap_err(), ConfigError::TemplateNotFound(Template::Make));
}

#[test]
fn run_template_local_then_global() {
    let mut p = all_present();
    p.global_run_template_exists = true;
    assert_eq!(
        get(&args("foo"), p).unwrap().run_options.script_path,
        Some("resources/run.template".to_string())
    );
    p.local_run_template_exists = true;
    assert_eq!(
        get(&args("foo"), p).unwrap().run_options.script_path,
        Some("resources/foo/run.template".to_string())
    );
}

#[test]
fn template_flags_are_exclusive() {
    assert_eq!(template_kind(false, false, false), Some(Template::Make));
    assert_eq!(template_kind(true, false, false), Some(Template::Make));
    assert_eq!(template_kind(false, true, false), Some(Template::CMake));
    assert_eq!(template_kind(false, false, true), Some(Template::Conan));
    assert_eq!(template_kind(true, true, false), None);
    assert_eq!(template_kind(true, false, true), None);
    assert_eq!(template_kind(false, true, true), None);
    assert_eq!(template_kind(true, true, true), None);
    let mut a = args("foo");
    a.cmake = true;
    a.conan = true;
    assert_eq!(get(&a, all_present()).unwrap_err(), ConfigError::ConflictingTemplates);
}

#[test]
fn cmake_template_location() {
    let mut a = args("foo");
    a.cmake = true;
    let c = get(&a, all_present()).unwrap();
    assert_eq!(c.build_template, Template::CMake);
    assert_eq!(c.template_file_path, "resources/foo/CMakeLists.Template");
    let mut p = all_present();
    p.local_template_exists = false;
    a.cmake = false;
    a.conan = true;
    assert_eq!(get(&a, p).unwrap_err(), ConfigError::TemplateNotFound(Template::Conan));
}

#[test]
fn template_names() {
    assert_eq!(template_file_name(&Template::Make), "Makefile.template");
    assert_eq!(template_file_name(&Template::CMake), "CMakeLists.Template");
    assert_eq!(template_file_name(&Template::Conan), "conanfile.Template");
    assert_eq!(resolved_template_name(&Template::Make), "Makefile");
    assert_eq!(resolved_template_name(&Template::CMake), "CMakeLists.txt");
    assert_eq!(resolved_template_name(&Template::Conan), "conanfile.py");
}

#[test]
fn render_reserved_keys() {
    let c = config("foo");
    assert_eq!(render_template("{LEX_FILE} {YACC_FILE} {EXEC_NAME}", &c), "foo.l foo.y foo");
}

#[test]
fn render_leaves_unknown_placeholders() {
    let c = config("calc");
    assert_eq!(
        render_template("{OTHER} {EXEC_NAME}: {EXEC_NAME}.o {INPUT_NAME}", &c),
        "{OTHER} calc: calc.o {INPUT_NAME}"
    );
}

#[test]
fn prepare_template_targets_build_file() {
    let c = config("foo");
    let w = prepare_template(&c, "all: {EXEC_NAME}\n");
    assert_eq!(w.path, "resources/foo/Makefile");
    assert_eq!(w.content, "all: foo\n");
}

#[test]
fn default_run_script_for_make() {
    let c = config("foo");
    let w = create_run_script(&c, None).unwrap();
    assert_eq!(w.path, "resources/foo/run.sh");
    assert_eq!(w.content, "#!/bin/bash\nmake\ncat input.txt | ./foo input.txt\n");
}

#[test]
fn custom_run_script_and_input_name() {
    let mut a = args("foo");
    a.run_file = Some("case1.txt".to_string());
    let c = get(&a, all_present()).unwrap();
    assert_eq!(c.run_options.input_path, "resources/foo/case1.txt");
    let w = create_run_script(&c, Some("#!/bin/sh\n./{EXEC_NAME} < {INPUT_NAME}\n")).unwrap();
    assert_eq!(w.content, "#!/bin/sh\n./foo < case1.txt\n");
}

#[test]
fn suppressed_run_writes_no_script() {
    let mut a = args("foo");
    a.build_only = true;
    let c = get(&a, all_present()).unwrap();
    assert!(create_run_script(&c, None).is_none());
    assert_eq!(artifacts(&c, "x", None).len(), 2);
}

#[test]
fn other_kinds_have_empty_run_script() {
    let mut a = args("foo");
    a.conan = true;
    let c = get(&a, all_present()).unwrap();
    assert_eq!(run_script_content(&c, Some("echo custom")), "");
    assert_eq!(create_run_script(&c, None).unwrap().content, "");
}

#[test]
fn gitignore_names_executable() {
    let w = gitignore(&config("foo"));
    assert_eq!(w.path, "resources/foo/.gitignore");
    assert_eq!(w.content, "\nlex.yy.c\ny.tab.c\ny.tab.h\nrun.sh\nbuild/*\nfoo\n");
}

#[test]
fn rerun_overwrites() {
    let c = config("foo");
    let mut fs: HashMap<String, String> = HashMap::new();
    for w in artifacts(&c, "{EXEC_NAME}", None) {
        fs.insert(w.path, w.content);
    }
    let once = fs.clone();
    for w in artifacts(&c, "{EXEC_NAME}", None) {
        fs.insert(w.path, w.content);
    }
    assert_eq!(fs, once);
    assert_eq!(fs.len(), 3);
    assert_eq!(fs["resources/foo/Makefile"], "foo");
}

#[test]
fn executor_replaces_header() {
    assert_eq!(
        runnable_script("resources/foo", "#!/bin/sh\necho hi\n"),
        "#!/bin/bash\ncd resources/foo\necho hi"
    );
}

#[test]
fn drop_first_line_joins_lines() {
    assert_eq!(drop_first_line("#!/bin/bash\r\na\r\nb\n\nc"), "a\nb\n\nc");
    assert_eq!(drop_first_line("only one line"), "");
    assert_eq!(drop_first_line(""), "");
    assert_eq!(drop_first_line("h\na\rb\n"), "a\rb");
}

#[test]
fn fixture_created_only_when_missing() {
    let c = config("foo");
    let w = input_fixture(&c, false).unwrap();
    assert_eq!(w.path, "resources/foo/input.txt");
    assert_eq!(w.content, "\n");
    assert!(input_fixture(&c, true).is_none());
}

#[test]
fn replace_is_literal_and_left_to_right() {
    assert_eq!(replace("aaa", "aa", "b"), "ba");
    assert_eq!(replace("x{A}y{A}", "{A}", "{A}{A}"), "x{A}{A}y{A}{A}");
    assert_eq!(replace("", "k", "v"), "");
    assert_eq!(replace("héllo wörld", "ö", "o"), "héllo world");
}

#[test]
fn paths_join_with_one_slash() {
    assert_eq!(path_join("a", "b"), "a/b");
    assert_eq!(path_join("a/", "b"), "a/b");
    assert_eq!(path_join("", "b"), "b");
    assert_eq!(path_join("a", "/abs"), "/abs");
}

#[test]
fn layout_of_resource() {
    let mut a = args("calc");
    a.scan_directory = "res/".to_string();
    a.output = "out".to_string();
    let l = layout(&a);
    assert_eq!(l.resource_directory, "res/calc");
    assert_eq!(l.output_directory, "res/calc/out");
    assert_eq!(l.local_run_template, "res/calc/run.template");
    assert_eq!(l.global_run_template, "res/run.template");
    assert_eq!(l.input_path, "res/calc/input.txt");
}
