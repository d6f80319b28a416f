//! The files that a configuration causes to be written, and the script that
//! is handed to the shell.

use vstd::prelude::*;
use vstd::string::*;
use crate::config::{Config, ConfigView, join_path, path_join};
use crate::template::{Template, resolved_template_name, spec_resolved_template_name};
use crate::text::{drop_first_line, lemma_drop_header, single_line, replace, replace_all, without_first_line};

verus! {

/// A file to be written whole, replacing what it held.
#[derive(Debug)]
pub struct FileWrite {
    pub path: String,
    pub content: String,
}

impl View for FileWrite {
    type V = (Seq<char>, Seq<char>);

    open spec fn view(&self) -> (Seq<char>, Seq<char>) {
        (self.path@, self.content@)
    }
}

/// An optional text as a sequence of characters.
pub open spec fn text_view(t: Option<&str>) -> Option<Seq<char>> {
    match t {
        Some(s) => Some(s@),
        None => None,
    }
}

/// An optional write as a (path, content) pair.
pub open spec fn write_view(w: Option<FileWrite>) -> Option<(Seq<char>, Seq<char>)> {
    match w {
        Some(f) => Some(f@),
        None => None,
    }
}

/// The build template text with the lexer file, grammar file and executable
/// names of the configuration put in for their placeholders.
pub open spec fn spec_render(t: Seq<char>, c: ConfigView) -> Seq<char> {
    replace_all(
        replace_all(replace_all(t, "{LEX_FILE}"@, c.lex_file), "{YACC_FILE}"@, c.yacc_file),
        "{EXEC_NAME}"@,
        c.resource_name,
    )
}

/// The built-in run script for Make: build, then pipe the input fixture
/// through the executable.
pub open spec fn make_run_default() -> Seq<char> {
    "#!/bin/bash\nmake\ncat {INPUT_NAME} | ./{EXEC_NAME} {INPUT_NAME}\n"@
}

/// The run script before substitution: for Make the custom template if one
/// was read, else the built-in default; empty for the other kinds.
pub open spec fn spec_run_script_content(c: ConfigView, custom: Option<Seq<char>>) -> Seq<char> {
    if c.build_template == Template::Make {
        match custom {
            Some(t) => t,
            None => make_run_default(),
        }
    } else {
        Seq::empty()
    }
}

/// The run script with the executable and input names put in.
pub open spec fn spec_run_script(c: ConfigView, custom: Option<Seq<char>>) -> Seq<char> {
    replace_all(
        replace_all(spec_run_script_content(c, custom), "{EXEC_NAME}"@, c.resource_name),
        "{INPUT_NAME}"@,
        c.run_options.input,
    )
}

/// The ignore list written to the resource directory.
pub open spec fn gitignore_template() -> Seq<char> {
    "\nlex.yy.c\ny.tab.c\ny.tab.h\nrun.sh\nbuild/*\n{EXEC_NAME}\n"@
}

/// Path and content of the ignore list.
pub open spec fn spec_gitignore(c: ConfigView) -> (Seq<char>, Seq<char>) {
    (
        join_path(c.resource_directory, ".gitignore"@),
        replace_all(gitignore_template(), "{EXEC_NAME}"@, c.resource_name),
    )
}

/// Path and content of the rendered build file.
pub open spec fn spec_build_file(c: ConfigView, t: Seq<char>) -> (Seq<char>, Seq<char>) {
    (
        join_path(c.resource_directory, spec_resolved_template_name(c.build_template)),
        spec_render(t, c),
    )
}

/// Path and content of the run script, unless running is suppressed.
pub open spec fn spec_run_file(c: ConfigView, custom: Option<Seq<char>>) -> Option<(Seq<char>, Seq<char>)> {
    if c.supress_run {
        None
    } else {
        Some((join_path(c.resource_directory, "run.sh"@), spec_run_script(c, custom)))
    }
}

/// The script handed to the shell: a new interpreter header, a change to the
/// resource directory, then the run script without its own first line.
pub open spec fn spec_runnable_script(dir: Seq<char>, script: Seq<char>) -> Seq<char> {
    "#!/bin/bash\ncd "@ + dir + "\n"@ + without_first_line(script)
}

/// Renders a build template for the configuration.
pub fn render_template(template_text: &str, config: &Config) -> (r: String)
    ensures
        r@ == spec_render(template_text@, config@),
{
    proof {
        reveal_strlit("{LEX_FILE}");
        reveal_strlit("{YACC_FILE}");
        reveal_strlit("{EXEC_NAME}");
    }
    let a = replace(template_text, "{LEX_FILE}", config.lex_file.as_str());
    let b = replace(a.as_str(), "{YACC_FILE}", config.yacc_file.as_str());
    replace(b.as_str(), "{EXEC_NAME}", config.resource_name.as_str())
}

/// The rendered build file of the configuration's kind, in the resource
/// directory.
pub fn prepare_template(config: &Config, template_text: &str) -> (r: FileWrite)
    ensures
        r@ == spec_build_file(config@, template_text@),
{
    let name = resolved_template_name(&config.build_template);
    FileWrite {
        path: path_join(config.resource_directory.as_str(), name.as_str()),
        content: render_template(template_text, config),
    }
}

/// The run script body before substitution; `custom` is the text of the
/// located run-script template, if one was located and read.
pub fn run_script_content(config: &Config, custom: Option<&str>) -> (r: String)
    ensures
        r@ == spec_run_script_content(config@, text_view(custom)),
{
    match config.build_template {
        Template::Make => match custom {
            Some(t) => String::from_str(t),
            None => String::from_str(
                "#!/bin/bash\nmake\ncat {INPUT_NAME} | ./{EXEC_NAME} {INPUT_NAME}\n",
            ),
        },
        _ => String::new(),
    }
}

/// The run script to write, or nothing when running is suppressed.
pub fn create_run_script(config: &Config, custom: Option<&str>) -> (r: Option<FileWrite>)
    ensures
        write_view(r) == spec_run_file(config@, text_view(custom)),
        r is None <==> config.supress_run,
{
    if config.supress_run {
        return None;
    }
    proof {
        reveal_strlit("{EXEC_NAME}");
        reveal_strlit("{INPUT_NAME}");
    }
    let body = run_script_content(config, custom);
    let a = replace(body.as_str(), "{EXEC_NAME}", config.resource_name.as_str());
    let content = replace(a.as_str(), "{INPUT_NAME}", config.run_options.input.as_str());
    Some(FileWrite { path: path_join(config.resource_directory.as_str(), "run.sh"), content })
}

/// The ignore list, with the executable name put in.
pub fn gitignore(config: &Config) -> (r: FileWrite)
    ensures
        r@ == spec_gitignore(config@),
{
    proof {
        reveal_strlit("{EXEC_NAME}");
    }
    let list = "\nlex.yy.c\ny.tab.c\ny.tab.h\nrun.sh\nbuild/*\n{EXEC_NAME}\n";
    FileWrite {
        path: path_join(config.resource_directory.as_str(), ".gitignore"),
        content: replace(list, "{EXEC_NAME}", config.resource_name.as_str()),
    }
}

/// The input fixture to create: a single newline, and only where none exists.
pub fn input_fixture(config: &Config, exists: bool) -> (r: Option<FileWrite>)
    ensures
        exists ==> r is None,
        !exists ==> (r matches Some(w) && w.path@ == config.run_options.input_path@ && w.content@
            == seq!['\n']),
{
    if exists {
        None
    } else {
        let nl = "\n";
        proof {
            reveal_strlit("\n");
            assert(nl@ =~= seq!['\n']);
        }
        Some(FileWrite { path: config.run_options.input_path.clone(), content: String::from_str(nl) })
    }
}

/// The script to hand to the shell for the run script text `script` of the
/// resource in `resource_directory`.
pub fn runnable_script(resource_directory: &str, script: &str) -> (r: String)
    ensures
        r@ == spec_runnable_script(resource_directory@, script@),
{
    let body = drop_first_line(script);
    let r = String::from_str("#!/bin/bash\ncd ").concat(resource_directory).concat("\n").concat(
        body.as_str(),
    );
    r
}

/// Every file that one run writes for a configuration, in order: the ignore
/// list, the build file, and the run script unless running is suppressed.
pub open spec fn spec_artifacts(c: ConfigView, t: Seq<char>, custom: Option<Seq<char>>) -> Seq<(Seq<char>, Seq<char>)> {
    seq![spec_gitignore(c), spec_build_file(c, t)] + match spec_run_file(c, custom) {
        Some(f) => seq![f],
        None => Seq::empty(),
    }
}

/// Collects the files that one run writes for a configuration.
pub fn artifacts(config: &Config, template_text: &str, custom: Option<&str>) -> (r: Vec<FileWrite>)
    ensures
        r@.map_values(|w: FileWrite| w@) == spec_artifacts(config@, template_text@, text_view(custom)),
{
    let mut r: Vec<FileWrite> = Vec::new();
    r.push(gitignore(config));
    r.push(prepare_template(config, template_text));
    match create_run_script(config, custom) {
        Some(w) => r.push(w),
        None => {},
    }
    assert(r@.map_values(|w: FileWrite| w@) =~= spec_artifacts(config@, template_text@, text_view(custom)));
    r
}

/// The contents of the files after `w` is written in order over `fs`; each
/// write replaces the whole file at its path.
pub open spec fn apply_writes(
    fs: Map<Seq<char>, Seq<char>>,
    w: Seq<(Seq<char>, Seq<char>)>,
) -> Map<Seq<char>, Seq<char>>
    decreases w.len(),
{
    if w.len() == 0 {
        fs
    } else {
        apply_writes(fs, w.drop_last()).insert(w.last().0, w.last().1)
    }
}

proof fn lemma_apply_over(fs: Map<Seq<char>, Seq<char>>, w: Seq<(Seq<char>, Seq<char>)>)
    ensures
        apply_writes(fs, w) == fs.union_prefer_right(apply_writes(Map::empty(), w)),
    decreases w.len(),
{
    if w.len() == 0 {
        assert(fs.union_prefer_right(Map::empty()) =~= fs);
    } else {
        lemma_apply_over(fs, w.drop_last());
        assert(apply_writes(fs, w) =~= fs.union_prefer_right(apply_writes(Map::empty(), w)));
    }
}

/// Writing the same files a second time leaves every file as one writing
/// left it: contents are replaced, never appended to.
pub proof fn lemma_writes_idempotent(fs: Map<Seq<char>, Seq<char>>, w: Seq<(Seq<char>, Seq<char>)>)
    ensures
        apply_writes(apply_writes(fs, w), w) == apply_writes(fs, w),
{
    lemma_apply_over(fs, w);
    lemma_apply_over(apply_writes(fs, w), w);
    let a = apply_writes(Map::empty(), w);
    assert(fs.union_prefer_right(a).union_prefer_right(a) =~= fs.union_prefer_right(a));
}

/// Running the pipeline twice with the same configuration and templates
/// leaves the same files as running it once.
pub proof fn lemma_rerun_overwrites(
    fs: Map<Seq<char>, Seq<char>>,
    c: ConfigView,
    t: Seq<char>,
    custom: Option<Seq<char>>,
)
    ensures
        apply_writes(apply_writes(fs, spec_artifacts(c, t, custom)), spec_artifacts(c, t, custom))
            == apply_writes(fs, spec_artifacts(c, t, custom)),
{
    lemma_writes_idempotent(fs, spec_artifacts(c, t, custom));
}

/// With Make and no custom run template the built-in default is rendered;
/// with running suppressed no run script is written.
pub proof fn lemma_default_run_script(c: ConfigView)
    ensures
        c.build_template == Template::Make && !c.supress_run ==> spec_run_file(c, None) == Some(
            (
                join_path(c.resource_directory, "run.sh"@),
                replace_all(
                    replace_all(make_run_default(), "{EXEC_NAME}"@, c.resource_name),
                    "{INPUT_NAME}"@,
                    c.run_options.input,
                ),
            ),
        ),
        forall|custom: Option<Seq<char>>| c.supress_run ==> #[trigger] spec_run_file(c, custom) is None,
{
}

/// The script handed to the shell for a header line and one body line is
/// the new header, the change of directory, and that body line alone.
pub proof fn lemma_runnable_replaces_header(dir: Seq<char>, h: Seq<char>, b: Seq<char>)
    requires
        single_line(h),
        single_line(b),
    ensures
        spec_runnable_script(dir, h + seq!['\n'] + b + seq!['\n']) == "#!/bin/bash\ncd "@ + dir
            + "\n"@ + b,
{
    lemma_drop_header(h, b);
}

} // verus!
