//! Assembly of the configuration record from the command-line values and the
//! existence of the files it depends on.

use vstd::prelude::*;
use vstd::string::*;
use crate::template::{
    Policy, Resolution, Template, pick, resolve, spec_template_file_name, template_file_name,
    template_kind, template_kind_of,
};

verus! {

/// Fixed name of the run-script template, local or global.
pub open spec fn run_template_name() -> Seq<char> {
    "run.template"@
}

/// Input fixture used when none is named.
pub open spec fn default_input_name() -> Seq<char> {
    "input.txt"@
}

/// `base` joined with `name` by one `'/'`; an absolute `name` stands alone.
pub open spec fn join_path(base: Seq<char>, name: Seq<char>) -> Seq<char> {
    if name.len() > 0 && name[0] == '/' {
        name
    } else if base.len() == 0 {
        name
    } else if base.last() == '/' {
        base + name
    } else {
        base + seq!['/'] + name
    }
}

/// Joins a path and a name, as `join_path` states.
pub fn path_join(base: &str, name: &str) -> (r: String)
    ensures
        r@ == join_path(base@, name@),
{
    let nl = name.unicode_len();
    let bl = base.unicode_len();
    if nl > 0 && name.get_char(0) == '/' {
        return String::from_str(name);
    }
    if bl == 0 {
        return String::from_str(name);
    }
    let mut r = String::from_str(base);
    if base.get_char(bl - 1) != '/' {
        let sep = "/";
        proof {
            reveal_strlit("/");
            assert(sep@ =~= seq!['/']);
        }
        r.append(sep);
    }
    r.append(name);
    r
}

/// The values given on the command line.
#[derive(Debug)]
pub struct Args {
    pub resource_name: String,
    pub scan_directory: String,
    /// Output directory, relative to the resource directory.
    pub output: String,
    /// Build only: no run script is written or run.
    pub build_only: bool,
    pub make: bool,
    pub cmake: bool,
    pub conan: bool,
    /// The input fixture named by the `run` sub-mode, if it was given.
    pub run_file: Option<String>,
}

/// The command-line values as sequences of characters.
pub struct ArgsView {
    pub resource_name: Seq<char>,
    pub scan_directory: Seq<char>,
    pub output: Seq<char>,
    pub build_only: bool,
    pub make: bool,
    pub cmake: bool,
    pub conan: bool,
    pub run_file: Option<Seq<char>>,
}

impl View for Args {
    type V = ArgsView;

    open spec fn view(&self) -> ArgsView {
        ArgsView {
            resource_name: self.resource_name@,
            scan_directory: self.scan_directory@,
            output: self.output@,
            build_only: self.build_only,
            make: self.make,
            cmake: self.cmake,
            conan: self.conan,
            run_file: match self.run_file {
                Some(f) => Some(f@),
                None => None,
            },
        }
    }
}

/// Which of the files that configuration depends on exist. The two template
/// entries concern the kind that the flags select.
#[derive(PartialEq, Eq, Structural, Clone, Copy, Debug)]
pub struct Probe {
    pub yacc_exists: bool,
    pub lex_exists: bool,
    pub local_run_template_exists: bool,
    pub global_run_template_exists: bool,
    pub local_template_exists: bool,
    pub global_template_exists: bool,
}

/// Why a configuration cannot be assembled.
#[derive(PartialEq, Eq, Structural, Clone, Copy, Debug)]
pub enum ConfigError {
    /// The grammar or the lexer file is missing.
    IncompleteResource,
    /// More than one build template kind was selected.
    ConflictingTemplates,
    /// No build template of this kind exists locally or globally.
    TemplateNotFound(Template),
}

/// How the generated script is run: the input fixture's name and path, and
/// the custom run-script template, if one was located.
#[derive(Debug)]
pub struct RunOptions {
    pub input: String,
    pub input_path: String,
    pub script_path: Option<String>,
}

/// The run options as sequences of characters.
pub struct RunOptionsView {
    pub input: Seq<char>,
    pub input_path: Seq<char>,
    pub script_path: Option<Seq<char>>,
}

impl View for RunOptions {
    type V = RunOptionsView;

    open spec fn view(&self) -> RunOptionsView {
        RunOptionsView {
            input: self.input@,
            input_path: self.input_path@,
            script_path: match self.script_path {
                Some(p) => Some(p@),
                None => None,
            },
        }
    }
}

/// Everything one invocation needs, assembled once and then only read.
#[derive(Debug)]
pub struct Config {
    pub resource_name: String,
    pub yacc_file: String,
    pub lex_file: String,
    pub yacc_path: String,
    pub lex_path: String,
    pub scan_directory: String,
    pub output_directory: String,
    pub resource_directory: String,
    pub supress_run: bool,
    pub run_options: RunOptions,
    pub build_template: Template,
    pub template_file_path: String,
}

/// The configuration as sequences of characters.
pub struct ConfigView {
    pub resource_name: Seq<char>,
    pub yacc_file: Seq<char>,
    pub lex_file: Seq<char>,
    pub yacc_path: Seq<char>,
    pub lex_path: Seq<char>,
    pub scan_directory: Seq<char>,
    pub output_directory: Seq<char>,
    pub resource_directory: Seq<char>,
    pub supress_run: bool,
    pub run_options: RunOptionsView,
    pub build_template: Template,
    pub template_file_path: Seq<char>,
}

impl View for Config {
    type V = ConfigView;

    open spec fn view(&self) -> ConfigView {
        ConfigView {
            resource_name: self.resource_name@,
            yacc_file: self.yacc_file@,
            lex_file: self.lex_file@,
            yacc_path: self.yacc_path@,
            lex_path: self.lex_path@,
            scan_directory: self.scan_directory@,
            output_directory: self.output_directory@,
            resource_directory: self.resource_directory@,
            supress_run: self.supress_run,
            run_options: self.run_options@,
            build_template: self.build_template,
            template_file_path: self.template_file_path@,
        }
    }
}

/// Where the files of a resource are.
pub struct Layout {
    pub resource_directory: String,
    pub yacc_file: String,
    pub lex_file: String,
    pub yacc_path: String,
    pub lex_path: String,
    pub output_directory: String,
    pub local_run_template: String,
    pub global_run_template: String,
    pub input: String,
    pub input_path: String,
}

/// The directory that holds the resource's files.
pub open spec fn spec_resource_directory(a: ArgsView) -> Seq<char> {
    join_path(a.scan_directory, a.resource_name)
}

/// The input fixture's name: the one given, else the default.
pub open spec fn spec_input_name(a: ArgsView) -> Seq<char> {
    match a.run_file {
        Some(f) => f,
        None => default_input_name(),
    }
}

/// Whether `l` is the layout of the resource that `a` names.
pub open spec fn is_layout_of(l: &Layout, a: ArgsView) -> bool {
    let dir = spec_resource_directory(a);
    &&& l.resource_directory@ == dir
    &&& l.yacc_file@ == a.resource_name + ".y"@
    &&& l.lex_file@ == a.resource_name + ".l"@
    &&& l.yacc_path@ == join_path(dir, a.resource_name + ".y"@)
    &&& l.lex_path@ == join_path(dir, a.resource_name + ".l"@)
    &&& l.output_directory@ == join_path(dir, a.output)
    &&& l.local_run_template@ == join_path(dir, run_template_name())
    &&& l.global_run_template@ == join_path(a.scan_directory, run_template_name())
    &&& l.input@ == spec_input_name(a)
    &&& l.input_path@ == join_path(dir, spec_input_name(a))
}

/// Local and global candidates for the build template of a kind: the
/// resource directory, then the working directory.
pub open spec fn template_candidates(dir: Seq<char>, t: Template) -> (Seq<char>, Seq<char>) {
    (join_path(dir, spec_template_file_name(t)), spec_template_file_name(t))
}

/// The configuration that the arguments and the existing files determine,
/// or the first configuration error among: incomplete resource, conflicting
/// template flags, missing build template.
pub open spec fn spec_get(a: ArgsView, p: Probe) -> Result<ConfigView, ConfigError> {
    let dir = spec_resource_directory(a);
    if !(p.yacc_exists && p.lex_exists) {
        Err(ConfigError::IncompleteResource)
    } else {
        match template_kind_of(a.make, a.cmake, a.conan) {
            None => Err(ConfigError::ConflictingTemplates),
            Some(kind) => {
                let (local, global) = template_candidates(dir, kind);
                match pick(local, p.local_template_exists, global, p.global_template_exists) {
                    None => Err(ConfigError::TemplateNotFound(kind)),
                    Some(template_path) => Ok(
                        ConfigView {
                            resource_name: a.resource_name,
                            yacc_file: a.resource_name + ".y"@,
                            lex_file: a.resource_name + ".l"@,
                            yacc_path: join_path(dir, a.resource_name + ".y"@),
                            lex_path: join_path(dir, a.resource_name + ".l"@),
                            scan_directory: a.scan_directory,
                            output_directory: join_path(dir, a.output),
                            resource_directory: dir,
                            supress_run: a.build_only,
                            run_options: RunOptionsView {
                                input: spec_input_name(a),
                                input_path: join_path(dir, spec_input_name(a)),
                                script_path: pick(
                                    join_path(dir, run_template_name()),
                                    p.local_run_template_exists,
                                    join_path(a.scan_directory, run_template_name()),
                                    p.global_run_template_exists,
                                ),
                            },
                            build_template: kind,
                            template_file_path: template_path,
                        },
                    ),
                }
            },
        }
    }
}

/// Computes where the files of the resource that `args` names are.
pub fn layout(args: &Args) -> (r: Layout)
    ensures
        is_layout_of(&r, args@),
{
    let scan = args.scan_directory.as_str();
    let name = args.resource_name.as_str();
    let dir = path_join(scan, name);
    let yacc_file = args.resource_name.clone().concat(".y");
    let lex_file = args.resource_name.clone().concat(".l");
    let yacc_path = path_join(dir.as_str(), yacc_file.as_str());
    let lex_path = path_join(dir.as_str(), lex_file.as_str());
    let output_directory = path_join(dir.as_str(), args.output.as_str());
    let local_run_template = path_join(dir.as_str(), "run.template");
    let global_run_template = path_join(scan, "run.template");
    let input = match &args.run_file {
        Some(f) => f.clone(),
        None => String::from_str("input.txt"),
    };
    let input_path = path_join(dir.as_str(), input.as_str());
    Layout {
        resource_directory: dir,
        yacc_file,
        lex_file,
        yacc_path,
        lex_path,
        output_directory,
        local_run_template,
        global_run_template,
        input,
        input_path,
    }
}

/// Assembles the configuration: the grammar and lexer files must both exist,
/// at most one template kind may be selected (none selects Make), and the
/// build template is taken from the resource directory, else from the
/// working directory. The run-script template is taken from the resource
/// directory, else from the scan directory, and is otherwise absent.
pub fn get(args: &Args, probe: Probe) -> (r: Result<Config, ConfigError>)
    ensures
        match r {
            Ok(c) => spec_get(args@, probe) == Ok::<ConfigView, ConfigError>(c@),
            Err(e) => spec_get(args@, probe) == Err::<ConfigView, ConfigError>(e),
        },
{
    if !(probe.yacc_exists && probe.lex_exists) {
        return Err(ConfigError::IncompleteResource);
    }
    let kind = match template_kind(args.make, args.cmake, args.conan) {
        Some(k) => k,
        None => {
            return Err(ConfigError::ConflictingTemplates);
        },
    };
    let l = layout(args);
    let template_name = template_file_name(&kind);
    let local_template = path_join(l.resource_directory.as_str(), template_name.as_str());
    let template_file_path = match resolve(
        &local_template,
        probe.local_template_exists,
        &template_name,
        probe.global_template_exists,
        Policy::Required,
    ) {
        Resolution::Found(p) => p,
        _ => {
            return Err(ConfigError::TemplateNotFound(kind));
        },
    };
    let script_path = match resolve(
        &l.local_run_template,
        probe.local_run_template_exists,
        &l.global_run_template,
        probe.global_run_template_exists,
        Policy::Optional,
    ) {
        Resolution::Found(p) => Some(p),
        _ => None,
    };
    let c = Config {
        resource_name: args.resource_name.clone(),
        yacc_file: l.yacc_file,
        lex_file: l.lex_file,
        yacc_path: l.yacc_path,
        lex_path: l.lex_path,
        scan_directory: args.scan_directory.clone(),
        output_directory: l.output_directory,
        resource_directory: l.resource_directory,
        supress_run: args.build_only,
        run_options: RunOptions { input: l.input, input_path: l.input_path, script_path },
        build_template: kind,
        template_file_path,
    };
    assert(c@ == spec_get(args@, probe).unwrap());
    Ok(c)
}

/// A resource whose grammar and lexer files both exist is configured, as
/// long as the flags select one template kind and its template is found;
/// without either file it is refused as incomplete.
pub proof fn lemma_complete_resource(a: ArgsView, p: Probe)
    ensures
        p.yacc_exists && p.lex_exists && template_kind_of(a.make, a.cmake, a.conan) is Some && (
        p.local_template_exists || p.global_template_exists) ==> spec_get(a, p) is Ok,
        !(p.yacc_exists && p.lex_exists) ==> spec_get(a, p) == Err::<ConfigView, ConfigError>(
            ConfigError::IncompleteResource,
        ),
{
}

/// At most one template kind may be selected: two or more fail as
/// conflicting, none selects Make.
pub proof fn lemma_exclusive_template_flags(a: ArgsView, p: Probe)
    requires
        p.yacc_exists && p.lex_exists,
    ensures
        (a.make && a.cmake) || (a.make && a.conan) || (a.cmake && a.conan) ==> spec_get(a, p)
            == Err::<ConfigView, ConfigError>(ConfigError::ConflictingTemplates),
        !a.make && !a.cmake && !a.conan && (p.local_template_exists || p.global_template_exists)
            ==> (spec_get(a, p) matches Ok(c) && c.build_template == Template::Make),
        !a.make && !a.cmake && !a.conan && !(p.local_template_exists || p.global_template_exists)
            ==> spec_get(a, p) == Err::<ConfigView, ConfigError>(
            ConfigError::TemplateNotFound(Template::Make),
        ),
{
}

} // verus!
