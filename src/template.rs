//! Build template kinds, their file names, and the local-over-global resolver.

use vstd::prelude::*;
use vstd::string::*;

verus! {

/// The build system a resource is generated for.
#[derive(PartialEq, Eq, Structural, Clone, Copy, Debug)]
pub enum Template {
    Make,
    CMake,
    Conan,
}

/// Name of the template source file for a kind.
pub open spec fn spec_template_file_name(t: Template) -> Seq<char> {
    match t {
        Template::Make => "Makefile.template"@,
        Template::CMake => "CMakeLists.Template"@,
        Template::Conan => "conanfile.Template"@,
    }
}

/// Name of the rendered build file for a kind.
pub open spec fn spec_resolved_template_name(t: Template) -> Seq<char> {
    match t {
        Template::Make => "Makefile"@,
        Template::CMake => "CMakeLists.txt"@,
        Template::Conan => "conanfile.py"@,
    }
}

/// The kind selected by the three flags: none selects Make, one selects
/// itself, two or more select nothing.
pub open spec fn template_kind_of(make: bool, cmake: bool, conan: bool) -> Option<Template> {
    if cmake && !make && !conan {
        Some(Template::CMake)
    } else if conan && !make && !cmake {
        Some(Template::Conan)
    } else if !cmake && !conan {
        Some(Template::Make)
    } else {
        None
    }
}

/// The template source file name of a kind.
pub fn template_file_name(template: &Template) -> (r: String)
    ensures
        r@ == spec_template_file_name(*template),
{
    match template {
        Template::Make => String::from_str("Makefile.template"),
        Template::CMake => String::from_str("CMakeLists.Template"),
        Template::Conan => String::from_str("conanfile.Template"),
    }
}

/// The rendered build file name of a kind.
pub fn resolved_template_name(template: &Template) -> (r: String)
    ensures
        r@ == spec_resolved_template_name(*template),
{
    match template {
        Template::Make => String::from_str("Makefile"),
        Template::CMake => String::from_str("CMakeLists.txt"),
        Template::Conan => String::from_str("conanfile.py"),
    }
}

/// Selects the build template kind from the mutually exclusive flags.
pub fn template_kind(make: bool, cmake: bool, conan: bool) -> (r: Option<Template>)
    ensures
        r == template_kind_of(make, cmake, conan),
        r is None <==> (make && cmake) || (make && conan) || (cmake && conan),
        (!make && !cmake && !conan) ==> r == Some(Template::Make),
{
    match (make, cmake, conan) {
        (false, false, false) => Some(Template::Make),
        (true, false, false) => Some(Template::Make),
        (false, true, false) => Some(Template::CMake),
        (false, false, true) => Some(Template::Conan),
        _ => None,
    }
}

/// What to do when neither candidate exists.
#[derive(PartialEq, Eq, Structural, Clone, Copy, Debug)]
pub enum Policy {
    /// The file must be found.
    Required,
    /// A built-in default stands in for the file.
    Optional,
}

/// Outcome of resolving a file among its candidates.
#[derive(Debug)]
pub enum Resolution {
    Found(String),
    UsingDefault,
    Missing,
}

/// The candidate that resolution picks: the local one if it exists, else
/// the global one if it exists, else none.
pub open spec fn pick(local: Seq<char>, local_exists: bool, global: Seq<char>, global_exists: bool) -> Option<Seq<char>> {
    if local_exists {
        Some(local)
    } else if global_exists {
        Some(global)
    } else {
        None
    }
}

/// Whether `r` is the resolution of the candidates under `policy`.
pub open spec fn resolves_as(
    r: &Resolution,
    local: Seq<char>,
    local_exists: bool,
    global: Seq<char>,
    global_exists: bool,
    policy: Policy,
) -> bool {
    match pick(local, local_exists, global, global_exists) {
        Some(p) => r matches Resolution::Found(f) && f@ == p,
        None => if policy == Policy::Required {
            r is Missing
        } else {
            r is UsingDefault
        },
    }
}

/// Resolves a file: the resource-local candidate takes precedence over the
/// global one; with neither, the policy decides between a missing file and
/// the built-in default.
pub fn resolve(
    local: &String,
    local_exists: bool,
    global: &String,
    global_exists: bool,
    policy: Policy,
) -> (r: Resolution)
    ensures
        resolves_as(&r, local@, local_exists, global@, global_exists, policy),
{
    if local_exists {
        Resolution::Found(local.clone())
    } else if global_exists {
        Resolution::Found(global.clone())
    } else {
        match policy {
            Policy::Required => Resolution::Missing,
            Policy::Optional => Resolution::UsingDefault,
        }
    }
}

/// A resource-local file always wins over a global one, whatever exists
/// globally; a global file is used only when no local one exists.
pub proof fn lemma_local_precedence(
    local: Seq<char>,
    global: Seq<char>,
    local_exists: bool,
    global_exists: bool,
)
    ensures
        local_exists ==> pick(local, local_exists, global, global_exists) == Some(local),
        !local_exists && global_exists ==> pick(local, local_exists, global, global_exists) == Some(global),
        !local_exists && !global_exists ==> pick(local, local_exists, global, global_exists) is None,
{
}

} // verus!
