pub mod context;
pub mod error;
pub mod filters;
pub mod licensedb;
pub mod render;
pub mod strutil;
pub mod toolchain;

use vstd::prelude::*;
use vstd::string::StrSliceExecFns;
use vstd::string::StringExecFns;
use vstd::utf8::is_ascii_chars;
use crate::context::CtxVal;
use crate::error::Error;
use crate::licensedb::LicenseDescriptor;
use crate::licensedb::SpdxEntry;
use crate::licensedb::lookup_license;
use crate::licensedb::spdx_lookup;
use crate::render::CiTemplate;
use crate::render::CiTemplateView;
use crate::render::ScaffoldOutput;
use crate::render::ScaffoldView;
use crate::render::TemplateRegistry;
use crate::render::spec_add_license;
use crate::render::spec_add_reuse;
use crate::render::spec_render_plan;
use crate::render::spec_context_value;
use crate::render::lemma_render_keeps_paths;
use crate::strutil::file_name_of;
use crate::strutil::file_name_str;
use crate::strutil::str_pairs_view;

verus! {

/// The mathematical value of a [`TemplateData`].
#[verifier::ext_equal]
pub struct TemplateDataView {
    pub license: Seq<char>,
    pub branch: Seq<char>,
    pub name: Seq<char>,
    pub project_path: Seq<char>,
}

/// The data every scaffold invocation starts from: the license
/// identifier, the git branch, the explicit project name (possibly
/// empty) and the resolved project path.
pub struct TemplateData {
    /// The license identifier; `MIT` unless overridden.
    pub license: String,
    /// The git branch; `main` unless overridden.
    pub branch: String,
    /// The explicit project name; empty unless overridden.
    pub name: String,
    /// The resolved project path.
    pub project_path: String,
}

impl View for TemplateData {
    type V = TemplateDataView;

    open spec fn view(&self) -> TemplateDataView {
        TemplateDataView {
            license: self.license@,
            branch: self.branch@,
            name: self.name@,
            project_path: self.project_path@,
        }
    }
}

impl TemplateData {
    /// Creates the default data for `project_path`: license `MIT`,
    /// branch `main`, no explicit name.
    pub fn new(project_path: &str) -> (d: TemplateData)
        ensures
            d@ == (TemplateDataView {
                license: "MIT"@,
                branch: "main"@,
                name: ""@,
                project_path: project_path@,
            }),
    {
        TemplateData {
            license: String::from_str("MIT"),
            branch: String::from_str("main"),
            name: String::from_str(""),
            project_path: String::from_str(project_path),
        }
    }

    /// Sets a new license.
    pub fn license(self, license: &str) -> (d: TemplateData)
        ensures
            d@ == (TemplateDataView { license: license@, ..self@ }),
    {
        TemplateData { license: String::from_str(license), ..self }
    }

    /// Sets a new branch.
    pub fn branch(self, branch: &str) -> (d: TemplateData)
        ensures
            d@ == (TemplateDataView { branch: branch@, ..self@ }),
    {
        TemplateData { branch: String::from_str(branch), ..self }
    }

    /// Sets a new project name.
    pub fn name(self, name: &str) -> (d: TemplateData)
        ensures
            d@ == (TemplateDataView { name: name@, ..self@ }),
    {
        TemplateData { name: String::from_str(name), ..self }
    }
}

/// Used to create a CI configuration for a project: the kind renders
/// its scheduled files and hands them back for the caller to write.
pub trait CreateCi {
    /// What this kind's CI scaffold is, as a function of the data.
    spec fn spec_create_ci(&self, data: TemplateDataView) -> Result<ScaffoldView, Error>;

    /// Creates a new CI configuration for a project.
    fn create_ci(&self, data: TemplateData) -> (r: Result<ScaffoldOutput, Error>)
        ensures
            (match r {
                Ok(out) => self.spec_create_ci(data@) == Ok::<ScaffoldView, Error>(out@),
                Err(e) => self.spec_create_ci(data@) == Err::<ScaffoldView, Error>(e),
            }),
    ;
}

/// Used to create a new project: the kind renders its whole project
/// scaffold and hands it back for the caller to write.
pub trait CreateProject {
    /// What this kind's project scaffold is, as a function of the data.
    spec fn spec_create_project(&self, data: TemplateDataView) -> Result<ScaffoldView, Error>;

    /// Creates a new project.
    fn create_project(&self, data: TemplateData) -> (r: Result<ScaffoldOutput, Error>)
        ensures
            (match r {
                Ok(out) => self.spec_create_project(data@) == Ok::<ScaffoldView, Error>(out@),
                Err(e) => self.spec_create_project(data@) == Err::<ScaffoldView, Error>(e),
            }),
    ;
}

/// The mathematical value of a [`ProjectOutput`].
#[verifier::ext_equal]
pub struct ProjectOutputView {
    pub files: Seq<(Seq<char>, Seq<char>)>,
    pub dirs: Seq<Seq<char>>,
    pub context: Seq<(Seq<char>, CtxVal)>,
}

/// A kind's build plan before enrichment: scheduled files, directories
/// and the initial context.
pub struct ProjectOutput {
    /// Output path and template name of every scheduled file.
    pub files: Vec<(String, String)>,
    /// Directories to create.
    pub dirs: Vec<String>,
    /// The initial render context.
    pub context: crate::context::RenderContext,
}

impl View for ProjectOutput {
    type V = ProjectOutputView;

    open spec fn view(&self) -> ProjectOutputView {
        ProjectOutputView {
            files: str_pairs_view(self.files@),
            dirs: self.dirs.deep_view(),
            context: self.context@,
        }
    }
}

/// Builds a template: a kind decides its file layout, its directories
/// and its initial context, and exposes its fixed template catalog.
pub trait BuildTemplate {
    /// The plan this kind produces for the given inputs.
    spec fn spec_define(
        &self,
        project_path: Seq<char>,
        project_name: Seq<char>,
        license: Seq<char>,
        branch: Seq<char>,
    ) -> Result<ProjectOutputView, Error>;

    /// The kind's fixed template catalog, in registration order.
    spec fn spec_templates(&self) -> Seq<(Seq<char>, Seq<char>)>;

    /// Decides the file layout and initial context for this kind.
    fn define(
        &self,
        project_path: &str,
        project_name: &str,
        license: &str,
        github_branch: &str,
    ) -> (r: Result<ProjectOutput, Error>)
        ensures
            (match r {
                Ok(p) => self.spec_define(project_path@, project_name@, license@, github_branch@)
                    == Ok::<ProjectOutputView, Error>(p@),
                Err(e) => self.spec_define(project_path@, project_name@, license@, github_branch@)
                    == Err::<ProjectOutputView, Error>(e),
            }),
    ;

    /// The fixed catalog of template bodies this kind may reference by
    /// name in its plan.
    fn get_templates(&self) -> (r: Vec<(String, String)>)
        ensures
            str_pairs_view(r@) == self.spec_templates(),
    ;

    /// Packages the kind's plan together with a registry built from
    /// its catalog.
    fn build(
        &self,
        project_path: &str,
        project_name: &str,
        license: &str,
        github_branch: &str,
    ) -> (r: Result<CiTemplate, Error>)
        ensures
            (match r {
                Ok(t) => self.spec_define(project_path@, project_name@, license@, github_branch@)
                    matches Ok(po) && t@ == (CiTemplateView {
                    context: po.context,
                    files: po.files,
                    dirs: po.dirs,
                    registry: self.spec_templates(),
                }),
                Err(e) => self.spec_define(project_path@, project_name@, license@, github_branch@)
                    == Err::<ProjectOutputView, Error>(e),
            }),
    {
        let t = match self.define(project_path, project_name, license, github_branch) {
            Ok(t) => t,
            Err(e) => {
                return Err(e);
            },
        };
        let registry = build_environment(self.get_templates());
        Ok(CiTemplate { context: t.context, files: t.files, dirs: t.dirs, registry })
    }
}

/// A registry holding every template of the given catalog, in order.
pub fn build_environment(templates: Vec<(String, String)>) -> (r: TemplateRegistry)
    ensures
        r@ == str_pairs_view(templates@),
{
    let mut registry = TemplateRegistry::new();
    let mut i: usize = 0;
    proof {
        assert(str_pairs_view(templates@.subrange(0, 0)) =~= Seq::<(Seq<char>, Seq<char>)>::empty());
    }
    while i < templates.len()
        invariant
            i <= templates.len(),
            registry@ == str_pairs_view(templates@.subrange(0, i as int)),
        decreases templates.len() - i,
    {
        registry.add(templates[i].0.clone(), templates[i].1.clone());
        proof {
            assert(str_pairs_view(templates@.subrange(0, i as int + 1)) =~= str_pairs_view(
                templates@.subrange(0, i as int),
            ).push((templates@[i as int].0@, templates@[i as int].1@)));
        }
        i += 1;
    }
    proof {
        assert(templates@.subrange(0, templates@.len() as int) =~= templates@);
    }
    registry
}

/// The resolved project name: the explicit name when it is non-empty
/// and pure ASCII, else the final component of the project path when
/// the path has one and it is pure ASCII, else an encoding failure.
pub open spec fn spec_define_name(project_name: Seq<char>, project_path: Seq<char>) -> Result<
    Seq<char>,
    Error,
> {
    if project_name.len() > 0 && is_ascii_chars(project_name) {
        Ok(project_name)
    } else {
        match file_name_of(project_path) {
            Some(c) => if is_ascii_chars(c) {
                Ok(c)
            } else {
                Err(Error::UTF8Check)
            },
            None => Err(Error::UTF8Check),
        }
    }
}

/// Retrieves the project name.
pub fn define_name(project_name: &str, project_path: &str) -> (r: Result<String, Error>)
    ensures
        (match r {
            Ok(n) => spec_define_name(project_name@, project_path@) == Ok::<Seq<char>, Error>(n@),
            Err(e) => spec_define_name(project_name@, project_path@) == Err::<Seq<char>, Error>(e),
        }),
{
    if !project_name.is_empty() && project_name.is_ascii() {
        Ok(project_name.to_owned())
    } else {
        match file_name_str(project_path) {
            Some(c) => {
                if c.as_str().is_ascii() {
                    Ok(c)
                } else {
                    Err(Error::UTF8Check)
                }
            },
            None => Err(Error::UTF8Check),
        }
    }
}

/// A non-empty pure-ASCII explicit name resolves to itself, whatever
/// the project path.
pub proof fn lemma_define_name_keeps_explicit(
    project_name: Seq<char>,
    path_a: Seq<char>,
    path_b: Seq<char>,
)
    requires
        project_name.len() > 0,
        is_ascii_chars(project_name),
    ensures
        spec_define_name(project_name, path_a) == Ok::<Seq<char>, Error>(project_name),
        spec_define_name(project_name, path_a) == spec_define_name(project_name, path_b),
{
}

/// An empty or non-ASCII explicit name resolves to the final path
/// component exactly when the path has one and it is pure ASCII, and
/// fails with an encoding error otherwise.
pub proof fn lemma_define_name_fallback(project_name: Seq<char>, project_path: Seq<char>)
    requires
        !(project_name.len() > 0 && is_ascii_chars(project_name)),
    ensures
        ({
            match file_name_of(project_path) {
                Some(c) => if is_ascii_chars(c) {
                    spec_define_name(project_name, project_path) == Ok::<Seq<char>, Error>(c)
                } else {
                    spec_define_name(project_name, project_path) == Err::<Seq<char>, Error>(
                        Error::UTF8Check,
                    )
                },
                None => spec_define_name(project_name, project_path) == Err::<Seq<char>, Error>(
                    Error::UTF8Check,
                ),
            }
        }),
{
}

/// The resolved license: an empty identifier is refused outright, an
/// identifier unknown to the license database is invalid, any other
/// resolves to its database entry.
pub open spec fn spec_define_license(license: Seq<char>) -> Result<SpdxEntry, Error> {
    if license.len() == 0 {
        Err(Error::NoLicense)
    } else {
        match spdx_lookup(license) {
            Some(entry) => Ok(entry),
            None => Err(Error::InvalidLicense),
        }
    }
}

/// Retrieves the license.
pub fn define_license(license: &str) -> (r: Result<LicenseDescriptor, Error>)
    ensures
        (match r {
            Ok(d) => spec_define_license(license@) == Ok::<SpdxEntry, Error>(d@),
            Err(e) => spec_define_license(license@) == Err::<SpdxEntry, Error>(e),
        }),
        (r matches Ok(d) ==> d.id@ == license@),
        license@ == "MIT"@ ==> r is Ok,
        license@ == "Apache-2.0"@ ==> r is Ok,
        license@ == "GPL-3.0"@ ==> r is Ok,
{
    proof {
        reveal_strlit("MIT");
        reveal_strlit("Apache-2.0");
        reveal_strlit("GPL-3.0");
    }
    if license.is_empty() {
        return Err(Error::NoLicense);
    }
    match lookup_license(license) {
        Some(d) => Ok(d),
        None => Err(Error::InvalidLicense),
    }
}

/// The whole composition step: REUSE enrichment, then license
/// enrichment, then rendering.
pub open spec fn spec_compute_template(t: CiTemplateView, lic: SpdxEntry, pp: Seq<char>) -> Result<
    ScaffoldView,
    Error,
> {
    spec_render_plan(spec_add_license(spec_add_reuse(t, lic, pp), lic, pp))
}

/// Computes a template: enriches the plan with the REUSE metadata and
/// the license, in that fixed order, and renders everything.
pub fn compute_template(
    template: CiTemplate,
    license: &LicenseDescriptor,
    project_path: &str,
) -> (r: Result<ScaffoldOutput, Error>)
    ensures
        (match r {
            Ok(out) => spec_compute_template(template@, license@, project_path@)
                == Ok::<ScaffoldView, Error>(out@),
            Err(e) => spec_compute_template(template@, license@, project_path@)
                == Err::<ScaffoldView, Error>(e),
        }),
{
    let mut template = template;
    template.add_reuse(license, project_path);
    template.add_license(license, project_path);
    template.render()
}

/// A successful composition always materializes the fixed layout: the
/// plan's own files keep their output paths, the REUSE metadata file
/// `.reuse/dep5` and the license file `LICENSES/<id>.txt` follow them
/// under the project root, and the directory list gains `.reuse` and
/// `LICENSES`, in that order.
pub proof fn lemma_output_layout(t: CiTemplateView, lic: SpdxEntry, pp: Seq<char>)
    requires
        spec_compute_template(t, lic, pp) is Ok,
    ensures
        ({
            let out = spec_compute_template(t, lic, pp)->Ok_0;
            &&& out.files.len() == t.files.len() + 2
            &&& forall|i: int|
                0 <= i < t.files.len() ==> (#[trigger] out.files[i]).0 == t.files[i].0
            &&& out.files[t.files.len() as int].0 == pp + "/.reuse"@ + "/dep5"@
            &&& out.files[t.files.len() as int + 1].0 == pp + "/LICENSES"@ + "/"@ + lic.id + ".txt"@
            &&& out.dirs == t.dirs.push(pp + "/.reuse"@).push(pp + "/LICENSES"@)
        }),
{
    let enriched = spec_add_license(spec_add_reuse(t, lic, pp), lic, pp);
    let cv = spec_context_value(enriched.context);
    lemma_render_keeps_paths(enriched.files, enriched.registry, cv);
    assert(enriched.files == t.files.push(
        (pp + "/.reuse"@ + "/dep5"@, "dep5.reuse"@),
    ).push((pp + "/LICENSES"@ + "/"@ + lic.id + ".txt"@, "build.license"@)));
    assert(enriched.files[t.files.len() as int].0 == pp + "/.reuse"@ + "/dep5"@);
    assert(enriched.files[t.files.len() as int + 1].0 == pp + "/LICENSES"@ + "/"@ + lic.id + ".txt"@);
}

/// The expanded form of a raw path: a leading `~` alone or followed by
/// a separator is replaced by the home directory, whose absence is an
/// error there; any other path is kept as it is.
pub open spec fn spec_expand_home(raw: Seq<char>, home: Option<Seq<char>>) -> Result<
    Seq<char>,
    Error,
> {
    if raw.len() > 0 && raw[0] == '~' && (raw.len() == 1 || raw[1] == '/' || raw[1] == '\\') {
        match home {
            Some(h) => Ok(h + raw.skip(1)),
            None => Err(Error::HomeDir),
        }
    } else {
        Ok(raw)
    }
}

/// Expands a leading home-directory shorthand in `raw` against the
/// caller-supplied home directory.
pub fn expand_home(raw: &str, home: Option<&str>) -> (r: Result<String, Error>)
    ensures
        (match r {
            Ok(p) => spec_expand_home(raw@, (match home {
                Some(h) => Some(h@),
                None => None,
            })) == Ok::<Seq<char>, Error>(p@),
            Err(e) => spec_expand_home(raw@, (match home {
                Some(h) => Some(h@),
                None => None,
            })) == Err::<Seq<char>, Error>(e),
        }),
{
    let n = raw.unicode_len();
    let tilde_start = n > 0 && raw.get_char(0) == '~' && (n == 1 || raw.get_char(1) == '/'
        || raw.get_char(1) == '\\');
    if !tilde_start {
        return Ok(raw.to_owned());
    }
    match home {
        None => Err(Error::HomeDir),
        Some(h) => {
            let rest = raw.substring_char(1, n);
            proof {
                assert(raw@.subrange(1, n as int) =~= raw@.skip(1));
            }
            Ok(String::from_str(h).concat(rest))
        },
    }
}

} // verus!
