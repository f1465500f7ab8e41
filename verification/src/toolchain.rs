use vstd::prelude::*;
use vstd::string::StringExecFns;
use crate::BuildTemplate;
use crate::CreateCi;
use crate::CreateProject;
use crate::ProjectOutput;
use crate::ProjectOutputView;
use crate::TemplateData;
use crate::TemplateDataView;
use crate::compute_template;
use crate::context::ContextValue;
use crate::context::CtxVal;
use crate::context::RenderContext;
use crate::define_license;
use crate::define_name;
use crate::error::Error;
use crate::render::CiTemplateView;
use crate::render::ScaffoldOutput;
use crate::render::ScaffoldView;
use crate::spec_compute_template;
use crate::spec_define_license;
use crate::spec_define_name;
use crate::strutil::str_pairs_view;

verus! {

/// The GitLab pipeline template of the yarn kind.
pub open spec fn yarn_gitlab_spec() -> Seq<char> {
    "# Continuous integration for {{ name }}\n\nstages:\n  - test\n\ntest:\n  stage: test\n  script:\n    - yarn install\n    - yarn test\n"@
}

/// The GitLab pipeline template of the yarn kind.
pub fn yarn_gitlab_template() -> (s: &'static str)
    ensures
        s@ == yarn_gitlab_spec(),
{
    "# Continuous integration for {{ name }}\n\nstages:\n  - test\n\ntest:\n  stage: test\n  script:\n    - yarn install\n    - yarn test\n"
}

/// The GitHub workflow template of the yarn kind.
pub open spec fn yarn_github_spec() -> Seq<char> {
    "name: {{ name }}\n\non:\n  push:\n    branches:\n      - main\n\njobs:\n  {{ name|hypens_to_underscores }}:\n    runs-on: ubuntu-latest\n    steps:\n      - uses: actions/checkout@v4\n      - run: yarn install\n      - run: yarn test\n"@
}

/// The GitHub workflow template of the yarn kind.
pub fn yarn_github_template() -> (s: &'static str)
    ensures
        s@ == yarn_github_spec(),
{
    "name: {{ name }}\n\non:\n  push:\n    branches:\n      - main\n\njobs:\n  {{ name|hypens_to_underscores }}:\n    runs-on: ubuntu-latest\n    steps:\n      - uses: actions/checkout@v4\n      - run: yarn install\n      - run: yarn test\n"
}

/// The files the yarn kind schedules: a GitLab pipeline at the project
/// root and a GitHub workflow named after the project.
pub open spec fn yarn_files(pp: Seq<char>, name: Seq<char>) -> Seq<(Seq<char>, Seq<char>)> {
    seq![
        (pp + "/.gitlab-ci.yml"@, "ci.gitlab"@),
        (pp + "/.github/workflows"@ + "/"@ + name + ".yml"@, "ci.github"@),
    ]
}

/// The directories the yarn kind schedules.
pub open spec fn yarn_dirs(pp: Seq<char>) -> Seq<Seq<char>> {
    seq![pp, pp + "/.github/workflows"@]
}

/// The initial context of the yarn kind: the project name.
pub open spec fn yarn_context(name: Seq<char>) -> Seq<(Seq<char>, CtxVal)> {
    seq![("name"@, CtxVal::Str(name))]
}

/// The fixed template catalog of the yarn kind.
pub open spec fn yarn_templates() -> Seq<(Seq<char>, Seq<char>)> {
    seq![("ci.gitlab"@, yarn_gitlab_spec()), ("ci.github"@, yarn_github_spec())]
}

/// The yarn kind: continuous-integration scaffolding for a project
/// built with yarn.
pub struct Yarn;

impl Yarn {
    /// Creates the yarn kind for CI generation.
    pub fn create_ci() -> (y: Yarn) {
        Yarn
    }

    /// The kind's file layout: the scheduled template files and the
    /// directories they need.
    pub fn project_structure(project_path: &str, name: &str) -> (r: (
        Vec<(String, String)>,
        Vec<String>,
    ))
        ensures
            str_pairs_view(r.0@) == yarn_files(project_path@, name@),
            r.1.deep_view() == yarn_dirs(project_path@),
    {
        let root = String::from_str(project_path);
        let github = String::from_str(project_path).concat("/.github/workflows");
        let mut template_files: Vec<(String, String)> = Vec::new();
        template_files.push((root.clone().concat("/.gitlab-ci.yml"), String::from_str("ci.gitlab")));
        template_files.push(
            (github.clone().concat("/").concat(name).concat(".yml"), String::from_str("ci.github")),
        );
        let mut dirs: Vec<String> = Vec::new();
        dirs.push(root);
        dirs.push(github);
        proof {
            assert(str_pairs_view(template_files@) =~= yarn_files(project_path@, name@));
            assert(dirs.deep_view() =~= yarn_dirs(project_path@));
        }
        (template_files, dirs)
    }
}

impl BuildTemplate for Yarn {
    open spec fn spec_define(
        &self,
        project_path: Seq<char>,
        project_name: Seq<char>,
        license: Seq<char>,
        branch: Seq<char>,
    ) -> Result<ProjectOutputView, Error> {
        Ok(
            ProjectOutputView {
                files: yarn_files(project_path, project_name),
                dirs: yarn_dirs(project_path),
                context: yarn_context(project_name),
            },
        )
    }

    open spec fn spec_templates(&self) -> Seq<(Seq<char>, Seq<char>)> {
        yarn_templates()
    }

    fn define(
        &self,
        project_path: &str,
        project_name: &str,
        license: &str,
        github_branch: &str,
    ) -> (r: Result<ProjectOutput, Error>) {
        let mut context = RenderContext::new();
        context.insert(String::from_str("name"), ContextValue::Str(String::from_str(project_name)));
        proof {
            assert(context@ =~= yarn_context(project_name@));
        }
        let (files, dirs) = Yarn::project_structure(project_path, project_name);
        Ok(ProjectOutput { files, dirs, context })
    }

    fn get_templates(&self) -> (r: Vec<(String, String)>) {
        let mut templates: Vec<(String, String)> = Vec::new();
        templates.push(
            (String::from_str("ci.gitlab"), String::from_str(yarn_gitlab_template())),
        );
        templates.push(
            (String::from_str("ci.github"), String::from_str(yarn_github_template())),
        );
        proof {
            assert(str_pairs_view(templates@) =~= yarn_templates());
        }
        templates
    }
}

impl CreateCi for Yarn {
    open spec fn spec_create_ci(&self, data: TemplateDataView) -> Result<ScaffoldView, Error> {
        match spec_define_license(data.license) {
            Err(e) => Err(e),
            Ok(lic) => match spec_define_name(data.name, data.project_path) {
                Err(e) => Err(e),
                Ok(name) => spec_compute_template(
                    CiTemplateView {
                        context: yarn_context(name),
                        files: yarn_files(data.project_path, name),
                        dirs: yarn_dirs(data.project_path),
                        registry: yarn_templates(),
                    },
                    lic,
                    data.project_path,
                ),
            },
        }
    }

    fn create_ci(&self, data: TemplateData) -> (r: Result<ScaffoldOutput, Error>) {
        let license = match define_license(data.license.as_str()) {
            Ok(l) => l,
            Err(e) => {
                return Err(e);
            },
        };
        let name = match define_name(data.name.as_str(), data.project_path.as_str()) {
            Ok(n) => n,
            Err(e) => {
                return Err(e);
            },
        };
        let template = match self.build(
            data.project_path.as_str(),
            name.as_str(),
            data.license.as_str(),
            data.branch.as_str(),
        ) {
            Ok(t) => t,
            Err(e) => {
                return Err(e);
            },
        };
        compute_template(template, &license, data.project_path.as_str())
    }
}

impl CreateProject for Yarn {
    open spec fn spec_create_project(&self, data: TemplateDataView) -> Result<ScaffoldView, Error> {
        self.spec_create_ci(data)
    }

    fn create_project(&self, data: TemplateData) -> (r: Result<ScaffoldOutput, Error>) {
        CreateCi::create_ci(self, data)
    }
}

} // verus!
