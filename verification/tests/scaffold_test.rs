use sifis_generate::CreateCi;
use sifis_generate::CreateProject;
use sifis_generate::TemplateData;
use sifis_generate::compute_template;
use sifis_generate::context::ContextValue;
use sifis_generate::context::RenderContext;
use sifis_generate::define_license;
use sifis_generate::error::Error;
use sifis_generate::render::CiTemplate;
use sifis_generate::render::TemplateRegistry;
use sifis_generate::toolchain::Yarn;

fn demo_data() -> TemplateData {
    TemplateData::new("work/demo-app")
}

#[test]
fn yarn_scaffold_with_mit() {
    let kind = Yarn::create_ci();
    let out = CreateCi::create_ci(&kind, demo_data()).unwrap();
    let dirs: Vec<&str> = out.dirs.iter().map(|d| d.as_str()).collect();
    assert_eq!(
        dirs,
        vec![
            "work/demo-app",
            "work/demo-app/.github/workflows",
            "work/demo-app/.reuse",
            "work/demo-app/LICENSES",
        ],
    );
    let paths: Vec<&str> = out.files.iter().map(|f| f.0.as_str()).collect();
    assert_eq!(
        paths,
        vec![
            "work/demo-app/.gitlab-ci.yml",
            "work/demo-app/.github/workflows/demo-app.yml",
            "work/demo-app/.reuse/dep5",
            "work/demo-app/LICENSES/MIT.txt",
        ],
    );
    for (_, content) in &out.files {
        assert!(!content.contains("{{"));
        assert!(!content.is_empty());
    }
    let gitlab = &out.files[0].1;
    assert!(gitlab.contains("Continuous integration for demo-app"));
    let github = &out.files[1].1;
    assert!(github.contains("name: demo-app"));
    assert!(github.contains("demo_app:"));
    let dep5 = &out.files[2].1;
    assert!(dep5.contains("Upstream-Name: demo-app"));
    assert!(dep5.contains("License: MIT"));
    let mit = &out.files[3].1;
    assert!(mit.starts_with("Copyright (c)"));
    assert!(mit.contains("Permission is hereby granted"));
    assert!(!mit.contains("MIT License"));
    assert!(!mit.contains("\n\n"));
}

#[test]
fn rendering_twice_is_identical() {
    let kind = Yarn::create_ci();
    let first = CreateCi::create_ci(&kind, demo_data()).unwrap();
    let second = CreateCi::create_ci(&kind, demo_data()).unwrap();
    assert_eq!(first.dirs, second.dirs);
    assert_eq!(first.files, second.files);
}

#[test]
fn create_project_matches_create_ci() {
    let kind = Yarn::create_ci();
    let ci = CreateCi::create_ci(&kind, demo_data()).unwrap();
    let project = CreateProject::create_project(&kind, demo_data()).unwrap();
    assert_eq!(ci.dirs, project.dirs);
    assert_eq!(ci.files, project.files);
}

#[test]
fn unsupported_license_reports_invalid_license() {
    let kind = Yarn::create_ci();
    let data = demo_data().license("NOT-A-LICENSE");
    let err = CreateCi::create_ci(&kind, data).unwrap_err();
    assert_eq!(err, Error::InvalidLicense);
}

fn plan_with_name(name: &str) -> CiTemplate {
    let mut context = RenderContext::new();
    context.insert("name".to_string(), ContextValue::Str(name.to_string()));
    CiTemplate {
        context,
        files: Vec::new(),
        dirs: Vec::new(),
        registry: TemplateRegistry::new(),
    }
}

#[test]
fn enrichment_order_does_not_change_content() {
    let license = define_license("MIT").unwrap();
    let mut reuse_first = plan_with_name("demo");
    reuse_first.add_reuse(&license, "root");
    reuse_first.add_license(&license, "root");
    let mut license_first = plan_with_name("demo");
    license_first.add_license(&license, "root");
    license_first.add_reuse(&license, "root");
    let mut a: Vec<(String, String)> = reuse_first.render().unwrap().files;
    let mut b: Vec<(String, String)> = license_first.render().unwrap().files;
    a.sort();
    b.sort();
    assert_eq!(a, b);
    let dep5 = &a.iter().find(|f| f.0.ends_with("dep5")).unwrap().1;
    assert!(dep5.contains("Upstream-Name: demo"));
    assert!(dep5.contains("License: MIT"));
}

#[test]
fn enrichment_via_compute_template() {
    let license = define_license("MIT").unwrap();
    let out = compute_template(plan_with_name("demo"), &license, "root").unwrap();
    let dirs: Vec<&str> = out.dirs.iter().map(|d| d.as_str()).collect();
    assert_eq!(dirs, vec!["root/.reuse", "root/LICENSES"]);
    let paths: Vec<&str> = out.files.iter().map(|f| f.0.as_str()).collect();
    assert_eq!(paths, vec!["root/.reuse/dep5", "root/LICENSES/MIT.txt"]);
}

#[test]
fn missing_template_is_an_internal_error() {
    let mut plan = plan_with_name("demo");
    plan.files.push(("root/out.txt".to_string(), "missing".to_string()));
    let err = plan.render().unwrap_err();
    assert_eq!(err, Error::TemplateNotFound);
}

#[test]
fn malformed_template_is_a_render_error() {
    let mut plan = plan_with_name("demo");
    plan.registry.add("broken".to_string(), "{% endfor %}".to_string());
    plan.files.push(("root/out.txt".to_string(), "broken".to_string()));
    let err = plan.render().unwrap_err();
    assert_eq!(err, Error::RenderError);
}

#[test]
fn template_data_builder() {
    let d = TemplateData::new("p");
    assert_eq!(d.license, "MIT");
    assert_eq!(d.branch, "main");
    assert_eq!(d.name, "");
    assert_eq!(d.project_path, "p");
    let d = d.license("Apache-2.0").branch("master").name("n");
    assert_eq!(d.license, "Apache-2.0");
    assert_eq!(d.branch, "master");
    assert_eq!(d.name, "n");
    assert_eq!(d.project_path, "p");
}
