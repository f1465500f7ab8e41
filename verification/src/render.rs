use vstd::prelude::*;
use vstd::string::StringExecFns;
use crate::context::ContextValue;
use crate::context::CtxVal;
use crate::context::LeafVal;
use crate::context::LeafValue;
use crate::context::RenderContext;
use crate::context::ctx_find;
use crate::error::Error;
use crate::licensedb::LicenseDescriptor;
use crate::licensedb::SpdxEntry;
use crate::licensedb::license_body;
use crate::licensedb::license_body_lines;
use crate::licensedb::license_body_text;
use crate::strutil::join_with;
use crate::strutil::str_pairs_view;

verus! {

#[verifier::external_type_specification]
#[verifier::external_body]
pub struct ExValue(minijinja::value::Value);

/// What minijinja's `Value` makes of one string.
pub uninterp spec fn mj_str(s: Seq<char>) -> minijinja::value::Value;

/// What minijinja's `Value` makes of a sequence of strings.
pub uninterp spec fn mj_lines(lines: Seq<Seq<char>>) -> minijinja::value::Value;

/// What minijinja's `Value` makes of a string-keyed mapping of values.
pub uninterp spec fn mj_mapping(m: Map<Seq<char>, minijinja::value::Value>) -> minijinja::value::Value;

/// What minijinja makes of one template source rendered against one
/// context value, with this library's two filters installed: the
/// rendered text, or a failure for a malformed body or a body that
/// renders no text.
pub uninterp spec fn mj_render(src: Seq<char>, ctx: minijinja::value::Value) -> Result<Seq<char>, ()>;

/// Relies on minijinja's `Value::from` for `&str`.
#[verifier::external_body]
fn mj_from_str(s: &str) -> (v: minijinja::value::Value)
    ensures
        v == mj_str(s@),
{
    minijinja::value::Value::from(s)
}

/// Relies on minijinja's `Value::from_serialize` at `Vec<String>`.
#[verifier::external_body]
fn mj_from_lines(lines: &Vec<String>) -> (v: minijinja::value::Value)
    ensures
        v == mj_lines(lines.deep_view()),
{
    minijinja::value::Value::from_serialize(lines)
}

/// The mapping the pairs build up, a later pair overriding an earlier
/// one with the same key.
pub open spec fn pairs_mapping(ps: Seq<(String, minijinja::value::Value)>) -> Map<
    Seq<char>,
    minijinja::value::Value,
>
    decreases ps.len(),
{
    if ps.len() == 0 {
        Map::empty()
    } else {
        pairs_mapping(ps.drop_last()).insert(ps.last().0@, ps.last().1)
    }
}

/// Relies on minijinja's `Value::from_serialize` at an ordered map:
/// the `BTreeMap` fixes the iteration order, so the value depends only
/// on the key-to-value mapping the pairs build up.
#[verifier::external_body]
fn mj_from_pairs(pairs: Vec<(String, minijinja::value::Value)>) -> (v: minijinja::value::Value)
    ensures
        v == mj_mapping(pairs_mapping(pairs@)),
{
    let mut m: std::collections::BTreeMap<String, minijinja::value::Value> =
        std::collections::BTreeMap::new();
    for (key, val) in pairs {
        m.insert(key, val);
    }
    minijinja::value::Value::from_serialize(&m)
}

/// Relies on minijinja's `Environment`: one template body, compiled and
/// rendered against one context value, with the library's two filters
/// installed; both filters are pure, so the outcome depends only on the
/// source text and the context value.
#[verifier::external_body]
fn mj_render_template(src: &str, ctx: &minijinja::value::Value) -> (r: Result<String, Error>)
    ensures
        (r matches Ok(s) ==> mj_render(src@, *ctx) == Ok::<Seq<char>, ()>(s@)),
        (r matches Err(e) ==> mj_render(src@, *ctx) is Err && e == Error::RenderError),
{
    let mut env = minijinja::Environment::new();
    env.add_filter("comment_license", |v: String, c: String| crate::filters::comment_license(v.as_str(), c.as_str()));
    env.add_filter("hypens_to_underscores", |v: String| crate::filters::hypens_to_underscores(v.as_str()));
    if env.add_template("entry", src).is_err() {
        return Err(Error::RenderError);
    }
    match env.get_template("entry").and_then(|t| t.render(ctx)) {
        Ok(s) => Ok(s),
        Err(_) => Err(Error::RenderError),
    }
}

/// The value a leaf of the context renders as.
pub open spec fn leaf_mj(l: LeafVal) -> minijinja::value::Value {
    match l {
        LeafVal::Str(s) => mj_str(s),
        LeafVal::Lines(ls) => mj_lines(ls),
    }
}

/// The mapping a nested context entry builds up.
pub open spec fn nested_mapping(ps: Seq<(Seq<char>, LeafVal)>) -> Map<
    Seq<char>,
    minijinja::value::Value,
>
    decreases ps.len(),
{
    if ps.len() == 0 {
        Map::empty()
    } else {
        nested_mapping(ps.drop_last()).insert(ps.last().0, leaf_mj(ps.last().1))
    }
}

/// The value a top-level context entry renders as.
pub open spec fn ctx_mj(c: CtxVal) -> minijinja::value::Value {
    match c {
        CtxVal::Str(s) => mj_str(s),
        CtxVal::Lines(ls) => mj_lines(ls),
        CtxVal::Nested(ps) => mj_mapping(nested_mapping(ps)),
    }
}

/// The mapping the whole context builds up.
pub open spec fn context_mapping(entries: Seq<(Seq<char>, CtxVal)>) -> Map<
    Seq<char>,
    minijinja::value::Value,
>
    decreases entries.len(),
{
    if entries.len() == 0 {
        Map::empty()
    } else {
        context_mapping(entries.drop_last()).insert(
            entries.last().0,
            ctx_mj(entries.last().1),
        )
    }
}

/// The single value the whole context is handed to minijinja as.
pub open spec fn spec_context_value(entries: Seq<(Seq<char>, CtxVal)>) -> minijinja::value::Value {
    mj_mapping(context_mapping(entries))
}

fn leaf_to_value(l: &LeafValue) -> (v: minijinja::value::Value)
    ensures
        v == leaf_mj(l@),
{
    match l {
        LeafValue::Str(s) => mj_from_str(s.as_str()),
        LeafValue::Lines(ls) => mj_from_lines(ls),
    }
}

fn ctx_to_value(c: &ContextValue) -> (v: minijinja::value::Value)
    ensures
        v == ctx_mj(c@),
{
    match c {
        ContextValue::Str(s) => mj_from_str(s.as_str()),
        ContextValue::Lines(ls) => mj_from_lines(ls),
        ContextValue::Nested(ps) => {
            let ghost psv = ps@.map_values(|p: (String, LeafValue)| (p.0@, p.1@));
            let mut pairs: Vec<(String, minijinja::value::Value)> = Vec::new();
            let mut i: usize = 0;
            proof {
                assert(psv.subrange(0, 0) =~= Seq::<(Seq<char>, LeafVal)>::empty());
                assert(pairs@.subrange(0, 0) =~= Seq::<(String, minijinja::value::Value)>::empty());
            }
            while i < ps.len()
                invariant
                    i <= ps.len(),
                    psv == ps@.map_values(|p: (String, LeafValue)| (p.0@, p.1@)),
                    psv.len() == ps@.len(),
                    pairs_mapping(pairs@) == nested_mapping(psv.subrange(0, i as int)),
                decreases ps.len() - i,
            {
                let ghost old_pairs = pairs@;
                let val = leaf_to_value(&ps[i].1);
                pairs.push((ps[i].0.clone(), val));
                proof {
                    assert(pairs@.drop_last() =~= old_pairs);
                    assert(psv.subrange(0, i as int + 1).drop_last() =~= psv.subrange(0, i as int));
                    assert(psv.subrange(0, i as int + 1).last() == psv[i as int]);
                    assert(psv[i as int] == (ps@[i as int].0@, ps@[i as int].1@));
                }
                i += 1;
            }
            proof {
                assert(psv.subrange(0, ps@.len() as int) =~= psv);
            }
            mj_from_pairs(pairs)
        },
    }
}

/// The whole context as one minijinja value.
fn context_to_value(ctx: &RenderContext) -> (v: minijinja::value::Value)
    ensures
        v == spec_context_value(ctx@),
{
    let mut pairs: Vec<(String, minijinja::value::Value)> = Vec::new();
    let mut i: usize = 0;
    let n = ctx.len();
    proof {
        assert(ctx@.subrange(0, 0) =~= Seq::<(Seq<char>, CtxVal)>::empty());
    }
    while i < n
        invariant
            i <= n,
            n == ctx@.len(),
            pairs_mapping(pairs@) == context_mapping(ctx@.subrange(0, i as int)),
        decreases n - i,
    {
        let ghost old_pairs = pairs@;
        let entry = ctx.entry_at(i);
        let val = ctx_to_value(&entry.1);
        pairs.push((entry.0.clone(), val));
        proof {
            assert(pairs@.drop_last() =~= old_pairs);
            assert(ctx@.subrange(0, i as int + 1).drop_last() =~= ctx@.subrange(0, i as int));
            assert(ctx@.subrange(0, i as int + 1).last() == ctx@[i as int]);
        }
        i += 1;
    }
    proof {
        assert(ctx@.subrange(0, n as int) =~= ctx@);
    }
    mj_from_pairs(pairs)
}

/// The fixed template catalog of one composed engine invocation:
/// name-to-source pairs in registration order, a later registration of
/// the same name overriding an earlier one.
pub struct TemplateRegistry {
    entries: Vec<(String, String)>,
}

/// The source registered last under `name`, if any.
pub open spec fn reg_lookup(entries: Seq<(Seq<char>, Seq<char>)>, name: Seq<char>) -> Option<
    Seq<char>,
>
    decreases entries.len(),
{
    if entries.len() == 0 {
        None
    } else if entries.last().0 == name {
        Some(entries.last().1)
    } else {
        reg_lookup(entries.drop_last(), name)
    }
}

impl View for TemplateRegistry {
    type V = Seq<(Seq<char>, Seq<char>)>;

    closed spec fn view(&self) -> Seq<(Seq<char>, Seq<char>)> {
        str_pairs_view(self.entries@)
    }
}

impl TemplateRegistry {
    /// An empty registry.
    pub fn new() -> (r: TemplateRegistry)
        ensures
            r@ == Seq::<(Seq<char>, Seq<char>)>::empty(),
    {
        let r = TemplateRegistry { entries: Vec::new() };
        proof {
            assert(r@ =~= Seq::<(Seq<char>, Seq<char>)>::empty());
        }
        r
    }

    /// Registers `source` under `name`; a later registration wins.
    pub fn add(&mut self, name: String, source: String)
        ensures
            final(self)@ == old(self)@.push((name@, source@)),
    {
        let ghost old_entries = self.entries@;
        let ghost pair_view = (name@, source@);
        self.entries.push((name, source));
        proof {
            assert(self@ =~= str_pairs_view(old_entries).push(pair_view));
        }
    }

    /// The source registered last under `name`, if any.
    pub fn lookup(&self, name: &String) -> (r: Option<&String>)
        ensures
            (match r {
                Some(s) => reg_lookup(self@, name@) == Some(s@),
                None => reg_lookup(self@, name@) is None,
            }),
    {
        let mut j: usize = self.entries.len();
        proof {
            assert(self@.subrange(0, j as int) =~= self@);
        }
        while j > 0
            invariant
                j <= self.entries.len(),
                self@.len() == self.entries.len(),
                reg_lookup(self@, name@) == reg_lookup(self@.subrange(0, j as int), name@),
            decreases j,
        {
            let ghost prefix = self@.subrange(0, j as int);
            proof {
                assert(prefix.last() == self@[j - 1]);
                assert(self@[j - 1].0 == self.entries@[j - 1].0@);
                assert(prefix.drop_last() =~= self@.subrange(0, j as int - 1));
            }
            if self.entries[j - 1].0.eq(name) {
                return Some(&self.entries[j - 1].1);
            }
            j -= 1;
        }
        proof {
            assert(self@.subrange(0, 0) =~= Seq::<(Seq<char>, Seq<char>)>::empty());
        }
        None
    }
}

/// What one scaffold run asks the caller to materialize: the
/// directories to create, in order, then the files to write, each with
/// its full rendered content.
#[derive(Debug)]
pub struct ScaffoldOutput {
    /// Directories to create, in creation order.
    pub dirs: Vec<String>,
    /// Output path and rendered content of every scheduled file, in
    /// scheduling order.
    pub files: Vec<(String, String)>,
}

/// The mathematical value of a [`ScaffoldOutput`].
#[verifier::ext_equal]
pub struct ScaffoldView {
    pub dirs: Seq<Seq<char>>,
    pub files: Seq<(Seq<char>, Seq<char>)>,
}

impl View for ScaffoldOutput {
    type V = ScaffoldView;

    open spec fn view(&self) -> ScaffoldView {
        ScaffoldView { dirs: self.dirs.deep_view(), files: str_pairs_view(self.files@) }
    }
}

/// A build plan enriched with its registry: everything one render run
/// needs.
pub struct CiTemplate {
    /// The shared render context.
    pub context: RenderContext,
    /// Output path and template name of every scheduled file.
    pub files: Vec<(String, String)>,
    /// Directories to create before any file is written.
    pub dirs: Vec<String>,
    /// The template catalog for this run.
    pub registry: TemplateRegistry,
}

/// The mathematical value of a [`CiTemplate`].
#[verifier::ext_equal]
pub struct CiTemplateView {
    pub context: Seq<(Seq<char>, CtxVal)>,
    pub files: Seq<(Seq<char>, Seq<char>)>,
    pub dirs: Seq<Seq<char>>,
    pub registry: Seq<(Seq<char>, Seq<char>)>,
}

impl View for CiTemplate {
    type V = CiTemplateView;

    open spec fn view(&self) -> CiTemplateView {
        CiTemplateView {
            context: self.context@,
            files: str_pairs_view(self.files@),
            dirs: self.dirs.deep_view(),
            registry: self.registry@,
        }
    }
}

/// Renders each scheduled file in order against `cv`: the first
/// missing template name aborts with `TemplateNotFound`, the first
/// failed render with `RenderError`.
pub open spec fn spec_render_files(
    files: Seq<(Seq<char>, Seq<char>)>,
    registry: Seq<(Seq<char>, Seq<char>)>,
    cv: minijinja::value::Value,
) -> Result<Seq<(Seq<char>, Seq<char>)>, Error>
    decreases files.len(),
{
    if files.len() == 0 {
        Ok(Seq::empty())
    } else {
        match reg_lookup(registry, files[0].1) {
            None => Err(Error::TemplateNotFound),
            Some(src) => match mj_render(src, cv) {
                Result::Err(_) => Err(Error::RenderError),
                Result::Ok(content) => match spec_render_files(
                    files.drop_first(),
                    registry,
                    cv,
                ) {
                    Err(e) => Err(e),
                    Ok(rest) => Ok(seq![(files[0].0, content)] + rest),
                },
            },
        }
    }
}

/// The whole outcome of rendering a plan: its directories unchanged,
/// its files rendered in order.
pub open spec fn spec_render_plan(t: CiTemplateView) -> Result<ScaffoldView, Error> {
    match spec_render_files(t.files, t.registry, spec_context_value(t.context)) {
        Ok(files) => Ok(ScaffoldView { dirs: t.dirs, files }),
        Err(e) => Err(e),
    }
}

/// Prefixes rendered files onto the outcome of rendering the rest.
pub open spec fn rf_prepend(
    prefix: Seq<(Seq<char>, Seq<char>)>,
    r: Result<Seq<(Seq<char>, Seq<char>)>, Error>,
) -> Result<Seq<(Seq<char>, Seq<char>)>, Error> {
    match r {
        Ok(rest) => Ok(prefix + rest),
        Err(e) => Err(e),
    }
}

/// A successful render returns one file per scheduled file, at the
/// same position and under the same output path.
pub proof fn lemma_render_keeps_paths(
    files: Seq<(Seq<char>, Seq<char>)>,
    registry: Seq<(Seq<char>, Seq<char>)>,
    cv: minijinja::value::Value,
)
    requires
        spec_render_files(files, registry, cv) is Ok,
    ensures
        spec_render_files(files, registry, cv)->Ok_0.len() == files.len(),
        forall|i: int|
            0 <= i < files.len() ==> (#[trigger] spec_render_files(files, registry, cv)->Ok_0[i]).0
                == files[i].0,
    decreases files.len(),
{
    let out = spec_render_files(files, registry, cv)->Ok_0;
    if files.len() == 0 {
    } else {
        lemma_render_keeps_paths(files.drop_first(), registry, cv);
        let rest = spec_render_files(files.drop_first(), registry, cv)->Ok_0;
        assert forall|i: int| 0 <= i < files.len() implies (#[trigger] out[i]).0 == files[i].0 by {
            if i > 0 {
                assert(out[i] == rest[i - 1]);
                assert(files.drop_first()[i - 1] == files[i]);
            }
        }
    }
}

/// Rendering is deterministic: two plans with the same mathematical
/// value render to the same directories and the same file contents, so
/// rendering a plan a second time with identical inputs yields output
/// identical to the first run.
pub proof fn lemma_render_deterministic(t1: CiTemplateView, t2: CiTemplateView)
    requires
        t1 == t2,
    ensures
        spec_render_plan(t1) == spec_render_plan(t2),
{
}

impl CiTemplate {
    /// Renders every scheduled file against the shared context and
    /// hands back the directories and rendered contents, in order; the
    /// first missing template or failed render aborts the run.
    pub fn render(self) -> (r: Result<ScaffoldOutput, Error>)
        ensures
            (match r {
                Ok(out) => spec_render_plan(self@) == Ok::<ScaffoldView, Error>(out@),
                Err(e) => spec_render_plan(self@) == Err::<ScaffoldView, Error>(e),
            }),
    {
        let ghost filesv = str_pairs_view(self.files@);
        let ghost regv = self.registry@;
        let cv = context_to_value(&self.context);
        let mut outs: Vec<(String, String)> = Vec::new();
        let mut i: usize = 0;
        proof {
            assert(filesv.subrange(0, filesv.len() as int) =~= filesv);
            assert(str_pairs_view(outs@) =~= Seq::<(Seq<char>, Seq<char>)>::empty());
            match spec_render_files(filesv, regv, cv) {
                Ok(all) => {
                    assert(Seq::<(Seq<char>, Seq<char>)>::empty() + all =~= all);
                },
                Err(_) => {},
            }
        }
        while i < self.files.len()
            invariant
                i <= self.files.len(),
                filesv == str_pairs_view(self.files@),
                regv == self.registry@,
                cv == spec_context_value(self.context@),
                filesv.len() == self.files@.len(),
                spec_render_files(filesv, regv, cv) == rf_prepend(
                    str_pairs_view(outs@),
                    spec_render_files(
                        filesv.subrange(i as int, filesv.len() as int),
                        regv,
                        cv,
                    ),
                ),
            decreases self.files.len() - i,
        {
            let ghost rest = filesv.subrange(i as int, filesv.len() as int);
            proof {
                assert(rest[0] == filesv[i as int]);
                assert(filesv[i as int] == (self.files@[i as int].0@, self.files@[i as int].1@));
                assert(rest.drop_first() =~= filesv.subrange(i as int + 1, filesv.len() as int));
            }
            match self.registry.lookup(&self.files[i].1) {
                None => {
                    return Err(Error::TemplateNotFound);
                },
                Some(src) => {
                    match mj_render_template(src.as_str(), &cv) {
                        Err(e) => {
                            return Err(e);
                        },
                        Ok(content) => {
                            let ghost old_outs = outs@;
                            let path = self.files[i].0.clone();
                            outs.push((path, content));
                            proof {
                                assert(outs@.drop_last() =~= old_outs);
                                assert(str_pairs_view(outs@) =~= str_pairs_view(old_outs).push(
                                    (self.files@[i as int].0@, content@),
                                ));
                                let next = filesv.subrange(i as int + 1, filesv.len() as int);
                                match spec_render_files(next, regv, cv) {
                                    Ok(tail) => {
                                        assert(str_pairs_view(old_outs) + (seq![
                                            (filesv[i as int].0, content@),
                                        ] + tail) =~= str_pairs_view(outs@) + tail);
                                    },
                                    Err(_) => {},
                                }
                            }
                        },
                    }
                },
            }
            i += 1;
        }
        proof {
            assert(filesv.subrange(
                self.files@.len() as int,
                filesv.len() as int,
            ) =~= Seq::<(Seq<char>, Seq<char>)>::empty());
            match spec_render_files(filesv, regv, cv) {
                Ok(all) => {
                    assert(str_pairs_view(outs@) + Seq::<(Seq<char>, Seq<char>)>::empty()
                        =~= str_pairs_view(outs@));
                },
                Err(_) => {},
            }
        }
        let out = ScaffoldOutput { dirs: self.dirs, files: outs };
        Ok(out)
    }

    /// Schedules the license file and folds the license into the
    /// context: `LICENSES/<id>.txt` rendered from a synthetic template
    /// whose body is the stripped license text, plus a `license`
    /// context key holding the header, the stripped lines and the id.
    pub fn add_license(&mut self, license: &LicenseDescriptor, project_path: &str)
        ensures
            final(self)@ == spec_add_license(old(self)@, license@, project_path@),
    {
        let ghost old_view = self@;
        let dir = String::from_str(project_path).concat("/LICENSES");
        let file_path = dir.clone().concat("/").concat(license.id.as_str()).concat(".txt");
        let ghost old_files = self.files@;
        self.files.push((file_path, String::from_str("build.license")));
        let ghost old_dirs = self.dirs@;
        self.dirs.push(dir);
        let body_lines = license_body(license.full_text.as_str());
        let body = join_with(&body_lines, "\n");
        let mut entries: Vec<(String, LeafValue)> = Vec::new();
        entries.push((String::from_str("header"), LeafValue::Str(license.header.clone())));
        entries.push((String::from_str("text"), LeafValue::Lines(body_lines)));
        entries.push((String::from_str("id"), LeafValue::Str(license.id.clone())));
        proof {
            assert(entries@.map_values(|p: (String, LeafValue)| (p.0@, p.1@))
                =~= license_ctx_entries(license@));
        }
        self.context.insert(String::from_str("license"), ContextValue::Nested(entries));
        self.registry.add(String::from_str("build.license"), body);
        proof {
            assert(str_pairs_view(self.files@) =~= old_view.files.push(
                (
                    project_path@ + "/LICENSES"@ + "/"@ + license@.id + ".txt"@,
                    "build.license"@,
                ),
            ));
            assert(self.dirs.deep_view() =~= old_view.dirs.push(project_path@ + "/LICENSES"@));
            assert(self@ =~= spec_add_license(old_view, license@, project_path@));
        }
    }

    /// Schedules the REUSE metadata file and folds it into the context:
    /// `.reuse/dep5` rendered from the fixed REUSE template, plus a
    /// `reuse` context key holding the project name (when the kind
    /// bound a string under `name`) and the license id.
    pub fn add_reuse(&mut self, license: &LicenseDescriptor, project_path: &str)
        ensures
            final(self)@ == spec_add_reuse(old(self)@, license@, project_path@),
    {
        let ghost old_view = self@;
        let dir = String::from_str(project_path).concat("/.reuse");
        let file_path = dir.clone().concat("/dep5");
        self.files.push((file_path, String::from_str("dep5.reuse")));
        self.dirs.push(dir);
        let name_key = String::from_str("name");
        let mut entries: Vec<(String, LeafValue)> = Vec::new();
        match self.context.get(&name_key) {
            Some(ContextValue::Str(n)) => {
                let bound_name = n.clone();
                entries.push((String::from_str("name"), LeafValue::Str(bound_name)));
            },
            _ => {},
        }
        entries.push((String::from_str("id"), LeafValue::Str(license.id.clone())));
        proof {
            assert(entries@.map_values(|p: (String, LeafValue)| (p.0@, p.1@))
                =~= reuse_ctx_entries(ctx_find(old_view.context, "name"@), license@.id));
        }
        self.context.insert(String::from_str("reuse"), ContextValue::Nested(entries));
        self.registry.add(String::from_str("dep5.reuse"), String::from_str(reuse_template()));
        proof {
            assert(str_pairs_view(self.files@) =~= old_view.files.push(
                (project_path@ + "/.reuse"@ + "/dep5"@, "dep5.reuse"@),
            ));
            assert(self.dirs.deep_view() =~= old_view.dirs.push(project_path@ + "/.reuse"@));
            assert(self@ =~= spec_add_reuse(old_view, license@, project_path@));
        }
    }
}

/// The nested context entries the license enrichment binds.
pub open spec fn license_ctx_entries(lic: SpdxEntry) -> Seq<(Seq<char>, LeafVal)> {
    seq![
        ("header"@, LeafVal::Str(lic.header)),
        ("text"@, LeafVal::Lines(license_body_lines(lic.text))),
        ("id"@, LeafVal::Str(lic.id)),
    ]
}

/// The nested context entries the REUSE enrichment binds: the project
/// name when the context binds a string under `name`, and the id.
pub open spec fn reuse_ctx_entries(name_entry: Option<CtxVal>, id: Seq<char>) -> Seq<
    (Seq<char>, LeafVal),
> {
    match name_entry {
        Some(CtxVal::Str(n)) => seq![("name"@, LeafVal::Str(n)), ("id"@, LeafVal::Str(id))],
        _ => seq![("id"@, LeafVal::Str(id))],
    }
}

/// The plan after the license enrichment.
pub open spec fn spec_add_license(t: CiTemplateView, lic: SpdxEntry, pp: Seq<char>) -> CiTemplateView {
    CiTemplateView {
        context: t.context.push(("license"@, CtxVal::Nested(license_ctx_entries(lic)))),
        files: t.files.push((pp + "/LICENSES"@ + "/"@ + lic.id + ".txt"@, "build.license"@)),
        dirs: t.dirs.push(pp + "/LICENSES"@),
        registry: t.registry.push(("build.license"@, license_body_text(lic.text))),
    }
}

/// The plan after the REUSE enrichment.
pub open spec fn spec_add_reuse(t: CiTemplateView, lic: SpdxEntry, pp: Seq<char>) -> CiTemplateView {
    CiTemplateView {
        context: t.context.push(
            (
                "reuse"@,
                CtxVal::Nested(reuse_ctx_entries(ctx_find(t.context, "name"@), lic.id)),
            ),
        ),
        files: t.files.push((pp + "/.reuse"@ + "/dep5"@, "dep5.reuse"@)),
        dirs: t.dirs.push(pp + "/.reuse"@),
        registry: t.registry.push(("dep5.reuse"@, reuse_template_spec())),
    }
}

/// The two enrichment steps are independent: whichever of the REUSE
/// and the license step runs first, the `license` and the `reuse`
/// binding of the resulting context are each the same, with exactly
/// the content that step alone would bind.
pub proof fn lemma_enrichment_order_independent(t: CiTemplateView, lic: SpdxEntry, pp: Seq<char>)
    ensures
        ctx_find(spec_add_license(spec_add_reuse(t, lic, pp), lic, pp).context, "license"@)
            == Some(CtxVal::Nested(license_ctx_entries(lic))),
        ctx_find(spec_add_reuse(spec_add_license(t, lic, pp), lic, pp).context, "license"@)
            == Some(CtxVal::Nested(license_ctx_entries(lic))),
        ctx_find(spec_add_license(spec_add_reuse(t, lic, pp), lic, pp).context, "reuse"@)
            == Some(CtxVal::Nested(reuse_ctx_entries(ctx_find(t.context, "name"@), lic.id))),
        ctx_find(spec_add_reuse(spec_add_license(t, lic, pp), lic, pp).context, "reuse"@)
            == Some(CtxVal::Nested(reuse_ctx_entries(ctx_find(t.context, "name"@), lic.id))),
{
    reveal_strlit("license");
    reveal_strlit("reuse");
    reveal_strlit("name");
    assert("license"@.len() == 7);
    assert("reuse"@.len() == 5);
    assert("name"@.len() == 4);
    assert("license"@ != "reuse"@);
    assert("license"@ != "name"@);
    let lp = ("license"@, CtxVal::Nested(license_ctx_entries(lic)));
    let rp = ("reuse"@, CtxVal::Nested(reuse_ctx_entries(ctx_find(t.context, "name"@), lic.id)));
    let ctx_a = spec_add_license(spec_add_reuse(t, lic, pp), lic, pp).context;
    assert(ctx_a == t.context.push(rp).push(lp));
    assert(ctx_a.last() == lp);
    assert(ctx_find(ctx_a, "license"@) == Some(lp.1));
    assert(ctx_a.drop_last() =~= t.context.push(rp));
    assert(t.context.push(rp).last() == rp);
    assert(ctx_find(ctx_a, "reuse"@) == ctx_find(t.context.push(rp), "reuse"@));
    assert(ctx_find(t.context.push(rp), "reuse"@) == Some(rp.1));
    let lctx = spec_add_license(t, lic, pp).context;
    assert(lctx == t.context.push(lp));
    assert(lctx.last() == lp);
    assert(lctx.drop_last() =~= t.context);
    assert(ctx_find(lctx, "name"@) == ctx_find(t.context, "name"@));
    let rp_b = ("reuse"@, CtxVal::Nested(reuse_ctx_entries(ctx_find(lctx, "name"@), lic.id)));
    assert(rp_b == rp);
    let ctx_b = spec_add_reuse(spec_add_license(t, lic, pp), lic, pp).context;
    assert(ctx_b == lctx.push(rp_b));
    assert(ctx_b.last() == rp_b);
    assert(ctx_find(ctx_b, "reuse"@) == Some(rp.1));
    assert(ctx_b.drop_last() =~= lctx);
    assert(ctx_find(ctx_b, "license"@) == ctx_find(lctx, "license"@));
    assert(ctx_find(lctx, "license"@) == Some(lp.1));
}

/// The fixed REUSE metadata template, rendered to `.reuse/dep5`.
pub open spec fn reuse_template_spec() -> Seq<char> {
    "Format: https://www.debian.org/doc/packaging-manuals/copyright-format/1.0/\nUpstream-Name: {{ reuse.name }}\nSource: https://github.com/{{ reuse.name }}\n\nFiles: *\nCopyright: {{ reuse.name }} contributors\nLicense: {{ reuse.id }}\n"@
}

/// The fixed REUSE metadata template, rendered to `.reuse/dep5`.
pub fn reuse_template() -> (s: &'static str)
    ensures
        s@ == reuse_template_spec(),
{
    "Format: https://www.debian.org/doc/packaging-manuals/copyright-format/1.0/\nUpstream-Name: {{ reuse.name }}\nSource: https://github.com/{{ reuse.name }}\n\nFiles: *\nCopyright: {{ reuse.name }} contributors\nLicense: {{ reuse.id }}\n"
}

} // verus!
