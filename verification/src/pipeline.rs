//! The render pipeline: parse the discovered template set all-or-nothing,
//! record every template's render outcome best-effort, and decide the
//! process exit status from the collected outcomes.

use vstd::prelude::*;

use crate::paths::{joined_output_path, output_path_for};

verus! {

#[verifier::external_type_specification]
#[verifier::external_body]
pub struct ExTera(tera::Tera);

#[verifier::external_type_specification]
#[verifier::external_body]
pub struct ExTeraError(tera::Error);

/// One discovered template: its name (the path relative to the source
/// directory) and the text read from the file.
pub struct TemplateFile {
    pub name: String,
    pub content: String,
}

/// What a tera instance holds: for each template name, its source text.
pub uninterp spec fn tera_templates(t: tera::Tera) -> Map<Seq<char>, Seq<char>>;

/// Whether tera's parser accepts this source text as a template: parsing
/// is a function of the text alone.
pub uninterp spec fn template_parses(content: Seq<char>) -> bool;

/// Whether a set of parsed templates is sound as a whole: every
/// inheritance chain can be built and every referenced macro file is
/// loaded, a function of the name-to-source mapping alone.
pub uninterp spec fn template_set_coherent(m: Map<Seq<char>, Seq<char>>) -> bool;

/// Every content in the list parses as a template.
pub open spec fn all_templates_parse(ts: Seq<TemplateFile>) -> bool {
    forall|i: int| 0 <= i < ts.len() ==> template_parses(#[trigger] ts[i].content@)
}

/// The template store with nothing in it.
pub open spec fn no_templates() -> Map<Seq<char>, Seq<char>> {
    Map::empty()
}

/// The mapping a list of templates builds, a later name overriding an
/// earlier one.
pub open spec fn template_map(ts: Seq<TemplateFile>) -> Map<Seq<char>, Seq<char>>
    decreases ts.len(),
{
    if ts.len() == 0 {
        no_templates()
    } else {
        template_map(ts.drop_last()).insert(ts.last().name@, ts.last().content@)
    }
}

/// Relies on Tera::default: a fresh instance holds no templates.
#[verifier::external_body]
fn tera_empty() -> (t: tera::Tera)
    ensures
        tera_templates(t) == no_templates(),
{
    tera::Tera::default()
}

/// Relies on Tera::add_raw_templates: each pair's content is parsed, and on
/// success the instance holds the given templates besides what it already
/// held, a later name overriding an earlier one. The call succeeds exactly
/// when every content parses and the combined template set's inheritance
/// chains and macro files check out — both deterministic in the sources.
#[verifier::external_body]
fn tera_add_raw_templates(t: &mut tera::Tera, templates: &Vec<TemplateFile>) -> (r: Result<
    (),
    tera::Error,
>)
    ensures
        r is Ok ==> tera_templates(*final(t)) == tera_templates(*old(t)).union_prefer_right(
            template_map(templates@),
        ),
        r is Ok <==> (forall|i: int|
            0 <= i < templates@.len() ==> template_parses(#[trigger] templates@[i].content@))
            && template_set_coherent(
            tera_templates(*old(t)).union_prefer_right(template_map(templates@)),
        ),
{
    t.add_raw_templates(templates.iter().map(|tf| (tf.name.clone(), tf.content.clone())))
}

/// Relies on the Display implementation of tera::Error for the text shown
/// to the operator.
#[verifier::external_body]
fn tera_error_text(e: &tera::Error) -> (r: String) {
    e.to_string()
}

/// Parses the whole discovered template set, all or nothing: it succeeds
/// exactly when every content parses and the set as a whole is coherent,
/// and then the returned instance holds exactly the given templates; on
/// failure nothing is kept and tera's error text is handed back for the
/// report.
pub fn compile_template_set(templates: &Vec<TemplateFile>) -> (r: Result<tera::Tera, String>)
    ensures
        r matches Ok(t) ==> tera_templates(t) == template_map(templates@),
        r is Ok <==> all_templates_parse(templates@) && template_set_coherent(
            template_map(templates@),
        ),
{
    let mut t = tera_empty();
    proof {
        assert(no_templates().union_prefer_right(template_map(templates@)) =~= template_map(
            templates@,
        ));
    }
    match tera_add_raw_templates(&mut t, templates) {
        Ok(_) => Ok(t),
        Err(e) => Err(tera_error_text(&e)),
    }
}

/// The outcome of one template's render: its name, where its output goes,
/// and the rendered text or the error text.
pub struct RenderedTemplate {
    pub name: String,
    pub output_path: String,
    pub outcome: Result<String, String>,
}

/// Pairs every template with its render outcome, in order. Rendering
/// itself is outside work performed by the caller — tera's evaluator can
/// read the clock, the environment and a random source, and can panic on
/// pathological templates, so no contract over it is statable here — and
/// this function records what came back: one entry per template, whatever
/// each outcome was, carrying the template's name, its output path under
/// the destination, and the rendered text or the error text unchanged. A
/// failure on one template never drops another's record.
pub fn render_report(
    templates: &Vec<TemplateFile>,
    outcomes: &Vec<Result<String, String>>,
    destination: &str,
) -> (r: Vec<RenderedTemplate>)
    requires
        outcomes@.len() == templates@.len(),
    ensures
        r.len() == templates.len(),
        forall|i: int|
            0 <= i < r.len() ==> {
                &&& (#[trigger] r[i]).name@ == templates[i].name@
                &&& r[i].output_path@ == joined_output_path(destination@, templates[i].name@)
                &&& r[i].outcome == outcomes[i]
            },
{
    let mut out: Vec<RenderedTemplate> = Vec::new();
    let mut i: usize = 0;
    while i < templates.len()
        invariant
            0 <= i <= templates.len(),
            outcomes@.len() == templates@.len(),
            out.len() == i,
            forall|k: int|
                0 <= k < i ==> {
                    &&& (#[trigger] out[k]).name@ == templates[k].name@
                    &&& out[k].output_path@ == joined_output_path(destination@, templates[k].name@)
                    &&& out[k].outcome == outcomes[k]
                },
        decreases templates.len() - i,
    {
        let tf = &templates[i];
        let output_path = output_path_for(destination, tf.name.as_str());
        let outcome = match &outcomes[i] {
            Ok(s) => Ok(s.clone()),
            Err(e) => Err(e.clone()),
        };
        out.push(RenderedTemplate { name: tf.name.clone(), output_path, outcome });
        i = i + 1;
    }
    out
}

/// Every recorded step of the run succeeded.
pub open spec fn all_succeeded(outcomes: Seq<bool>) -> bool {
    forall|i: int| 0 <= i < outcomes.len() ==> outcomes[i]
}

/// The process exit status for a run with the given per-step outcomes:
/// zero exactly when every step succeeded, one otherwise.
pub fn exit_code(outcomes: &Vec<bool>) -> (r: i32)
    ensures
        r == 0 <==> all_succeeded(outcomes@),
        r == 0 || r == 1,
{
    let mut i: usize = 0;
    while i < outcomes.len()
        invariant
            0 <= i <= outcomes.len(),
            forall|k: int| 0 <= k < i ==> outcomes@[k],
        decreases outcomes.len() - i,
    {
        if !outcomes[i] {
            return 1;
        }
        i = i + 1;
    }
    0
}

/// Step one of the pipeline: the source path must exist and be a directory.
pub fn source_is_valid(exists: bool, is_dir: bool) -> (r: bool)
    ensures
        r == (exists && is_dir),
{
    exists && is_dir
}

/// What to do with the destination path before writing.
pub enum DestinationPlan {
    Create,
    UseExisting,
    Refuse,
}

/// Step four of the pipeline: a missing destination is created, an existing
/// directory is used as it is, an existing non-directory is refused.
pub fn destination_plan(exists: bool, is_dir: bool) -> (r: DestinationPlan)
    ensures
        !exists ==> r is Create,
        exists && is_dir ==> r is UseExisting,
        exists && !is_dir ==> r is Refuse,
{
    if !exists {
        DestinationPlan::Create
    } else if is_dir {
        DestinationPlan::UseExisting
    } else {
        DestinationPlan::Refuse
    }
}

} // verus!
