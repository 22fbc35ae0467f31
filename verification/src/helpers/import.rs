use vstd::prelude::*;
use crate::helpers::category::{category_name_to_resolve, category_to_resolve};
use crate::parsed::{
    NewCategory, NewCategorySpec, NewTemplate, NewTemplateSpec, NewText, NewTextSpec,
    ParsedPayload, PayloadSpec, payloads_view,
};
use crate::payload::{
    ArgSpec, ArgsSpec, GetDataIn, QuerySpec, query_spec, select_where_equal, strings_view,
};

verus! {

/// What an import does with a title that is already there.
#[derive(Clone, Copy, PartialEq, Eq, Structural, Debug)]
pub enum ImportMode {
    KeepBoth,
    Replace,
}

/// The query for the ids of the rows of `table` with this title.
pub fn title_query(table: &str, title: &str) -> (q: GetDataIn)
    ensures
        q@ == query_spec(
            table@,
            ArgsSpec::Single(ArgSpec::XEqualY { x: "title"@, y: title@ }),
            seq!["id"@],
        ),
{
    let q = select_where_equal(table, "title", title, vec!["id".to_string()]);
    assert(strings_view(q.columns_to_read@) =~= seq!["id"@]);
    q
}

/// One thing an import does against the database, in order.
pub enum ImportStep {
    /// Delete every row of the table with this title.
    DeleteByTitle { table_name: String, title: String },
    /// Resolve the text's categories and insert it.
    InsertText(NewText),
    /// Resolve the template's categories and insert it.
    InsertTemplate(NewTemplate),
    /// Find or create this category.
    EnsureCategory { name: String, type_of_category: String },
}

pub enum StepSpec {
    DeleteByTitle { table: Seq<char>, title: Seq<char> },
    InsertText(NewTextSpec),
    InsertTemplate(NewTemplateSpec),
    EnsureCategory { name: Seq<char>, type_of_category: Seq<char> },
}

impl View for ImportStep {
    type V = StepSpec;

    open spec fn view(&self) -> StepSpec {
        match self {
            ImportStep::DeleteByTitle { table_name, title } => StepSpec::DeleteByTitle {
                table: table_name@,
                title: title@,
            },
            ImportStep::InsertText(t) => StepSpec::InsertText(t@),
            ImportStep::InsertTemplate(t) => StepSpec::InsertTemplate(t@),
            ImportStep::EnsureCategory { name, type_of_category } => StepSpec::EnsureCategory {
                name: name@,
                type_of_category: type_of_category@,
            },
        }
    }
}

pub open spec fn steps_view(v: Seq<ImportStep>) -> Seq<StepSpec> {
    v.map_values(|s: ImportStep| s@)
}

/// Each text is inserted, after the texts of the same title are deleted when replacing.
pub open spec fn text_steps(ts: Seq<NewTextSpec>, replace: bool) -> Seq<StepSpec>
    decreases ts.len(),
{
    if ts.len() == 0 {
        Seq::empty()
    } else {
        let t = ts.last();
        let del = if replace {
            seq![StepSpec::DeleteByTitle { table: "texts"@, title: t.title }]
        } else {
            Seq::empty()
        };
        text_steps(ts.drop_last(), replace) + del + seq![StepSpec::InsertText(t)]
    }
}

/// Each template is inserted, after the templates of the same title are deleted when replacing.
pub open spec fn template_steps(ts: Seq<NewTemplateSpec>, replace: bool) -> Seq<StepSpec>
    decreases ts.len(),
{
    if ts.len() == 0 {
        Seq::empty()
    } else {
        let t = ts.last();
        let del = if replace {
            seq![StepSpec::DeleteByTitle { table: "templates"@, title: t.title }]
        } else {
            Seq::empty()
        };
        template_steps(ts.drop_last(), replace) + del + seq![StepSpec::InsertTemplate(t)]
    }
}

/// Each category whose trimmed name is not empty is found or created under that name.
pub open spec fn category_steps(cs: Seq<NewCategorySpec>) -> Seq<StepSpec>
    decreases cs.len(),
{
    if cs.len() == 0 {
        Seq::empty()
    } else {
        let c = cs.last();
        let rest = category_steps(cs.drop_last());
        match category_name_to_resolve(c.name) {
            Some(n) => rest.push(
                StepSpec::EnsureCategory { name: n, type_of_category: c.type_of_category },
            ),
            None => rest,
        }
    }
}

pub open spec fn payload_steps(p: PayloadSpec, replace: bool) -> Seq<StepSpec> {
    match p {
        PayloadSpec::NewTexts(ts) => text_steps(ts, replace),
        PayloadSpec::NewTemplates(ts) => template_steps(ts, replace),
        PayloadSpec::NewCategories(cs) => category_steps(cs),
    }
}

/// The steps of an import: those of each block, block after block.
pub open spec fn plan_steps(ps: Seq<PayloadSpec>, replace: bool) -> Seq<StepSpec>
    decreases ps.len(),
{
    if ps.len() == 0 {
        Seq::empty()
    } else {
        plan_steps(ps.drop_last(), replace) + payload_steps(ps.last(), replace)
    }
}

/// How many texts, templates and categories one block counts as imported.
pub open spec fn payload_counts(p: PayloadSpec) -> (nat, nat, nat) {
    match p {
        PayloadSpec::NewTexts(ts) => (ts.len(), 0, 0),
        PayloadSpec::NewTemplates(ts) => (0, ts.len(), 0),
        PayloadSpec::NewCategories(cs) => (0, 0, category_steps(cs).len()),
    }
}

pub open spec fn plan_counts(ps: Seq<PayloadSpec>) -> (nat, nat, nat)
    decreases ps.len(),
{
    if ps.len() == 0 {
        (0, 0, 0)
    } else {
        let a = plan_counts(ps.drop_last());
        let b = payload_counts(ps.last());
        (a.0 + b.0, a.1 + b.1, a.2 + b.2)
    }
}

/// What an import will do, and what it reports once every step succeeded.
pub struct ImportPlan {
    pub steps: Vec<ImportStep>,
    pub texts: usize,
    pub templates: usize,
    pub categories: usize,
}

fn push_text_steps(steps: &mut Vec<ImportStep>, items: Vec<NewText>, replace: bool)
    ensures
        steps_view(final(steps)@) == steps_view(old(steps)@) + text_steps(
            items@.map_values(|t: NewText| t@),
            replace,
        ),
{
    let ghost start = steps_view(steps@);
    let ghost tv = items@.map_values(|t: NewText| t@);
    for nt in it: items
        invariant
            it.seq() == items@,
            tv == items@.map_values(|t: NewText| t@),
            steps_view(steps@) == start + text_steps(tv.take(it.index() as int), replace),
    {
        let ghost k = it.index() as int;
        let ghost before = steps_view(steps@);
        proof {
            assert(tv.take(k + 1).drop_last() =~= tv.take(k));
            assert(tv.take(k + 1).last() == nt@);
        }
        if replace {
            let title = nt.title.clone();
            steps.push(ImportStep::DeleteByTitle { table_name: "texts".to_string(), title });
        }
        steps.push(ImportStep::InsertText(nt));
        proof {
            let del = if replace {
                seq![StepSpec::DeleteByTitle { table: "texts"@, title: nt@.title }]
            } else {
                Seq::<StepSpec>::empty()
            };
            assert(steps_view(steps@) =~= before + del + seq![StepSpec::InsertText(nt@)]);
        }
    }
    proof {
        assert(tv.take(tv.len() as int) =~= tv);
    }
}

fn push_template_steps(steps: &mut Vec<ImportStep>, items: Vec<NewTemplate>, replace: bool)
    ensures
        steps_view(final(steps)@) == steps_view(old(steps)@) + template_steps(
            items@.map_values(|t: NewTemplate| t@),
            replace,
        ),
{
    let ghost start = steps_view(steps@);
    let ghost tv = items@.map_values(|t: NewTemplate| t@);
    for nt in it: items
        invariant
            it.seq() == items@,
            tv == items@.map_values(|t: NewTemplate| t@),
            steps_view(steps@) == start + template_steps(tv.take(it.index() as int), replace),
    {
        let ghost k = it.index() as int;
        let ghost before = steps_view(steps@);
        proof {
            assert(tv.take(k + 1).drop_last() =~= tv.take(k));
            assert(tv.take(k + 1).last() == nt@);
        }
        if replace {
            let title = nt.title.clone();
            steps.push(ImportStep::DeleteByTitle { table_name: "templates".to_string(), title });
        }
        steps.push(ImportStep::InsertTemplate(nt));
        proof {
            let del = if replace {
                seq![StepSpec::DeleteByTitle { table: "templates"@, title: nt@.title }]
            } else {
                Seq::<StepSpec>::empty()
            };
            assert(steps_view(steps@) =~= before + del + seq![StepSpec::InsertTemplate(nt@)]);
        }
    }
    proof {
        assert(tv.take(tv.len() as int) =~= tv);
    }
}

fn push_category_steps(steps: &mut Vec<ImportStep>, items: Vec<NewCategory>)
    ensures
        steps_view(final(steps)@) == steps_view(old(steps)@) + category_steps(
            items@.map_values(|c: NewCategory| c@),
        ),
{
    let ghost start = steps_view(steps@);
    let ghost cv = items@.map_values(|c: NewCategory| c@);
    for c in it: items
        invariant
            it.seq() == items@,
            cv == items@.map_values(|c: NewCategory| c@),
            steps_view(steps@) == start + category_steps(cv.take(it.index() as int)),
    {
        let ghost k = it.index() as int;
        let ghost before = steps_view(steps@);
        proof {
            assert(cv.take(k + 1).drop_last() =~= cv.take(k));
            assert(cv.take(k + 1).last() == c@);
        }
        match category_to_resolve(c.name.as_str()) {
            Some(name) => {
                let step = ImportStep::EnsureCategory {
                    name: name.to_string(),
                    type_of_category: c.type_of_category.clone(),
                };
                steps.push(step);
                assert(steps_view(steps@) =~= before.push(
                    StepSpec::EnsureCategory { name: name@, type_of_category: c@.type_of_category },
                ));
            },
            None => {},
        }
    }
    proof {
        assert(cv.take(cv.len() as int) =~= cv);
    }
}

/// The plan of an import: its steps, run in one all-or-nothing transaction,
/// and the counts it reports when they all succeed.
pub fn import_plan(payloads: Vec<ParsedPayload>, mode: ImportMode) -> (plan: ImportPlan)
    ensures
        steps_view(plan.steps@) == plan_steps(payloads_view(payloads@), mode == ImportMode::Replace),
        (plan.texts as nat, plan.templates as nat, plan.categories as nat) == plan_counts(
            payloads_view(payloads@),
        ),
{
    let replace = mode == ImportMode::Replace;
    let ghost pv = payloads_view(payloads@);
    let mut steps: Vec<ImportStep> = Vec::new();
    let mut texts: usize = 0;
    let mut templates: usize = 0;
    let mut categories: usize = 0;
    for p in it: payloads
        invariant
            it.seq() == payloads@,
            pv == payloads_view(payloads@),
            replace == (mode == ImportMode::Replace),
            steps_view(steps@) == plan_steps(pv.take(it.index() as int), replace),
            (texts as nat, templates as nat, categories as nat) == plan_counts(
                pv.take(it.index() as int),
            ),
            texts + templates + categories <= steps@.len(),
    {
        let ghost k = it.index() as int;
        proof {
            assert(pv.take(k + 1).drop_last() =~= pv.take(k));
            assert(pv.take(k + 1).last() == p@);
        }
        let before_len = steps.len();
        let ghost before_view = steps_view(steps@);
        assert(before_view.len() == before_len);
        match p {
            ParsedPayload::NewTexts(items) => {
                let n = items.len();
                let ghost tv = items@.map_values(|t: NewText| t@);
                push_text_steps(&mut steps, items, replace);
                proof {
                    lemma_text_steps_len(tv, replace);
                    assert(steps_view(steps@).len() == steps@.len());
                }
                let after_len = steps.len();
                assert(texts + templates + categories + n <= after_len);
                texts = texts + n;
            },
            ParsedPayload::NewTemplates(items) => {
                let n = items.len();
                let ghost tv = items@.map_values(|t: NewTemplate| t@);
                push_template_steps(&mut steps, items, replace);
                proof {
                    lemma_template_steps_len(tv, replace);
                    assert(steps_view(steps@).len() == steps@.len());
                }
                let after_len = steps.len();
                assert(texts + templates + categories + n <= after_len);
                templates = templates + n;
            },
            ParsedPayload::NewCategories(items) => {
                let ghost cv = items@.map_values(|c: NewCategory| c@);
                push_category_steps(&mut steps, items);
                assert(steps_view(steps@).len() == steps@.len());
                let after_len = steps.len();
                let added = after_len - before_len;
                assert(added == category_steps(cv).len());
                categories = categories + added;
            },
        }
    }
    proof {
        assert(pv.take(pv.len() as int) =~= pv);
    }
    ImportPlan { steps, texts, templates, categories }
}

proof fn lemma_text_steps_len(ts: Seq<NewTextSpec>, replace: bool)
    ensures
        text_steps(ts, replace).len() >= ts.len(),
    decreases ts.len(),
{
    if ts.len() > 0 {
        lemma_text_steps_len(ts.drop_last(), replace);
    }
}

proof fn lemma_template_steps_len(ts: Seq<NewTemplateSpec>, replace: bool)
    ensures
        template_steps(ts, replace).len() >= ts.len(),
    decreases ts.len(),
{
    if ts.len() > 0 {
        lemma_template_steps_len(ts.drop_last(), replace);
    }
}

/// How many steps satisfy `pred`.
pub open spec fn count_steps(s: Seq<StepSpec>, pred: spec_fn(StepSpec) -> bool) -> nat
    decreases s.len(),
{
    if s.len() == 0 {
        0
    } else {
        count_steps(s.drop_last(), pred) + if pred(s.last()) {
            1nat
        } else {
            0nat
        }
    }
}

pub open spec fn inserts_text() -> spec_fn(StepSpec) -> bool {
    |s: StepSpec| s is InsertText
}

pub open spec fn inserts_template() -> spec_fn(StepSpec) -> bool {
    |s: StepSpec| s is InsertTemplate
}

pub open spec fn ensures_category() -> spec_fn(StepSpec) -> bool {
    |s: StepSpec| s is EnsureCategory
}

pub open spec fn deletes() -> spec_fn(StepSpec) -> bool {
    |s: StepSpec| s is DeleteByTitle
}

proof fn lemma_count_append(a: Seq<StepSpec>, b: Seq<StepSpec>, pred: spec_fn(StepSpec) -> bool)
    ensures
        count_steps(a + b, pred) == count_steps(a, pred) + count_steps(b, pred),
    decreases b.len(),
{
    if b.len() == 0 {
        assert(a + b =~= a);
    } else {
        assert((a + b).drop_last() =~= a + b.drop_last());
        lemma_count_append(a, b.drop_last(), pred);
    }
}

proof fn lemma_count_one(x: StepSpec, pred: spec_fn(StepSpec) -> bool)
    ensures
        count_steps(seq![x], pred) == if pred(x) {
            1nat
        } else {
            0nat
        },
{
    assert(seq![x].drop_last() =~= Seq::<StepSpec>::empty());
    assert(count_steps(Seq::<StepSpec>::empty(), pred) == 0);
    assert(seq![x].last() == x);
}

proof fn lemma_count_parts(
    rest: Seq<StepSpec>,
    del: Seq<StepSpec>,
    ins: StepSpec,
    pred: spec_fn(StepSpec) -> bool,
)
    ensures
        count_steps(rest + del + seq![ins], pred) == count_steps(rest, pred) + count_steps(del, pred)
            + if pred(ins) {
            1nat
        } else {
            0nat
        },
{
    lemma_count_append(rest + del, seq![ins], pred);
    lemma_count_append(rest, del, pred);
    lemma_count_one(ins, pred);
}

proof fn lemma_text_step_counts(ts: Seq<NewTextSpec>, replace: bool)
    ensures
        count_steps(text_steps(ts, replace), inserts_text()) == ts.len(),
        count_steps(text_steps(ts, replace), inserts_template()) == 0,
        count_steps(text_steps(ts, replace), ensures_category()) == 0,
        !replace ==> count_steps(text_steps(ts, replace), deletes()) == 0,
    decreases ts.len(),
{
    if ts.len() > 0 {
        lemma_text_step_counts(ts.drop_last(), replace);
        let t = ts.last();
        let del = if replace {
            seq![StepSpec::DeleteByTitle { table: "texts"@, title: t.title }]
        } else {
            Seq::empty()
        };
        let ins = StepSpec::InsertText(t);
        let rest = text_steps(ts.drop_last(), replace);
        assert(text_steps(ts, replace) == rest + del + seq![ins]);
        lemma_count_parts(rest, del, ins, inserts_text());
        lemma_count_parts(rest, del, ins, inserts_template());
        lemma_count_parts(rest, del, ins, ensures_category());
        lemma_count_parts(rest, del, ins, deletes());
        if replace {
            lemma_count_one(del[0], inserts_text());
            lemma_count_one(del[0], inserts_template());
            lemma_count_one(del[0], ensures_category());
            assert(del == seq![del[0]]);
        } else {
            assert(count_steps(del, inserts_text()) == 0);
        }
    }
}

proof fn lemma_template_step_counts(ts: Seq<NewTemplateSpec>, replace: bool)
    ensures
        count_steps(template_steps(ts, replace), inserts_text()) == 0,
        count_steps(template_steps(ts, replace), inserts_template()) == ts.len(),
        count_steps(template_steps(ts, replace), ensures_category()) == 0,
        !replace ==> count_steps(template_steps(ts, replace), deletes()) == 0,
    decreases ts.len(),
{
    if ts.len() > 0 {
        lemma_template_step_counts(ts.drop_last(), replace);
        let t = ts.last();
        let del = if replace {
            seq![StepSpec::DeleteByTitle { table: "templates"@, title: t.title }]
        } else {
            Seq::empty()
        };
        let ins = StepSpec::InsertTemplate(t);
        let rest = template_steps(ts.drop_last(), replace);
        assert(template_steps(ts, replace) == rest + del + seq![ins]);
        lemma_count_parts(rest, del, ins, inserts_text());
        lemma_count_parts(rest, del, ins, inserts_template());
        lemma_count_parts(rest, del, ins, ensures_category());
        lemma_count_parts(rest, del, ins, deletes());
        if replace {
            lemma_count_one(del[0], inserts_text());
            lemma_count_one(del[0], inserts_template());
            lemma_count_one(del[0], ensures_category());
            assert(del == seq![del[0]]);
        } else {
            assert(count_steps(del, inserts_text()) == 0);
        }
    }
}

proof fn lemma_category_step_counts(cs: Seq<NewCategorySpec>)
    ensures
        count_steps(category_steps(cs), inserts_text()) == 0,
        count_steps(category_steps(cs), inserts_template()) == 0,
        count_steps(category_steps(cs), ensures_category()) == category_steps(cs).len(),
        count_steps(category_steps(cs), deletes()) == 0,
    decreases cs.len(),
{
    if cs.len() > 0 {
        lemma_category_step_counts(cs.drop_last());
        let rest = category_steps(cs.drop_last());
        match category_name_to_resolve(cs.last().name) {
            Some(n) => {
                let step = StepSpec::EnsureCategory { name: n, type_of_category: cs.last().type_of_category };
                assert(category_steps(cs) == rest.push(step));
                assert(rest.push(step).drop_last() =~= rest);
            },
            None => {},
        }
    }
}

proof fn lemma_payload_counts(p: PayloadSpec, replace: bool)
    ensures
        count_steps(payload_steps(p, replace), inserts_text()) == payload_counts(p).0,
        count_steps(payload_steps(p, replace), inserts_template()) == payload_counts(p).1,
        count_steps(payload_steps(p, replace), ensures_category()) == payload_counts(p).2,
        !replace ==> count_steps(payload_steps(p, replace), deletes()) == 0,
{
    match p {
        PayloadSpec::NewTexts(ts) => lemma_text_step_counts(ts, replace),
        PayloadSpec::NewTemplates(ts) => lemma_template_step_counts(ts, replace),
        PayloadSpec::NewCategories(cs) => lemma_category_step_counts(cs),
    }
}

/// The counts an import reports are the numbers of texts inserted,
/// templates inserted and categories found or created by its steps; and
/// keeping both never deletes anything.
pub proof fn law_import_counts_match_steps(ps: Seq<PayloadSpec>, replace: bool)
    ensures
        plan_counts(ps).0 == count_steps(plan_steps(ps, replace), inserts_text()),
        plan_counts(ps).1 == count_steps(plan_steps(ps, replace), inserts_template()),
        plan_counts(ps).2 == count_steps(plan_steps(ps, replace), ensures_category()),
        !replace ==> count_steps(plan_steps(ps, replace), deletes()) == 0,
    decreases ps.len(),
{
    if ps.len() > 0 {
        law_import_counts_match_steps(ps.drop_last(), replace);
        lemma_payload_counts(ps.last(), replace);
        let a = plan_steps(ps.drop_last(), replace);
        let b = payload_steps(ps.last(), replace);
        lemma_count_append(a, b, inserts_text());
        lemma_count_append(a, b, inserts_template());
        lemma_count_append(a, b, ensures_category());
        lemma_count_append(a, b, deletes());
    }
}

} // verus!
