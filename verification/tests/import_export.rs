use zutil::helpers::export::gather_for_export;
use zutil::helpers::new_row::{create_template_from_new_template, create_text_from_new_text};
use zutil::helpers::import::{import_plan, title_query, ImportMode, ImportStep};
use zutil::parsed::{NewCategory, NewTemplate, NewText, ParsedPayload};
use zutil::row_col::{Col, Row};

fn text(s: &str) -> Col {
    Col::Text(s.to_string())
}

fn new_text(title: &str) -> NewText {
    NewText {
        title: title.to_string(),
        body: "b".to_string(),
        category: Some("Mail".to_string()),
        meta_category: None,
        type_of_text: None,
        copy_instead_of_view: Some(true),
    }
}

fn describe(steps: &[ImportStep]) -> Vec<String> {
    steps
        .iter()
        .map(|s| match s {
            ImportStep::DeleteByTitle { table_name, title } => format!("delete {} {}", table_name, title),
            ImportStep::InsertText(t) => format!("text {}", t.title),
            ImportStep::InsertTemplate(t) => format!("template {}", t.title),
            ImportStep::EnsureCategory { name, type_of_category } => format!("category {} {}", name, type_of_category),
        })
        .collect()
}

fn payloads() -> Vec<ParsedPayload> {
    vec![
        ParsedPayload::NewTexts(vec![new_text("a"), new_text("b")]),
        ParsedPayload::NewCategories(vec![
            NewCategory { name: "  Work ".to_string(), type_of_category: "normal".to_string() },
            NewCategory { name: "   ".to_string(), type_of_category: "meta".to_string() },
        ]),
        ParsedPayload::NewTemplates(vec![NewTemplate {
            title: "t".to_string(),
            content: "c".to_string(),
            instructions: None,
            example: None,
            category: None,
            meta_category: None,
        }]),
    ]
}

#[test]
fn keep_both_only_inserts() {
    let plan = import_plan(payloads(), ImportMode::KeepBoth);
    assert_eq!(describe(&plan.steps), vec!["text a", "text b", "category Work normal", "template t"]);
    assert_eq!((plan.texts, plan.templates, plan.categories), (2, 1, 1));
}

#[test]
fn replace_deletes_by_title_first() {
    let plan = import_plan(payloads(), ImportMode::Replace);
    assert_eq!(
        describe(&plan.steps),
        vec![
            "delete texts a",
            "text a",
            "delete texts b",
            "text b",
            "category Work normal",
            "delete templates t",
            "template t",
        ]
    );
    assert_eq!((plan.texts, plan.templates, plan.categories), (2, 1, 1));
}

#[test]
fn empty_import_does_nothing() {
    let plan = import_plan(vec![], ImportMode::Replace);
    assert!(plan.steps.is_empty());
    assert_eq!((plan.texts, plan.templates, plan.categories), (0, 0, 0));
}

#[test]
fn title_lookup_query() {
    let q = title_query("texts", "a");
    assert_eq!(q.table_name, "texts");
    assert_eq!(q.columns_to_read, vec!["id".to_string()]);
}

#[test]
fn export_names_categories_and_keeps_order() {
    let triples = vec![
        (1, "Mail".to_string(), "normal".to_string()),
        (2, "Docs".to_string(), "meta".to_string()),
    ];
    let texts = vec![
        Row { cols: vec![Col::Integer(9), text("hi"), text("body"), Col::Integer(1), Col::Integer(2), text("note"), Col::Integer(1)] },
        Row { cols: vec![Col::Integer(10), text("bare"), text("b"), Col::Null, Col::Integer(7), Col::Null, Col::Integer(0)] },
    ];
    let templates = vec![Row { cols: vec![Col::Integer(3), text("T"), text("C"), text("do this"), Col::Null, Col::Integer(2), Col::Null] }];
    let (cats, ts, tpls) = gather_for_export(&triples, &texts, &templates);
    assert_eq!(cats.len(), 2);
    assert_eq!((cats[1].name.as_str(), cats[1].type_of_category.as_str()), ("Docs", "meta"));
    assert_eq!(ts[0].category, Some("Mail".to_string()));
    assert_eq!(ts[0].meta_category, Some("Docs".to_string()));
    assert_eq!(ts[0].type_of_text, Some("note".to_string()));
    assert_eq!(ts[0].copy_instead_of_view, Some(true));
    assert_eq!(ts[1].category, None);
    assert_eq!(ts[1].meta_category, None);
    assert_eq!(ts[1].copy_instead_of_view, None);
    assert_eq!(tpls[0].instructions, Some("do this".to_string()));
    assert_eq!(tpls[0].example, None);
    assert_eq!(tpls[0].category, Some("Docs".to_string()));
}

#[test]
fn exported_text_imports_back_unchanged() {
    let triples = vec![(1, "Mail".to_string(), "normal".to_string())];
    let stored = Row { cols: vec![Col::Integer(9), text("hi"), text("body"), Col::Integer(1), Col::Null, text("note"), Col::Integer(1)] };
    let (_, ts, _) = gather_for_export(&triples, &vec![stored], &vec![]);
    let t = ts.into_iter().next().unwrap();
    let back = create_text_from_new_text(t, Some(1), None);
    let cols: Vec<(String, Col)> = back.values.into_iter().map(|v| (v.column_name, v.value)).collect();
    assert_eq!(cols[0], ("title".to_string(), text("hi")));
    assert_eq!(cols[1], ("body".to_string(), text("body")));
    assert_eq!(cols[2], ("category_id".to_string(), Col::Integer(1)));
    assert_eq!(cols[4], ("type_of_text".to_string(), text("note")));
    assert_eq!(cols[5], ("copy_instead_of_view".to_string(), Col::Integer(1)));

    let tpl = Row { cols: vec![Col::Integer(3), text("T"), text("C"), text("I"), text("E"), Col::Null, Col::Null] };
    let (_, _, tpls) = gather_for_export(&triples, &vec![], &vec![tpl]);
    let back = create_template_from_new_template(tpls.into_iter().next().unwrap(), None, None);
    let cols: Vec<Col> = back.values.into_iter().map(|v| v.value).collect();
    assert_eq!(&cols[..4], &[text("T"), text("C"), text("I"), text("E")][..]);
}

#[test]
fn import_counts_are_the_inserts() {
    let plan = import_plan(payloads(), ImportMode::Replace);
    let texts = plan.steps.iter().filter(|s| matches!(s, ImportStep::InsertText(_))).count();
    let templates = plan.steps.iter().filter(|s| matches!(s, ImportStep::InsertTemplate(_))).count();
    let categories = plan.steps.iter().filter(|s| matches!(s, ImportStep::EnsureCategory { .. })).count();
    assert_eq!((plan.texts, plan.templates, plan.categories), (texts, templates, categories));
    let keep = import_plan(payloads(), ImportMode::KeepBoth);
    assert!(!keep.steps.iter().any(|s| matches!(s, ImportStep::DeleteByTitle { .. })));
}
