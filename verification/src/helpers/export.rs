use vstd::prelude::*;
use std::collections::HashMap;
use crate::parsed::{
    NewCategory, NewCategorySpec, NewTemplate, NewTemplateSpec, NewText, NewTextSpec,
};
use crate::row_col::{ColSpec, Row, flag_at, int_at, rows_view, text_at, text_or_empty};
use crate::text::opt_view;
use crate::helpers::new_row::{template_row_spec, text_row_spec};

verus! {

/// Category names by id; a later category with the same id replaces an earlier one.
pub open spec fn names_by_id(triples: Seq<(i64, String, String)>) -> Map<i64, String>
    decreases triples.len(),
{
    if triples.len() == 0 {
        Map::empty()
    } else {
        names_by_id(triples.drop_last()).insert(triples.last().0, triples.last().1)
    }
}

pub fn name_by_id_map(triples: &Vec<(i64, String, String)>) -> (m: HashMap<i64, String>)
    ensures
        m@ == names_by_id(triples@),
{
    let mut m: HashMap<i64, String> = HashMap::new();
    let mut k: usize = 0;
    while k < triples.len()
        invariant
            k <= triples@.len(),
            m@ == names_by_id(triples@.take(k as int)),
        decreases triples@.len() - k,
    {
        assert(triples@.take(k + 1).drop_last() =~= triples@.take(k as int));
        let name = triples[k].1.clone();
        m.insert(triples[k].0, name);
        k += 1;
    }
    assert(triples@.take(triples@.len() as int) =~= triples@);
    m
}

/// The name of the category whose id a column holds, if it holds one that is known.
pub open spec fn category_name_in(row: Seq<ColSpec>, i: int, names: Map<i64, String>) -> Option<
    Seq<char>,
> {
    match int_at(row, i) {
        Some(id) => if names.contains_key(id as i64) {
            Some(names[id as i64]@)
        } else {
            None
        },
        None => None,
    }
}

pub(crate) fn category_name_of(row: &Row, i: usize, names: &HashMap<i64, String>) -> (r: Option<String>)
    ensures
        opt_view(r) == category_name_in(row@, i as int, names@),
{
    match row.int_at(i) {
        Some(id) => match names.get(&id) {
            Some(name) => Some(name.clone()),
            None => None,
        },
        None => None,
    }
}

/// A stored text as the export writes it: title, body, both categories by
/// name, its type, and the copy flag only when it is set.
pub open spec fn exported_text(row: Seq<ColSpec>, names: Map<i64, String>) -> NewTextSpec {
    NewTextSpec {
        title: text_or_empty(row, 1),
        body: text_or_empty(row, 2),
        category: category_name_in(row, 3, names),
        meta_category: category_name_in(row, 4, names),
        type_of_text: text_at(row, 5),
        copy_instead_of_view: if flag_at(row, 6) {
            Some(true)
        } else {
            None
        },
    }
}

/// A stored template as the export writes it.
pub open spec fn exported_template(row: Seq<ColSpec>, names: Map<i64, String>) -> NewTemplateSpec {
    NewTemplateSpec {
        title: text_or_empty(row, 1),
        content: text_or_empty(row, 2),
        instructions: text_at(row, 3),
        example: text_at(row, 4),
        category: category_name_in(row, 5, names),
        meta_category: category_name_in(row, 6, names),
    }
}

pub fn row_to_new_text(r: &Row, names: &HashMap<i64, String>) -> (t: NewText)
    ensures
        t@ == exported_text(r@, names@),
{
    let copy = r.flag_at(6);
    NewText {
        title: r.text_or_empty(1),
        body: r.text_or_empty(2),
        category: category_name_of(r, 3, names),
        meta_category: category_name_of(r, 4, names),
        type_of_text: r.text_at(5),
        copy_instead_of_view: if copy {
            Some(true)
        } else {
            None
        },
    }
}

pub fn row_to_new_template(r: &Row, names: &HashMap<i64, String>) -> (t: NewTemplate)
    ensures
        t@ == exported_template(r@, names@),
{
    NewTemplate {
        title: r.text_or_empty(1),
        content: r.text_or_empty(2),
        instructions: r.text_at(3),
        example: r.text_at(4),
        category: category_name_of(r, 5, names),
        meta_category: category_name_of(r, 6, names),
    }
}

/// Everything an export writes out: each category with its type, each text
/// and each template, in the order they were read.
pub fn gather_for_export(
    triples: &Vec<(i64, String, String)>,
    text_rows: &Vec<Row>,
    template_rows: &Vec<Row>,
) -> (r: (Vec<NewCategory>, Vec<NewText>, Vec<NewTemplate>))
    ensures
        r.0@.map_values(|c: NewCategory| c@) == triples@.map_values(
            |t: (i64, String, String)| NewCategorySpec { name: t.1@, type_of_category: t.2@ },
        ),
        r.1@.map_values(|t: NewText| t@) == rows_view(text_rows@).map_values(
            |row: Seq<ColSpec>| exported_text(row, names_by_id(triples@)),
        ),
        r.2@.map_values(|t: NewTemplate| t@) == rows_view(template_rows@).map_values(
            |row: Seq<ColSpec>| exported_template(row, names_by_id(triples@)),
        ),
{
    let names = name_by_id_map(triples);
    let ghost nm = names@;
    let mut categories: Vec<NewCategory> = Vec::new();
    let mut k: usize = 0;
    while k < triples.len()
        invariant
            k <= triples@.len(),
            categories@.map_values(|c: NewCategory| c@) =~= triples@.take(k as int).map_values(
                |t: (i64, String, String)| NewCategorySpec { name: t.1@, type_of_category: t.2@ },
            ),
        decreases triples@.len() - k,
    {
        let ghost before = categories@;
        let c = NewCategory { name: triples[k].1.clone(), type_of_category: triples[k].2.clone() };
        categories.push(c);
        assert(categories@.map_values(|c: NewCategory| c@) =~= before.map_values(
            |c: NewCategory| c@,
        ).push(c@));
        assert(triples@.take(k + 1) =~= triples@.take(k as int).push(triples@[k as int]));
        k += 1;
    }
    assert(triples@.take(triples@.len() as int) =~= triples@);
    let mut texts: Vec<NewText> = Vec::new();
    let mut k: usize = 0;
    while k < text_rows.len()
        invariant
            k <= text_rows@.len(),
            nm == names@,
            texts@.map_values(|t: NewText| t@) =~= rows_view(text_rows@.take(k as int)).map_values(
                |row: Seq<ColSpec>| exported_text(row, nm),
            ),
        decreases text_rows@.len() - k,
    {
        let ghost before = texts@;
        let t = row_to_new_text(&text_rows[k], &names);
        texts.push(t);
        assert(texts@.map_values(|t: NewText| t@) =~= before.map_values(|t: NewText| t@).push(t@));
        assert(text_rows@.take(k + 1) =~= text_rows@.take(k as int).push(text_rows@[k as int]));
        k += 1;
    }
    assert(text_rows@.take(text_rows@.len() as int) =~= text_rows@);
    let mut templates: Vec<NewTemplate> = Vec::new();
    let mut k: usize = 0;
    while k < template_rows.len()
        invariant
            k <= template_rows@.len(),
            nm == names@,
            templates@.map_values(|t: NewTemplate| t@) =~= rows_view(
                template_rows@.take(k as int),
            ).map_values(|row: Seq<ColSpec>| exported_template(row, nm)),
        decreases template_rows@.len() - k,
    {
        let ghost before = templates@;
        let t = row_to_new_template(&template_rows[k], &names);
        templates.push(t);
        assert(templates@.map_values(|t: NewTemplate| t@) =~= before.map_values(
            |t: NewTemplate| t@,
        ).push(t@));
        assert(template_rows@.take(k + 1) =~= template_rows@.take(k as int).push(
            template_rows@[k as int],
        ));
        k += 1;
    }
    assert(template_rows@.take(template_rows@.len() as int) =~= template_rows@);
    (categories, texts, templates)
}

/// The copy flag an imported text gets: a missing one means false.
pub open spec fn imported_copy_flag(t: NewTextSpec) -> bool {
    match t.copy_instead_of_view {
        Some(b) => b,
        None => false,
    }
}

/// A text exported and imported again keeps its title, body, type and copy
/// flag, whatever ids its categories are resolved to: for stored texts
/// whose title and body are text, whose type is either NULL or a non-empty
/// text, and whose copy flag is 0 or 1.
pub proof fn law_text_export_import_round_trip(
    row: Seq<ColSpec>,
    names: Map<i64, String>,
    category_id: Option<i64>,
    meta_category_id: Option<i64>,
)
    requires
        row.len() >= 7,
        row[1] is Text,
        row[2] is Text,
        row[5] is Null || (row[5] matches ColSpec::Text(t) && t.len() > 0),
        row[6] == ColSpec::Integer(0) || row[6] == ColSpec::Integer(1),
    ensures
        ({
            let t = exported_text(row, names);
            let back = text_row_spec(
                t.title,
                t.body,
                category_id,
                meta_category_id,
                t.type_of_text,
                imported_copy_flag(t),
            ).values;
            &&& back[0].1 == row[1]
            &&& back[1].1 == row[2]
            &&& back[4].1 == row[5]
            &&& back[5].1 == row[6]
        }),
{
}

/// A template exported and imported again keeps its title, content,
/// instructions and example, for stored templates whose four texts are text.
pub proof fn law_template_export_import_round_trip(
    row: Seq<ColSpec>,
    names: Map<i64, String>,
    category_id: Option<i64>,
    meta_category_id: Option<i64>,
)
    requires
        row.len() >= 7,
        row[1] is Text,
        row[2] is Text,
        row[3] is Text,
        row[4] is Text,
    ensures
        ({
            let t = exported_template(row, names);
            let back = template_row_spec(
                t.title,
                t.content,
                match t.instructions {
                    Some(s) => s,
                    None => Seq::empty(),
                },
                match t.example {
                    Some(s) => s,
                    None => Seq::empty(),
                },
                category_id,
                meta_category_id,
            ).values;
            &&& back[0].1 == row[1]
            &&& back[1].1 == row[2]
            &&& back[2].1 == row[3]
            &&& back[3].1 == row[4]
        }),
{
}

/// The category an export writes for a text is the name the stored
/// category id has.
pub proof fn law_export_names_the_stored_category(row: Seq<ColSpec>, names: Map<i64, String>, id: i64)
    requires
        row.len() >= 7,
        row[3] == ColSpec::Integer(id as int),
        names.contains_key(id),
    ensures
        exported_text(row, names).category == Some(names[id]@),
{
}

/// Each category an export writes is named by the id stored in its own
/// column: a text's category and meta category by its fourth and fifth
/// columns, a template's by its sixth and seventh; a column without a known id
/// gives no category.
pub proof fn law_export_names_each_stored_category(row: Seq<ColSpec>, names: Map<i64, String>, id: i64)
    requires
        row.len() >= 7,
    ensures
        row[3] == ColSpec::Integer(id as int) && names.contains_key(id) ==> exported_text(
            row,
            names,
        ).category == Some(names[id]@),
        row[4] == ColSpec::Integer(id as int) && names.contains_key(id) ==> exported_text(
            row,
            names,
        ).meta_category == Some(names[id]@),
        row[5] == ColSpec::Integer(id as int) && names.contains_key(id) ==> exported_template(
            row,
            names,
        ).category == Some(names[id]@),
        row[6] == ColSpec::Integer(id as int) && names.contains_key(id) ==> exported_template(
            row,
            names,
        ).meta_category == Some(names[id]@),
        !(row[3] is Integer) ==> exported_text(row, names).category is None,
        !(row[4] is Integer) ==> exported_text(row, names).meta_category is None,
        !(row[5] is Integer) ==> exported_template(row, names).category is None,
        !(row[6] is Integer) ==> exported_template(row, names).meta_category is None,
        row[6] == ColSpec::Integer(id as int) && !names.contains_key(id) ==> exported_template(
            row,
            names,
        ).meta_category is None,
        row[5] == ColSpec::Integer(id as int) && !names.contains_key(id) ==> exported_template(
            row,
            names,
        ).category is None,
{
}


} // verus!
