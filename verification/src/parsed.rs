use vstd::prelude::*;
use crate::text::opt_view;

verus! {

/// A text as the JSON import describes it.
#[derive(Debug)]
pub struct NewText {
    pub title: String,
    pub body: String,
    pub category: Option<String>,
    pub meta_category: Option<String>,
    pub type_of_text: Option<String>,
    pub copy_instead_of_view: Option<bool>,
}

/// A template as the JSON import describes it.
#[derive(Debug)]
pub struct NewTemplate {
    pub title: String,
    pub content: String,
    pub instructions: Option<String>,
    pub example: Option<String>,
    pub category: Option<String>,
    pub meta_category: Option<String>,
}

/// A category as the JSON import describes it.
#[derive(Debug)]
pub struct NewCategory {
    pub name: String,
    pub type_of_category: String,
}

/// One block of a pasted JSON document.
#[derive(Debug)]
pub enum ParsedPayload {
    NewTexts(Vec<NewText>),
    NewTemplates(Vec<NewTemplate>),
    NewCategories(Vec<NewCategory>),
}

pub struct NewTextSpec {
    pub title: Seq<char>,
    pub body: Seq<char>,
    pub category: Option<Seq<char>>,
    pub meta_category: Option<Seq<char>>,
    pub type_of_text: Option<Seq<char>>,
    pub copy_instead_of_view: Option<bool>,
}

impl View for NewText {
    type V = NewTextSpec;

    open spec fn view(&self) -> NewTextSpec {
        NewTextSpec {
            title: self.title@,
            body: self.body@,
            category: opt_view(self.category),
            meta_category: opt_view(self.meta_category),
            type_of_text: opt_view(self.type_of_text),
            copy_instead_of_view: self.copy_instead_of_view,
        }
    }
}

pub struct NewTemplateSpec {
    pub title: Seq<char>,
    pub content: Seq<char>,
    pub instructions: Option<Seq<char>>,
    pub example: Option<Seq<char>>,
    pub category: Option<Seq<char>>,
    pub meta_category: Option<Seq<char>>,
}

impl View for NewTemplate {
    type V = NewTemplateSpec;

    open spec fn view(&self) -> NewTemplateSpec {
        NewTemplateSpec {
            title: self.title@,
            content: self.content@,
            instructions: opt_view(self.instructions),
            example: opt_view(self.example),
            category: opt_view(self.category),
            meta_category: opt_view(self.meta_category),
        }
    }
}

pub struct NewCategorySpec {
    pub name: Seq<char>,
    pub type_of_category: Seq<char>,
}

impl View for NewCategory {
    type V = NewCategorySpec;

    open spec fn view(&self) -> NewCategorySpec {
        NewCategorySpec { name: self.name@, type_of_category: self.type_of_category@ }
    }
}

pub enum PayloadSpec {
    NewTexts(Seq<NewTextSpec>),
    NewTemplates(Seq<NewTemplateSpec>),
    NewCategories(Seq<NewCategorySpec>),
}

impl View for ParsedPayload {
    type V = PayloadSpec;

    open spec fn view(&self) -> PayloadSpec {
        match self {
            ParsedPayload::NewTexts(v) => PayloadSpec::NewTexts(v@.map_values(|t: NewText| t@)),
            ParsedPayload::NewTemplates(v) => PayloadSpec::NewTemplates(
                v@.map_values(|t: NewTemplate| t@),
            ),
            ParsedPayload::NewCategories(v) => PayloadSpec::NewCategories(
                v@.map_values(|c: NewCategory| c@),
            ),
        }
    }
}

pub open spec fn payloads_view(v: Seq<ParsedPayload>) -> Seq<PayloadSpec> {
    v.map_values(|p: ParsedPayload| p@)
}

} // verus!
