//! The schema document: a JSON-Schema-like description of one wire shape,
//! together with its mathematical model.

use vstd::prelude::*;

verus! {

/// The JSON instance kinds that a document can admit.
#[derive(Clone, Copy, Debug, PartialEq, Eq, Structural)]
pub enum InstanceKind {
    Null,
    Boolean,
    Object,
    Array,
    Number,
    String,
    Integer,
}

/// A schema document.
///
/// Every field is a constraint; a field that is `None` (or `false`) constrains nothing.
#[derive(Debug, PartialEq, Eq)]
pub struct SchemaDocument {
    /// Pointer to a shared definition (`$ref`).
    pub reference: Option<String>,
    /// The instance kind (`type`).
    pub kind: Option<InstanceKind>,
    /// Whether `type` admits `null` beside `kind`.
    pub nullable: bool,
    /// The `format` annotation.
    pub format: Option<String>,
    /// Accepted on input, never produced on output (`writeOnly`).
    pub write_only: bool,
    /// Inclusive lower bound of a number (`minimum`).
    pub minimum: Option<i64>,
    /// Inclusive upper bound of a number (`maximum`).
    pub maximum: Option<i64>,
    /// The schema of every array item (`items` with one schema).
    pub items: Option<Box<SchemaDocument>>,
    /// The schemas of the array items by position (`items` with a list).
    pub prefix_items: Option<Vec<SchemaDocument>>,
    /// Least number of array items (`minItems`).
    pub min_items: Option<u32>,
    /// Greatest number of array items (`maxItems`).
    pub max_items: Option<u32>,
    /// Whether array items must differ pairwise (`uniqueItems`).
    pub unique_items: Option<bool>,
    /// The schema of every property value of an object (`additionalProperties`).
    pub additional_properties: Option<Box<SchemaDocument>>,
    /// Alternatives of which any number may match (`anyOf`).
    pub any_of: Option<Vec<SchemaDocument>>,
    /// Alternatives of which exactly one matches (`oneOf`).
    pub one_of: Option<Vec<SchemaDocument>>,
}

/// The mathematical model of a [`SchemaDocument`], field by field: a text is a sequence
/// of characters, a list is a sequence, a bound or a count is an unbounded integer.
pub struct DocumentModel {
    pub reference: Option<Seq<char>>,
    pub kind: Option<InstanceKind>,
    pub nullable: bool,
    pub format: Option<Seq<char>>,
    pub write_only: bool,
    pub minimum: Option<int>,
    pub maximum: Option<int>,
    pub items: Option<Box<DocumentModel>>,
    pub prefix_items: Option<Seq<DocumentModel>>,
    pub min_items: Option<nat>,
    pub max_items: Option<nat>,
    pub unique_items: Option<bool>,
    pub additional_properties: Option<Box<DocumentModel>>,
    pub any_of: Option<Seq<DocumentModel>>,
    pub one_of: Option<Seq<DocumentModel>>,
}

impl DocumentModel {
    /// The document that constrains nothing.
    pub open spec fn empty() -> DocumentModel {
        DocumentModel {
            reference: None,
            kind: None,
            nullable: false,
            format: None,
            write_only: false,
            minimum: None,
            maximum: None,
            items: None,
            prefix_items: None,
            min_items: None,
            max_items: None,
            unique_items: None,
            additional_properties: None,
            any_of: None,
            one_of: None,
        }
    }

    /// The union of alternatives of which exactly one matches.
    pub open spec fn one_of(alternatives: Seq<DocumentModel>) -> DocumentModel {
        DocumentModel { one_of: Some(alternatives), ..Self::empty() }
    }

    /// The union of alternatives of which any number may match.
    pub open spec fn any_of(alternatives: Seq<DocumentModel>) -> DocumentModel {
        DocumentModel { any_of: Some(alternatives), ..Self::empty() }
    }

    /// The document that admits one instance kind and constrains nothing else.
    pub open spec fn of_kind(kind: InstanceKind) -> DocumentModel {
        DocumentModel { kind: Some(kind), ..Self::empty() }
    }

    /// The pointer to the shared definition called `name`.
    pub open spec fn reference_to(name: Seq<char>) -> DocumentModel {
        DocumentModel { reference: Some(definition_path(name)), ..Self::empty() }
    }

    /// The array whose items all match `items`.
    pub open spec fn array_of(items: DocumentModel) -> DocumentModel {
        DocumentModel { items: Some(Box::new(items)), ..Self::of_kind(InstanceKind::Array) }
    }

    /// The array of pairwise different items that all match `items`.
    pub open spec fn set_of(items: DocumentModel) -> DocumentModel {
        DocumentModel { unique_items: Some(true), ..Self::array_of(items) }
    }

    /// The array that has exactly one item for each of `items`, in order.
    pub open spec fn tuple_of(items: Seq<DocumentModel>) -> DocumentModel {
        DocumentModel {
            prefix_items: Some(items),
            min_items: Some(items.len()),
            max_items: Some(items.len()),
            ..Self::of_kind(InstanceKind::Array)
        }
    }

    /// The object whose property values all match `values`.
    pub open spec fn map_of(values: DocumentModel) -> DocumentModel {
        DocumentModel {
            additional_properties: Some(Box::new(values)),
            ..Self::of_kind(InstanceKind::Object)
        }
    }

    /// This document, widened to admit `null`: a document that states its kind admits
    /// `null` beside it, any other becomes one of two alternatives.
    pub open spec fn or_null(self) -> DocumentModel {
        match self.kind {
            Some(InstanceKind::Null) => self,
            Some(_) => DocumentModel { nullable: true, ..self },
            None => Self::any_of(seq![self, Self::of_kind(InstanceKind::Null)]),
        }
    }

    /// This document without its constraint on the uniqueness of array items.
    pub open spec fn without_unique_items(self) -> DocumentModel {
        DocumentModel { unique_items: None, ..self }
    }
}

/// The pointer that names the shared definition called `name`.
pub open spec fn definition_path(name: Seq<char>) -> Seq<char> {
    "#/definitions/"@ + name
}

/// The model of an optional bound.
pub open spec fn integer_model(bound: Option<i64>) -> Option<int> {
    match bound {
        Some(n) => Some(n as int),
        None => None,
    }
}

/// The model of an optional count.
pub open spec fn count_model(count: Option<u32>) -> Option<nat> {
    match count {
        Some(n) => Some(n as nat),
        None => None,
    }
}

/// The model of an optional text.
pub open spec fn text_model(text: Option<String>) -> Option<Seq<char>> {
    match text {
        Some(s) => Some(s@),
        None => None,
    }
}

/// The model of an optional nested document.
pub open spec fn nested_model(nested: Option<Box<SchemaDocument>>) -> Option<Box<DocumentModel>>
    decreases nested,
{
    match nested {
        Some(document) => Some(Box::new(document.model())),
        None => None,
    }
}

/// The model of an optional list of documents.
pub open spec fn list_model(list: Option<Vec<SchemaDocument>>) -> Option<Seq<DocumentModel>>
    decreases list,
{
    match list {
        Some(documents) => Some(
            Seq::new(
                documents.len() as nat,
                |i: int|
                    if 0 <= i < documents.len() {
                        documents[i].model()
                    } else {
                        arbitrary()
                    },
            ),
        ),
        None => None,
    }
}

/// The models of a sequence of documents, one by one.
pub open spec fn models(documents: Seq<SchemaDocument>) -> Seq<DocumentModel> {
    documents.map_values(|document: SchemaDocument| document@)
}

impl SchemaDocument {
    /// The model of this document.
    pub open spec fn model(&self) -> DocumentModel
        decreases self,
    {
        DocumentModel {
            reference: text_model(self.reference),
            kind: self.kind,
            nullable: self.nullable,
            format: text_model(self.format),
            write_only: self.write_only,
            minimum: integer_model(self.minimum),
            maximum: integer_model(self.maximum),
            items: nested_model(self.items),
            prefix_items: list_model(self.prefix_items),
            min_items: count_model(self.min_items),
            max_items: count_model(self.max_items),
            unique_items: self.unique_items,
            additional_properties: nested_model(self.additional_properties),
            any_of: list_model(self.any_of),
            one_of: list_model(self.one_of),
        }
    }
}

impl SchemaDocument {
    /// The document that constrains nothing.
    pub fn new() -> (document: SchemaDocument)
        ensures
            document@ == DocumentModel::empty(),
    {
        SchemaDocument {
            reference: None,
            kind: None,
            nullable: false,
            format: None,
            write_only: false,
            minimum: None,
            maximum: None,
            items: None,
            prefix_items: None,
            min_items: None,
            max_items: None,
            unique_items: None,
            additional_properties: None,
            any_of: None,
            one_of: None,
        }
    }

    /// The union of alternatives of which exactly one matches.
    pub fn one_of(alternatives: Vec<SchemaDocument>) -> (document: SchemaDocument)
        ensures
            document@ == DocumentModel::one_of(models(alternatives@)),
    {
        proof {
            lemma_list_model(alternatives);
        }
        let mut document = SchemaDocument::new();
        document.one_of = Some(alternatives);
        document
    }

    /// The union of alternatives of which any number may match.
    pub fn any_of(alternatives: Vec<SchemaDocument>) -> (document: SchemaDocument)
        ensures
            document@ == DocumentModel::any_of(models(alternatives@)),
    {
        proof {
            lemma_list_model(alternatives);
        }
        let mut document = SchemaDocument::new();
        document.any_of = Some(alternatives);
        document
    }

    /// The document that admits one instance kind and constrains nothing else.
    pub fn of_kind(kind: InstanceKind) -> (document: SchemaDocument)
        ensures
            document@ == DocumentModel::of_kind(kind),
    {
        let mut document = SchemaDocument::new();
        document.kind = Some(kind);
        document
    }

    /// The pointer to the shared definition called `name`.
    pub fn reference_to(name: &str) -> (document: SchemaDocument)
        ensures
            document@ == DocumentModel::reference_to(name@),
    {
        let mut document = SchemaDocument::new();
        document.reference = Some(String::from_str("#/definitions/").concat(name));
        document
    }

    /// The array whose items all match `items`.
    pub fn array_of(items: SchemaDocument) -> (document: SchemaDocument)
        ensures
            document@ == DocumentModel::array_of(items@),
    {
        let mut document = SchemaDocument::of_kind(InstanceKind::Array);
        document.items = Some(Box::new(items));
        document
    }

    /// The array of pairwise different items that all match `items`.
    pub fn set_of(items: SchemaDocument) -> (document: SchemaDocument)
        ensures
            document@ == DocumentModel::set_of(items@),
    {
        let mut document = SchemaDocument::array_of(items);
        document.unique_items = Some(true);
        document
    }

    /// The array that has exactly one item for each of `items`, in order.
    pub fn tuple_of(items: Vec<SchemaDocument>) -> (document: SchemaDocument)
        requires
            items.len() <= u32::MAX,
        ensures
            document@ == DocumentModel::tuple_of(models(items@)),
    {
        proof {
            lemma_list_model(items);
        }
        let count = items.len() as u32;
        let mut document = SchemaDocument::of_kind(InstanceKind::Array);
        document.prefix_items = Some(items);
        document.min_items = Some(count);
        document.max_items = Some(count);
        document
    }

    /// The object whose property values all match `values`.
    pub fn map_of(values: SchemaDocument) -> (document: SchemaDocument)
        ensures
            document@ == DocumentModel::map_of(values@),
    {
        let mut document = SchemaDocument::of_kind(InstanceKind::Object);
        document.additional_properties = Some(Box::new(values));
        document
    }

    /// Widens this document to admit `null`.
    pub fn or_null(self) -> (document: SchemaDocument)
        ensures
            document@ == self@.or_null(),
    {
        match self.kind {
            Some(InstanceKind::Null) => self,
            Some(_) => {
                let mut document = self;
                document.nullable = true;
                document
            },
            None => {
                let ghost plain = self@;
                let mut alternatives: Vec<SchemaDocument> = Vec::new();
                alternatives.push(self);
                alternatives.push(SchemaDocument::of_kind(InstanceKind::Null));
                assert(models(alternatives@) =~= seq![
                    plain,
                    DocumentModel::of_kind(InstanceKind::Null),
                ]);
                SchemaDocument::any_of(alternatives)
            },
        }
    }

    /// Removes the constraint on the uniqueness of array items.
    pub fn without_unique_items(self) -> (document: SchemaDocument)
        ensures
            document@ == self@.without_unique_items(),
    {
        let mut document = self;
        document.unique_items = None;
        document
    }
}

/// The model of a list of documents holds the model of each, in order.
pub proof fn lemma_list_model(documents: Vec<SchemaDocument>)
    ensures
        list_model(Some(documents)) == Some(models(documents@)),
{
    assert(list_model(Some(documents))->0 =~= models(documents@));
}

impl View for SchemaDocument {
    type V = DocumentModel;

    open spec fn view(&self) -> DocumentModel {
        self.model()
    }
}

} // verus!
