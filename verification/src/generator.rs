//! The generation session: the registry of shared definitions, and the rule that decides
//! between a reference and an inline document.

use vstd::prelude::*;
use crate::document::{DocumentModel, SchemaDocument};
use crate::schema::JsonSchema;

verus! {

/// The mathematical model of a generation session.
pub struct Registry {
    /// The name under which each registered identity is defined, by identifier.
    pub names: Map<Seq<char>, Seq<char>>,
    /// The table of shared definitions, by name.
    pub definitions: Map<Seq<char>, DocumentModel>,
}

impl Registry {
    /// The session in which nothing is registered.
    pub open spec fn empty() -> Registry {
        Registry { names: Map::empty(), definitions: Map::empty() }
    }

    /// This session after the identity `id` was registered under `name`.
    pub open spec fn register(self, id: Seq<char>, name: Seq<char>) -> Registry {
        Registry { names: self.names.insert(id, name), ..self }
    }

    /// Whether every identity registered in `earlier` is still registered here, under the
    /// same name.
    pub open spec fn extends(self, earlier: Registry) -> bool {
        forall|id: Seq<char>|
            #![trigger earlier.names.contains_key(id)]
            #![trigger self.names.contains_key(id)]
            earlier.names.contains_key(id) ==> self.names.contains_key(id) && self.names[id]
                == earlier.names[id]
    }

    /// This session after `document` was written to the table under `name`. A document
    /// that stood there before is replaced.
    pub open spec fn define(self, name: Seq<char>, document: DocumentModel) -> Registry {
        Registry { definitions: self.definitions.insert(name, document), ..self }
    }
}

/// What a request for the schema of `T` returns in session `registry`, and the session
/// after it.
///
/// A type that is not referenceable is generated in place. A referenceable type whose
/// identity is registered yields a pointer to its name, and nothing else happens. Any other
/// referenceable type is registered first, then generated once, and its document is
/// written to the table of definitions; the request yields a pointer to it.
pub open spec fn subschema<T: JsonSchema + ?Sized>(registry: Registry) -> (
    DocumentModel,
    Registry,
) {
    if !T::spec_is_referenceable() {
        T::spec_json_schema(registry)
    } else if registry.names.contains_key(T::spec_schema_id()) {
        (DocumentModel::reference_to(registry.names[T::spec_schema_id()]), registry)
    } else {
        let name = T::spec_schema_name();
        let generated = T::spec_json_schema(registry.register(T::spec_schema_id(), name));
        (DocumentModel::reference_to(name), generated.1.define(name, generated.0))
    }
}

/// A request for a referenceable type whose identity is registered yields the pointer to
/// the name it is registered under and leaves the session as it is: the type is not
/// generated again. This is what ends the generation of a type that contains itself.
pub proof fn lemma_registered_identity<T: JsonSchema + ?Sized>(registry: Registry)
    requires
        T::spec_is_referenceable(),
        registry.names.contains_key(T::spec_schema_id()),
    ensures
        subschema::<T>(registry) == (
            DocumentModel::reference_to(registry.names[T::spec_schema_id()]),
            registry,
        ),
{
}

/// The table that a list of entries stands for: a later entry replaces an earlier one with
/// the same key.
pub open spec fn table<V>(entries: Seq<(Seq<char>, V)>) -> Map<Seq<char>, V>
    decreases entries.len(),
{
    if entries.len() == 0 {
        Map::empty()
    } else {
        table(entries.drop_last()).insert(entries.last().0, entries.last().1)
    }
}

/// Entries that do not hold `key` change nothing for `key`.
proof fn lemma_table_skip<V>(entries: Seq<(Seq<char>, V)>, key: Seq<char>, from: int)
    requires
        0 <= from <= entries.len(),
        forall|j: int| from <= j < entries.len() ==> entries[j].0 != key,
    ensures
        table(entries).contains_key(key) == table(entries.take(from)).contains_key(key),
        table(entries).contains_key(key) ==> table(entries)[key] == table(entries.take(from))[key],
    decreases entries.len() - from,
{
    if from == entries.len() {
        assert(entries.take(from) =~= entries);
    } else {
        let shorter = entries.drop_last();
        assert(shorter.take(from) =~= entries.take(from));
        lemma_table_skip(shorter, key, from);
    }
}

/// A registered identity.
struct Identity {
    id: String,
    name: String,
}

/// An entry of the table of shared definitions.
#[derive(Debug, PartialEq, Eq)]
pub struct Definition {
    /// The name of the definition.
    pub name: String,
    /// The document defined under that name.
    pub document: SchemaDocument,
}

/// A generation session. It lasts for one request of a schema and owns the only state
/// that schema generation changes.
pub struct SchemaGenerator {
    identities: Vec<Identity>,
    definitions: Vec<Definition>,
}

spec fn identity_entries(identities: Seq<Identity>) -> Seq<(Seq<char>, Seq<char>)> {
    identities.map_values(|identity: Identity| (identity.id@, identity.name@))
}

/// The entries of a list of definitions, as keys and models.
pub open spec fn definition_entries(definitions: Seq<Definition>) -> Seq<
    (Seq<char>, DocumentModel),
> {
    definitions.map_values(|definition: Definition| (definition.name@, definition.document@))
}

impl View for SchemaGenerator {
    type V = Registry;

    closed spec fn view(&self) -> Registry {
        Registry {
            names: table(identity_entries(self.identities@)),
            definitions: table(definition_entries(self.definitions@)),
        }
    }
}

impl SchemaGenerator {
    /// Opens a session in which nothing is registered.
    pub fn new() -> (generator: SchemaGenerator)
        ensures
            generator@ == Registry::empty(),
    {
        SchemaGenerator { identities: Vec::new(), definitions: Vec::new() }
    }

    /// The name under which the identity `id` is registered, if it is.
    pub fn name_of(&self, id: &String) -> (name: Option<String>)
        ensures
            name is Some == self@.names.contains_key(id@),
            name matches Some(found) ==> found@ == self@.names[id@],
    {
        let ghost entries = identity_entries(self.identities@);
        let mut i = self.identities.len();
        while i > 0
            invariant
                i <= self.identities.len(),
                entries == identity_entries(self.identities@),
                forall|j: int| i <= j < entries.len() ==> entries[j].0 != id@,
            decreases i,
        {
            i = i - 1;
            if self.identities[i].id == *id {
                proof {
                    lemma_table_skip(entries, id@, i + 1);
                    assert(entries.take(i + 1).drop_last() =~= entries.take(i as int));
                }
                return Some(self.identities[i].name.clone());
            }
        }
        proof {
            lemma_table_skip(entries, id@, 0);
        }
        None
    }

    /// The document defined under `name` in the table of shared definitions, if there is
    /// one.
    pub fn definition(&self, name: &String) -> (document: Option<&SchemaDocument>)
        ensures
            document is Some == self@.definitions.contains_key(name@),
            document matches Some(found) ==> found@ == self@.definitions[name@],
    {
        let ghost entries = definition_entries(self.definitions@);
        let mut i = self.definitions.len();
        while i > 0
            invariant
                i <= self.definitions.len(),
                entries == definition_entries(self.definitions@),
                forall|j: int| i <= j < entries.len() ==> entries[j].0 != name@,
            decreases i,
        {
            i = i - 1;
            if self.definitions[i].name == *name {
                proof {
                    lemma_table_skip(entries, name@, i + 1);
                    assert(entries.take(i + 1).drop_last() =~= entries.take(i as int));
                }
                return Some(&self.definitions[i].document);
            }
        }
        proof {
            lemma_table_skip(entries, name@, 0);
        }
        None
    }

    /// The entries of the table of shared definitions in the order in which they were
    /// written. Where two entries have one name, the later one stands in the table.
    pub fn definitions(&self) -> (entries: &Vec<Definition>)
        ensures
            table(definition_entries(entries@)) == self@.definitions,
    {
        &self.definitions
    }

    fn register(&mut self, id: String, name: String)
        ensures
            final(self)@ == old(self)@.register(id@, name@),
    {
        let ghost before = identity_entries(self.identities@);
        self.identities.push(Identity { id, name });
        assert(identity_entries(self.identities@).drop_last() =~= before);
    }

    fn define(&mut self, name: String, document: SchemaDocument)
        ensures
            final(self)@ == old(self)@.define(name@, document@),
    {
        let ghost before = definition_entries(self.definitions@);
        self.definitions.push(Definition { name, document });
        assert(definition_entries(self.definitions@).drop_last() =~= before);
    }

    /// Answers a request for the schema of `T`: generated in place where `T` is not
    /// referenceable, else a pointer to the shared definition of `T`, which is generated
    /// when its identity is met for the first time.
    pub fn subschema_for<T: JsonSchema + ?Sized>(&mut self) -> (document: SchemaDocument)
        ensures
            document@ == subschema::<T>(old(self)@).0,
            final(self)@ == subschema::<T>(old(self)@).1,
            T::spec_is_referenceable() == (document@.reference is Some),
            T::spec_is_referenceable() ==> final(self)@.names.contains_key(T::spec_schema_id()),
            final(self)@.extends(old(self)@),
    {
        if !T::is_referenceable() {
            return T::json_schema(self);
        }
        let id = T::schema_id();
        match self.name_of(&id) {
            Some(name) => SchemaDocument::reference_to(name.as_str()),
            None => {
                let name = T::schema_name();
                self.register(id, name.clone());
                let document = T::json_schema(self);
                let reference = SchemaDocument::reference_to(name.as_str());
                self.define(name, document);
                reference
            },
        }
    }
}

} // verus!
