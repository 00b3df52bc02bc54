//! Following references to the components they name.
//!
//! A reference names a component of the specification or a document by its
//! path. Following it is a function of the specification and the reference
//! alone: the documents that references name are kept with the specification,
//! and nothing is read while a reference is followed.

use vstd::prelude::*;
use vstd::set_lib::{lemma_int_range, set_int_range};
use vstd::string::*;
use crate::model::{loaded_views, Spec, SpecView};
use crate::reference::{
    category_of, is_component_reference, lemma_reference_grammar, parse_reference,
    ObjectOrReference, Ref, RefError, RefErrorView, RefOr, RefType, RefView,
};
use crate::sequence::{named, names_of};
use crate::text::{owned, same_text};

verus! {

/// The position of the first name at or after `from` that reads `name`, or
/// the number of names where none follows.
pub open spec fn key_index(names: Seq<Seq<char>>, name: Seq<char>, from: int) -> int
    decreases names.len() - from,
{
    if from < 0 || from >= names.len() {
        names.len() as int
    } else if names[from] == name {
        from
    } else {
        key_index(names, name, from + 1)
    }
}

/// `key_index` finds the name, and no name before it reads the same.
pub proof fn lemma_key_index(names: Seq<Seq<char>>, name: Seq<char>, from: int)
    requires
        0 <= from <= names.len(),
    ensures
        from <= key_index(names, name, from) <= names.len(),
        key_index(names, name, from) < names.len() ==> names[key_index(names, name, from)] == name,
        forall|j: int| from <= j < key_index(names, name, from) ==> names[j] != name,
    decreases names.len() - from,
{
    if from < names.len() && names[from] != name {
        lemma_key_index(names, name, from + 1);
    }
}

/// The names of named values, as texts.
pub open spec fn key_texts<V>(entries: Seq<(String, V)>) -> Seq<Seq<char>> {
    entries.map_values(|entry: (String, V)| entry.0@)
}

/// The position of the first entry named `name`, if there is one.
pub fn find_key<V>(entries: &Vec<(String, V)>, name: &str) -> (r: Option<usize>)
    ensures
        match r {
            Some(at) => at < entries.len() && at == key_index(key_texts(entries@), name@, 0),
            None => key_index(key_texts(entries@), name@, 0) == entries.len(),
        },
{
    let mut i: usize = 0;
    while i < entries.len()
        invariant
            i <= entries.len(),
            key_index(key_texts(entries@), name@, 0) == key_index(
                key_texts(entries@),
                name@,
                i as int,
            ),
        decreases entries.len() - i,
    {
        if same_text(entries[i].0.as_str(), name) {
            return Some(i);
        }
        i += 1;
    }
    None
}

/// The text of the cause given where a document was never loaded.
pub open spec fn not_loaded() -> Seq<char> {
    "the document was not loaded"@
}

/// A type of component: it knows its category and where a specification keeps
/// the components and the documents of that category.
pub trait Component: Sized + View {
    /// The category of this type of component.
    spec fn kind_spec() -> RefType;

    /// The components of this category that the specification declares.
    spec fn table(spec: SpecView) -> Seq<(Seq<char>, RefOr<Self::V>)>;

    /// The documents of this category that the specification refers to.
    spec fn loaded(spec: SpecView) -> Seq<(Seq<char>, Result<Self::V, Seq<char>>)>;

    fn kind() -> (k: RefType)
        ensures
            k == Self::kind_spec(),
    ;

    fn components(spec: &Spec) -> (r: Option<&Vec<(String, ObjectOrReference<Self>)>>)
        ensures
            match r {
                Some(entries) => named(entries@) == Self::table(spec@),
                None => Self::table(spec@).len() == 0,
            },
    ;

    fn documents(spec: &Spec) -> (r: &Vec<(String, Result<Self, String>)>)
        ensures
            loaded_views(r@) == Self::loaded(spec@),
    ;
}

/// What the document at `file` holds, read as a component of type `T`.
pub open spec fn document<T: Component>(spec: SpecView, file: Seq<char>) -> Result<
    T::V,
    RefErrorView,
> {
    let documents = T::loaded(spec);
    let at = key_index(names_of(documents), file, 0);
    if at >= documents.len() {
        Err(RefErrorView::UnableToReadFromFile(file, not_loaded()))
    } else {
        match documents[at].1 {
            Ok(component) => Ok(component),
            Err(cause) => Err(RefErrorView::UnableToReadFromFile(file, cause)),
        }
    }
}

/// The component that `path` leads to, where the entries in `unvisited` may
/// still be passed. A reference to a file leads to the document of that
/// path. A reference to a component must name the category of `T`; it leads
/// to the first component of its name, and on from there where that is a
/// reference again, unless that component was passed before.
pub open spec fn resolved<T: Component>(
    spec: SpecView,
    path: Seq<char>,
    unvisited: Set<int>,
) -> Result<T::V, RefErrorView>
    decreases unvisited.len(),
    when unvisited.finite()
{
    match parse_reference(path) {
        Err(e) => Err(e),
        Ok(RefView::Path(file)) => document::<T>(spec, file),
        Ok(RefView::InFile { source, kind, name }) => {
            let table = T::table(spec);
            let at = key_index(names_of(table), name, 0);
            if kind != T::kind_spec() {
                Err(RefErrorView::MismatchedType(kind, T::kind_spec()))
            } else if at >= table.len() {
                Err(RefErrorView::Unresolvable(path))
            } else {
                match table[at].1 {
                    RefOr::Object(component) => Ok(component),
                    RefOr::Ref(next) => if unvisited.contains(at) {
                        resolved::<T>(spec, next, unvisited.remove(at))
                    } else {
                        Err(RefErrorView::CyclicReference(path))
                    },
                }
            }
        },
    }
}

/// The component that `path` leads to.
pub open spec fn resolution<T: Component>(spec: SpecView, path: Seq<char>) -> Result<
    T::V,
    RefErrorView,
> {
    resolved::<T>(spec, path, set_int_range(0, T::table(spec).len() as int))
}

/// The component that a value stands for: itself where it is written out,
/// else what its reference leads to.
pub open spec fn target<T: Component>(value: RefOr<T::V>, spec: SpecView) -> Result<
    T::V,
    RefErrorView,
> {
    match value {
        RefOr::Object(component) => Ok(component),
        RefOr::Ref(path) => resolution::<T>(spec, path),
    }
}

/// A type of component that a reference string can be followed to.
pub trait FromRef: Component {
    /// The component that the reference string `path` leads to.
    fn from_ref<'a>(spec: &'a Spec, path: &str) -> (r: Result<&'a Self, RefError>)
        ensures
            match r {
                Ok(component) => resolution::<Self>(spec@, path@) == Ok::<Self::V, RefErrorView>(
                    component@,
                ),
                Err(e) => resolution::<Self>(spec@, path@) == Err::<Self::V, RefErrorView>(e@),
            },
    ;
}

/// What the document at `path` holds, read as a component of type `T`. The
/// documents are read before a run and kept with the specification; here the
/// one of that path is looked up. A document that was not read, or that could
/// not be read, gives `UnableToReadFromFile` with the path and the cause.
pub fn read_from_file<'a, T: Component>(spec: &'a Spec, path: &str) -> (r: Result<&'a T, RefError>)
    ensures
        match r {
            Ok(component) => document::<T>(spec@, path@) == Ok::<T::V, RefErrorView>(component@),
            Err(e) => document::<T>(spec@, path@) == Err::<T::V, RefErrorView>(e@),
        },
{
    let documents = T::documents(spec);
    assert(names_of(loaded_views(documents@)) =~= key_texts(documents@));
    match find_key(documents, path) {
        None => Err(
            RefError::UnableToReadFromFile(owned(path), owned("the document was not loaded")),
        ),
        Some(at) => match &documents[at].1 {
            Ok(component) => Ok(component),
            Err(cause) => Err(RefError::UnableToReadFromFile(owned(path), cause.clone())),
        },
    }
}

/// Follows the reference string `path` through the components of the
/// specification until it reaches a component that is written out.
pub fn follow<'a, T: Component>(spec: &'a Spec, path: &str) -> (r: Result<&'a T, RefError>)
    ensures
        match r {
            Ok(component) => resolution::<T>(spec@, path@) == Ok::<T::V, RefErrorView>(component@),
            Err(e) => resolution::<T>(spec@, path@) == Err::<T::V, RefErrorView>(e@),
        },
{
    let table = T::components(spec);
    let count: usize = match table {
        Some(entries) => entries.len(),
        None => 0,
    };
    let mut seen: Vec<bool> = vec![false; count];
    let ghost mut unvisited: Set<int> = set_int_range(0, count as int);
    let mut current: &str = path;
    proof {
        lemma_int_range(0, count as int);
    }
    loop
        invariant
            seen.len() == count,
            count == T::table(spec@).len(),
            match table {
                Some(entries) => named(entries@) == T::table(spec@),
                None => T::table(spec@).len() == 0,
            },
            unvisited.finite(),
            forall|i: int| unvisited.contains(i) <==> (0 <= i < count && !seen[i]),
            resolution::<T>(spec@, path@) == resolved::<T>(spec@, current@, unvisited),
        decreases unvisited.len(),
    {
        match Ref::from_str(current) {
            Err(e) => {
                return Err(e);
            },
            Ok(Ref::Path(file)) => {
                return read_from_file::<T>(spec, file.as_str());
            },
            Ok(Ref::InFile { source, kind, name }) => {
                if kind != T::kind() {
                    return Err(RefError::MismatchedType(kind, T::kind()));
                }
                let entries = match table {
                    Some(entries) => entries,
                    None => {
                        return Err(RefError::Unresolvable(owned(current)));
                    },
                };
                assert(names_of(named(entries@)) =~= key_texts(entries@));
                let at = match find_key(entries, name.as_str()) {
                    Some(at) => at,
                    None => {
                        return Err(RefError::Unresolvable(owned(current)));
                    },
                };
                assert(T::table(spec@)[at as int].1 == entries[at as int].1@);
                match &entries[at].1 {
                    ObjectOrReference::Object(component) => {
                        return Ok(component);
                    },
                    ObjectOrReference::Ref { ref_path } => {
                        if seen[at] {
                            return Err(RefError::CyclicReference(owned(current)));
                        }
                        seen.set(at, true);
                        proof {
                            unvisited = unvisited.remove(at as int);
                        }
                        current = ref_path.as_str();
                    },
                }
            },
        }
    }
}

impl<T: FromRef> ObjectOrReference<T> {
    /// The component that this value stands for. One that is written out is
    /// handed back as it is; a reference is followed.
    pub fn resolve<'a>(&'a self, spec: &'a Spec) -> (r: Result<&'a T, RefError>)
        ensures
            match r {
                Ok(component) => target::<T>(self@, spec@) == Ok::<T::V, RefErrorView>(component@),
                Err(e) => target::<T>(self@, spec@) == Err::<T::V, RefErrorView>(e@),
            },
            self is Object ==> r == Ok::<&T, RefError>(&self->Object_0),
    {
        match self {
            ObjectOrReference::Object(component) => Ok(component),
            ObjectOrReference::Ref { ref_path } => T::from_ref(spec, ref_path.as_str()),
        }
    }
}

/// A reference to a component of the expected category under a name that the
/// specification does not declare cannot be resolved.
pub proof fn lemma_absent_is_unresolvable<T: Component>(
    spec: SpecView,
    path: Seq<char>,
    source: Seq<char>,
    category: Seq<char>,
    name: Seq<char>,
)
    requires
        is_component_reference(path, source, category, name),
        category_of(category) == Some(T::kind_spec()),
        key_index(names_of(T::table(spec)), name, 0) == T::table(spec).len(),
    ensures
        resolution::<T>(spec, path) == Err::<T::V, RefErrorView>(RefErrorView::Unresolvable(path)),
{
    lemma_reference_grammar(path, source, category, name);
    lemma_int_range(0, T::table(spec).len() as int);
}

/// A reference to a component of another category than the expected one is a
/// mismatch, whether or not a component of that name exists.
pub proof fn lemma_other_category_is_mismatch<T: Component>(
    spec: SpecView,
    path: Seq<char>,
    source: Seq<char>,
    category: Seq<char>,
    name: Seq<char>,
    kind: RefType,
)
    requires
        is_component_reference(path, source, category, name),
        category_of(category) == Some(kind),
        kind != T::kind_spec(),
    ensures
        resolution::<T>(spec, path) == Err::<T::V, RefErrorView>(
            RefErrorView::MismatchedType(kind, T::kind_spec()),
        ),
{
    lemma_reference_grammar(path, source, category, name);
    lemma_int_range(0, T::table(spec).len() as int);
}

} // verus!
