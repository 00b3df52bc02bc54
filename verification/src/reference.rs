//! References between the parts of a specification: the nine component
//! categories, the grammar of a reference string, and the errors that following
//! a reference can end in.

use vstd::prelude::*;
use vstd::string::*;
use crate::text::{
    chars_of, find_char, index_from, joined, lemma_index_from, lemma_index_from_unique, owned,
    piece, same_text,
};

verus! {

/// The category of a reusable component.
#[derive(Clone, Copy, Debug, PartialEq, Eq, Structural)]
pub enum RefType {
    Schema,
    Response,
    Parameter,
    Example,
    RequestBody,
    Header,
    SecurityScheme,
    Link,
    Callback,
}

/// The category that a keyword of a reference string stands for, if any.
pub open spec fn category_of(word: Seq<char>) -> Option<RefType> {
    if word == "schemas"@ {
        Some(RefType::Schema)
    } else if word == "responses"@ {
        Some(RefType::Response)
    } else if word == "parameters"@ {
        Some(RefType::Parameter)
    } else if word == "examples"@ {
        Some(RefType::Example)
    } else if word == "requestBodies"@ {
        Some(RefType::RequestBody)
    } else if word == "headers"@ {
        Some(RefType::Header)
    } else if word == "securitySchemes"@ {
        Some(RefType::SecurityScheme)
    } else if word == "links"@ {
        Some(RefType::Link)
    } else if word == "callbacks"@ {
        Some(RefType::Callback)
    } else {
        None
    }
}

/// The name under which a category appears in messages.
pub open spec fn kind_name(kind: RefType) -> Seq<char> {
    match kind {
        RefType::Schema => "Schema"@,
        RefType::Response => "Response"@,
        RefType::Parameter => "Parameter"@,
        RefType::Example => "Example"@,
        RefType::RequestBody => "RequestBody"@,
        RefType::Header => "Header"@,
        RefType::SecurityScheme => "SecurityScheme"@,
        RefType::Link => "Link"@,
        RefType::Callback => "Callback"@,
    }
}

/// A component written out where it is used, or a reference to one.
#[derive(Clone, Debug, PartialEq)]
pub enum ObjectOrReference<T> {
    Ref { ref_path: String },
    Object(T),
}

/// What an `ObjectOrReference` holds, as plain values: the text of a
/// reference, or what the component holds.
pub enum RefOr<M> {
    Ref(Seq<char>),
    Object(M),
}

impl<T: View> View for ObjectOrReference<T> {
    type V = RefOr<T::V>;

    open spec fn view(&self) -> RefOr<T::V> {
        match self {
            ObjectOrReference::Ref { ref_path } => RefOr::Ref(ref_path@),
            ObjectOrReference::Object(component) => RefOr::Object(component@),
        }
    }
}

/// Why a reference could not be followed to a component.
#[derive(Clone, Debug, PartialEq)]
pub enum RefError {
    /// The category keyword of the reference is none of the nine known ones.
    InvalidType(String),
    /// The reference names a component of the first category where one of the
    /// second was expected.
    MismatchedType(RefType, RefType),
    /// The document at this path could not be had; the second field says why.
    UnableToReadFromFile(String, String),
    /// No component of that name exists.
    Unresolvable(String),
    /// Following the reference leads back to a component already passed.
    CyclicReference(String),
}

/// What a `RefError` holds, as plain values.
pub enum RefErrorView {
    InvalidType(Seq<char>),
    MismatchedType(RefType, RefType),
    UnableToReadFromFile(Seq<char>, Seq<char>),
    Unresolvable(Seq<char>),
    CyclicReference(Seq<char>),
}

impl View for RefError {
    type V = RefErrorView;

    open spec fn view(&self) -> RefErrorView {
        match self {
            RefError::InvalidType(word) => RefErrorView::InvalidType(word@),
            RefError::MismatchedType(actual, expected) => RefErrorView::MismatchedType(
                *actual,
                *expected,
            ),
            RefError::UnableToReadFromFile(path, cause) => RefErrorView::UnableToReadFromFile(
                path@,
                cause@,
            ),
            RefError::Unresolvable(path) => RefErrorView::Unresolvable(path@),
            RefError::CyclicReference(path) => RefErrorView::CyclicReference(path@),
        }
    }
}

/// The text of the message for an error.
pub open spec fn message_of(error: RefErrorView) -> Seq<char> {
    match error {
        RefErrorView::InvalidType(word) => "Invalid type: "@ + word,
        RefErrorView::MismatchedType(actual, expected) => "Mismatched type: cannot reference a "@
            + kind_name(actual) + " as a "@ + kind_name(expected),
        RefErrorView::UnableToReadFromFile(path, cause) =>
            "Cannot read object from path schema from file: "@ + path + ", orignalerr:"@ + cause,
        RefErrorView::Unresolvable(path) => "Unresolvable path: "@ + path,
        RefErrorView::CyclicReference(path) => "Cyclic reference: "@ + path,
    }
}

impl RefType {
    /// The category that a keyword stands for; `InvalidType` with the keyword
    /// where it stands for none.
    pub fn from_str(typ: &str) -> (r: Result<RefType, RefError>)
        ensures
            match r {
                Ok(kind) => category_of(typ@) == Some(kind),
                Err(e) => category_of(typ@) is None && e@ == RefErrorView::InvalidType(typ@),
            },
    {
        if same_text(typ, "schemas") {
            Ok(RefType::Schema)
        } else if same_text(typ, "responses") {
            Ok(RefType::Response)
        } else if same_text(typ, "parameters") {
            Ok(RefType::Parameter)
        } else if same_text(typ, "examples") {
            Ok(RefType::Example)
        } else if same_text(typ, "requestBodies") {
            Ok(RefType::RequestBody)
        } else if same_text(typ, "headers") {
            Ok(RefType::Header)
        } else if same_text(typ, "securitySchemes") {
            Ok(RefType::SecurityScheme)
        } else if same_text(typ, "links") {
            Ok(RefType::Link)
        } else if same_text(typ, "callbacks") {
            Ok(RefType::Callback)
        } else {
            Err(RefError::InvalidType(owned(typ)))
        }
    }

    /// The name of the category, as messages show it.
    pub fn name(&self) -> (r: String)
        ensures
            r@ == kind_name(*self),
    {
        match self {
            RefType::Schema => owned("Schema"),
            RefType::Response => owned("Response"),
            RefType::Parameter => owned("Parameter"),
            RefType::Example => owned("Example"),
            RefType::RequestBody => owned("RequestBody"),
            RefType::Header => owned("Header"),
            RefType::SecurityScheme => owned("SecurityScheme"),
            RefType::Link => owned("Link"),
            RefType::Callback => owned("Callback"),
        }
    }
}

impl RefError {
    /// The message for this error.
    pub fn message(&self) -> (r: String)
        ensures
            r@ == message_of(self@),
    {
        match self {
            RefError::InvalidType(word) => joined("Invalid type: ", word.as_str()),
            RefError::MismatchedType(actual, expected) => {
                let a = actual.name();
                let e = expected.name();
                let head = joined("Mismatched type: cannot reference a ", a.as_str());
                let mid = joined(head.as_str(), " as a ");
                joined(mid.as_str(), e.as_str())
            },
            RefError::UnableToReadFromFile(path, cause) => {
                let head = joined("Cannot read object from path schema from file: ", path.as_str());
                let mid = joined(head.as_str(), ", orignalerr:");
                joined(mid.as_str(), cause.as_str())
            },
            RefError::Unresolvable(path) => joined("Unresolvable path: ", path.as_str()),
            RefError::CyclicReference(path) => joined("Cyclic reference: ", path.as_str()),
        }
    }
}

/// A reference, told apart by its form: to a component of a document, or to a
/// file.
#[derive(Clone, Debug)]
pub enum Ref {
    InFile { source: String, kind: RefType, name: String },
    Path(String),
}

/// What a `Ref` holds, as plain values.
pub enum RefView {
    InFile { source: Seq<char>, kind: RefType, name: Seq<char> },
    Path(Seq<char>),
}

impl View for Ref {
    type V = RefView;

    open spec fn view(&self) -> RefView {
        match self {
            Ref::InFile { source, kind, name } => RefView::InFile {
                source: source@,
                kind: *kind,
                name: name@,
            },
            Ref::Path(path) => RefView::Path(path@),
        }
    }
}

/// The three parts of a reference to a component.
pub struct RefParts {
    pub source: Seq<char>,
    pub category: Seq<char>,
    pub name: Seq<char>,
}

/// The text between the source document and the category keyword.
pub open spec fn marker() -> Seq<char> {
    seq!['#', '/', 'c', 'o', 'm', 'p', 'o', 'n', 'e', 'n', 't', 's', '/']
}

/// The grammar of a reference to a component: a source without `#`, the
/// marker, a category keyword without `/` that is not empty, a `/`, and a name
/// that is not empty and holds no line feed.
pub open spec fn is_component_reference(
    path: Seq<char>,
    source: Seq<char>,
    category: Seq<char>,
    name: Seq<char>,
) -> bool {
    &&& path == source + marker() + category + seq!['/'] + name
    &&& !source.contains('#')
    &&& category.len() > 0
    &&& !category.contains('/')
    &&& name.len() > 0
    &&& !name.contains('\n')
}

/// The parts of `path` where it is a reference to a component, found from
/// left to right: the source ends at the first `#`, the category at the next
/// `/` behind the marker, and the name is the rest.
pub open spec fn split_reference(path: Seq<char>) -> Option<RefParts> {
    let hash = index_from(path, '#', 0);
    let start = hash + 13;
    let slash = index_from(path, '/', start);
    if start <= path.len() && path.subrange(hash, start) == marker() && start < slash
        && slash + 1 < path.len() && index_from(path, '\n', slash + 1) == path.len() {
        Some(
            RefParts {
                source: path.subrange(0, hash),
                category: path.subrange(start, slash),
                name: path.subrange(slash + 1, path.len() as int),
            },
        )
    } else {
        None
    }
}

/// The reference that a string stands for: one to a component where the string
/// follows the grammar and its keyword is a category, an error where the
/// keyword is none, and a path to a file in every other case.
pub open spec fn parse_reference(path: Seq<char>) -> Result<RefView, RefErrorView> {
    match split_reference(path) {
        None => Ok(RefView::Path(path)),
        Some(parts) => match category_of(parts.category) {
            Some(kind) => Ok(RefView::InFile { source: parts.source, kind, name: parts.name }),
            None => Err(RefErrorView::InvalidType(parts.category)),
        },
    }
}

/// A string splits into three parts exactly if it follows the grammar with
/// those parts: the grammar reads every string in at most one way, and
/// `split_reference` finds that reading.
pub proof fn lemma_reference_grammar(
    path: Seq<char>,
    source: Seq<char>,
    category: Seq<char>,
    name: Seq<char>,
)
    ensures
        is_component_reference(path, source, category, name) <==> split_reference(path) == Some(
            RefParts { source, category, name },
        ),
{
    let hash = index_from(path, '#', 0);
    let start = hash + 13;
    let slash = index_from(path, '/', start);
    lemma_index_from(path, '#', 0);
    if is_component_reference(path, source, category, name) {
        let h = source.len() as int;
        let s = h + 13;
        let t = s + category.len();
        assert(path.len() == t + 1 + name.len());
        assert(path[h] == marker()[0]);
        assert forall|j: int| 0 <= j < h implies path[j] != '#' by {
            assert(path[j] == source[j]);
        }
        lemma_index_from_unique(path, '#', 0, h);
        assert(path.subrange(h, s) =~= marker());
        assert(path[t] == '/');
        assert forall|j: int| s <= j < t implies path[j] != '/' by {
            assert(path[j] == category[j - s]);
        }
        lemma_index_from_unique(path, '/', s, t);
        assert forall|j: int| t + 1 <= j < path.len() implies path[j] != '\n' by {
            assert(path[j] == name[j - t - 1]);
        }
        lemma_index_from_unique(path, '\n', t + 1, path.len() as int);
        assert(path.subrange(0, h) =~= source);
        assert(path.subrange(s, t) =~= category);
        assert(path.subrange(t + 1, path.len() as int) =~= name);
    }
    if split_reference(path) == Some(RefParts { source, category, name }) {
        lemma_index_from(path, '/', start);
        lemma_index_from(path, '\n', slash + 1);
        assert(path =~= source + marker() + category + seq!['/'] + name);
        assert forall|j: int| 0 <= j < source.len() implies source[j] != '#' by {
            assert(source[j] == path[j]);
        }
        assert forall|j: int| 0 <= j < category.len() implies category[j] != '/' by {
            assert(category[j] == path[start + j]);
        }
        assert forall|j: int| 0 <= j < name.len() implies name[j] != '\n' by {
            assert(name[j] == path[slash + 1 + j]);
        }
    }
}

/// Whether the marker stands at position `at`.
fn has_marker(chars: &Vec<char>, at: usize) -> (r: bool)
    requires
        at <= chars.len(),
    ensures
        r == (at + 13 <= chars.len() && chars@.subrange(at as int, at + 13) == marker()),
{
    if chars.len() - at < 13 {
        return false;
    }
    let r = chars[at] == '#' && chars[at + 1] == '/' && chars[at + 2] == 'c' && chars[at + 3] == 'o'
        && chars[at + 4] == 'm' && chars[at + 5] == 'p' && chars[at + 6] == 'o' && chars[at + 7]
        == 'n' && chars[at + 8] == 'e' && chars[at + 9] == 'n' && chars[at + 10] == 't' && chars[at
        + 11] == 's' && chars[at + 12] == '/';
    proof {
        let part = chars@.subrange(at as int, at + 13);
        if r {
            assert(part =~= marker());
        } else {
            assert(part[0] == chars@[at + 0] && part[1] == chars@[at + 1] && part[2] == chars@[at
                + 2] && part[3] == chars@[at + 3] && part[4] == chars@[at + 4] && part[5]
                == chars@[at + 5] && part[6] == chars@[at + 6] && part[7] == chars@[at + 7]
                && part[8] == chars@[at + 8] && part[9] == chars@[at + 9] && part[10] == chars@[at
                + 10] && part[11] == chars@[at + 11] && part[12] == chars@[at + 12]);
        }
    }
    r
}

impl Ref {
    /// Reads a reference string. One that follows the grammar of a reference
    /// to a component gives `InFile`, or `InvalidType` where its keyword is no
    /// category; every other string is the path of a file.
    pub fn from_str(path: &str) -> (r: Result<Ref, RefError>)
        ensures
            match r {
                Ok(reference) => parse_reference(path@) == Ok::<RefView, RefErrorView>(reference@),
                Err(e) => parse_reference(path@) == Err::<RefView, RefErrorView>(e@),
            },
    {
        let chars = chars_of(path);
        let n = chars.len();
        let hash = find_char(&chars, '#', 0);
        if !has_marker(&chars, hash) {
            return Ok(Ref::Path(owned(path)));
        }
        let start = hash + 13;
        let slash = find_char(&chars, '/', start);
        if slash == start || n - slash < 2 {
            return Ok(Ref::Path(owned(path)));
        }
        let line_feed = find_char(&chars, '\n', slash + 1);
        if line_feed != n {
            return Ok(Ref::Path(owned(path)));
        }
        let category = piece(path, start, slash);
        match RefType::from_str(category.as_str()) {
            Ok(kind) => Ok(
                Ref::InFile { source: piece(path, 0, hash), kind, name: piece(path, slash + 1, n) },
            ),
            Err(e) => Err(e),
        }
    }
}

} // verus!
