//! The keys under which a struct's fields are put into a string map: the
//! field's name, or the name given by a `rename = "..."` attribute argument.
use vstd::prelude::*;
use crate::text::text_equals;

verus! {

/// One argument inside a list attribute such as `#[serde(rename = "x")]`.
pub enum NestedArg {
    /// `path = literal`: the path when it is a single identifier, and the
    /// literal's text when it is a string literal.
    NameValue { path: Option<String>, literal: Option<String> },
    /// Any other argument.
    Other,
}

/// One attribute of a field.
pub enum FieldAttr {
    /// A list attribute `#[name(args...)]`.
    List(Vec<NestedArg>),
    /// Any other attribute.
    Other,
}

/// A named field with its attributes, in source order.
pub struct FieldDecl {
    pub name: String,
    pub attrs: Vec<FieldAttr>,
}

/// The spec form of a `NestedArg`.
pub enum NestedArgView {
    NameValue { path: Option<Seq<char>>, literal: Option<Seq<char>> },
    Other,
}

pub open spec fn opt_view(o: Option<String>) -> Option<Seq<char>> {
    match o {
        Some(s) => Some(s@),
        None => None,
    }
}

pub open spec fn nested_view(a: NestedArg) -> NestedArgView {
    match a {
        NestedArg::NameValue { path, literal } => NestedArgView::NameValue {
            path: opt_view(path),
            literal: opt_view(literal),
        },
        NestedArg::Other => NestedArgView::Other,
    }
}

pub open spec fn nested_views(args: Seq<NestedArg>) -> Seq<NestedArgView> {
    Seq::new(args.len(), |i: int| nested_view(args[i]))
}

/// What the arguments of one list attribute say about a rename.
pub enum RenameScan {
    /// `rename = "name"` came first among the name-value arguments.
    Rename(Seq<char>),
    /// No rename: the first name-value argument is something else, or there
    /// is none, or its value is not a string literal.
    NoRename,
    /// A name-value argument whose path is not a single identifier came first.
    BadPath,
}

/// Reads the arguments of a list attribute in order, up to the first
/// name-value argument, which decides.
pub open spec fn scan_args(args: Seq<NestedArgView>) -> RenameScan
    decreases args.len(),
{
    if args.len() == 0 {
        RenameScan::NoRename
    } else {
        match args[0] {
            NestedArgView::NameValue { path, literal } => match path {
                None => RenameScan::BadPath,
                Some(p) => if p != "rename"@ {
                    RenameScan::NoRename
                } else {
                    match literal {
                        Some(s) => RenameScan::Rename(s),
                        None => RenameScan::NoRename,
                    }
                },
            },
            NestedArgView::Other => scan_args(args.drop_first()),
        }
    }
}

/// The spec form of a `FieldAttr`.
pub enum FieldAttrView {
    List(Seq<NestedArgView>),
    Other,
}

pub open spec fn attr_view(a: FieldAttr) -> FieldAttrView {
    match a {
        FieldAttr::List(args) => FieldAttrView::List(nested_views(args@)),
        FieldAttr::Other => FieldAttrView::Other,
    }
}

pub open spec fn attr_views(attrs: Seq<FieldAttr>) -> Seq<FieldAttrView> {
    Seq::new(attrs.len(), |i: int| attr_view(attrs[i]))
}

/// Why the keys cannot be made, naming the field.
#[derive(Debug)]
pub enum KeyError {
    /// A field has another attribute after one that renamed it.
    AlreadyDefined(String),
    /// A field has a name-value argument whose path is not an identifier.
    PathNotIdent(String),
}

/// The spec form of a `KeyError`.
pub enum KeyErrorView {
    AlreadyDefined(Seq<char>),
    PathNotIdent(Seq<char>),
}

pub open spec fn key_error_view(e: KeyError) -> KeyErrorView {
    match e {
        KeyError::AlreadyDefined(n) => KeyErrorView::AlreadyDefined(n@),
        KeyError::PathNotIdent(n) => KeyErrorView::PathNotIdent(n@),
    }
}

/// What `scan_list` found, with the rename as a `String`.
enum Scanned {
    Rename(String),
    NoRename,
    BadPath,
}

spec fn scanned_view(s: Scanned) -> RenameScan {
    match s {
        Scanned::Rename(n) => RenameScan::Rename(n@),
        Scanned::NoRename => RenameScan::NoRename,
        Scanned::BadPath => RenameScan::BadPath,
    }
}

/// The rename of a field, reading its attributes from `i` on, with the
/// rename found so far. Any attribute after a rename is an error.
pub open spec fn field_rename(
    name: Seq<char>,
    attrs: Seq<FieldAttrView>,
    i: int,
    renamed: Option<Seq<char>>,
) -> Result<Option<Seq<char>>, KeyErrorView>
    decreases attrs.len() - i,
{
    if i >= attrs.len() || i < 0 {
        Ok(renamed)
    } else if renamed is Some {
        Err(KeyErrorView::AlreadyDefined(name))
    } else {
        match attrs[i] {
            FieldAttrView::List(args) => match scan_args(args) {
                RenameScan::BadPath => Err(KeyErrorView::PathNotIdent(name)),
                RenameScan::Rename(s) => field_rename(name, attrs, i + 1, Some(s)),
                RenameScan::NoRename => field_rename(name, attrs, i + 1, None),
            },
            FieldAttrView::Other => field_rename(name, attrs, i + 1, renamed),
        }
    }
}

/// The key of a field: its rename, or else its own name.
pub open spec fn field_key(f: FieldDecl) -> Result<Seq<char>, KeyErrorView> {
    match field_rename(f.name@, attr_views(f.attrs@), 0, None) {
        Ok(Some(s)) => Ok(s),
        Ok(None) => Ok(f.name@),
        Err(e) => Err(e),
    }
}

/// The keys of the fields in order, or the error of the first field that has one.
pub open spec fn field_keys(fields: Seq<FieldDecl>) -> Result<Seq<Seq<char>>, KeyErrorView>
    decreases fields.len(),
{
    if fields.len() == 0 {
        Ok(Seq::empty())
    } else {
        match field_keys(fields.drop_last()) {
            Err(e) => Err(e),
            Ok(keys) => match field_key(fields.last()) {
                Err(e) => Err(e),
                Ok(k) => Ok(keys.push(k)),
            },
        }
    }
}

/// The names of the fields, in order.
pub open spec fn field_names(fields: Seq<FieldDecl>) -> Seq<Seq<char>> {
    Seq::new(fields.len(), |i: int| fields[i].name@)
}

/// A field attribute that is not a list says nothing of a rename.
pub open spec fn plain_attrs(attrs: Seq<FieldAttr>) -> bool {
    forall|j: int| 0 <= j < attrs.len() ==> #[trigger] attrs[j] is Other
}

proof fn lemma_plain_attrs_no_rename(name: Seq<char>, attrs: Seq<FieldAttr>, i: int)
    requires
        0 <= i,
        plain_attrs(attrs),
    ensures
        field_rename(name, attr_views(attrs), i, None) == Ok::<Option<Seq<char>>, KeyErrorView>(None),
    decreases attrs.len() - i,
{
    if i < attrs.len() {
        assert(attrs[i] is Other);
        lemma_plain_attrs_no_rename(name, attrs, i + 1);
    }
}

/// A struct whose fields carry no list attribute is keyed by its field names.
pub proof fn lemma_plain_fields_keep_names(fields: Seq<FieldDecl>)
    requires
        forall|i: int| 0 <= i < fields.len() ==> plain_attrs(#[trigger] fields[i].attrs@),
    ensures
        field_keys(fields) == Ok::<Seq<Seq<char>>, KeyErrorView>(field_names(fields)),
    decreases fields.len(),
{
    if fields.len() > 0 {
        let init = fields.drop_last();
        assert forall|i: int| 0 <= i < init.len() implies plain_attrs(#[trigger] init[i].attrs@) by {
            assert(init[i] == fields[i]);
        }
        lemma_plain_fields_keep_names(init);
        assert(plain_attrs(fields[fields.len() - 1].attrs@));
        lemma_plain_attrs_no_rename(fields.last().name@, fields.last().attrs@, 0);
        assert(field_key(fields.last()) == Ok::<Seq<char>, KeyErrorView>(fields.last().name@));
        assert(field_names(init).push(fields.last().name@) =~= field_names(fields));
    } else {
        assert(field_names(fields) =~= Seq::<Seq<char>>::empty());
    }
}

/// When the keys can be made, there is one per field, in field order, and each
/// is that field's own key.
pub proof fn lemma_one_key_per_field(fields: Seq<FieldDecl>)
    requires
        field_keys(fields) is Ok,
    ensures
        field_keys(fields)->Ok_0.len() == fields.len(),
        forall|i: int|
            0 <= i < fields.len() ==> field_key(#[trigger] fields[i]) == Ok::<
                Seq<char>,
                KeyErrorView,
            >(field_keys(fields)->Ok_0[i]),
    decreases fields.len(),
{
    if fields.len() > 0 {
        let init = fields.drop_last();
        lemma_one_key_per_field(init);
        assert forall|i: int| 0 <= i < fields.len() implies field_key(#[trigger] fields[i]) == Ok::<
            Seq<char>,
            KeyErrorView,
        >(field_keys(fields)->Ok_0[i]) by {
            if i < init.len() {
                assert(init[i] == fields[i]);
            }
        }
    }
}

/// Arguments that are not name-value pairs (bare flags and the like) do not
/// decide whether a list renames: the scan reads past them.
pub proof fn lemma_scan_skips_other_arguments(rest: Seq<NestedArgView>)
    ensures
        scan_args(seq![NestedArgView::Other] + rest) == scan_args(rest),
{
    assert((seq![NestedArgView::Other] + rest).drop_first() =~= rest);
}

/// The first name-value argument of a list decides: when all arguments
/// before position `i` are not name-value pairs and the one at `i` is
/// `rename = "s"`, the list renames to `s`.
pub proof fn lemma_first_rename_decides(args: Seq<NestedArgView>, i: int, s: Seq<char>)
    requires
        0 <= i < args.len(),
        forall|j: int| 0 <= j < i ==> #[trigger] args[j] is Other,
        args[i] == (NestedArgView::NameValue { path: Some("rename"@), literal: Some(s) }),
    ensures
        scan_args(args) == RenameScan::Rename(s),
    decreases i,
{
    if i > 0 {
        assert(args[0] is Other);
        let rest = args.drop_first();
        assert forall|j: int| 0 <= j < i - 1 implies #[trigger] rest[j] is Other by {
            assert(rest[j] == args[j + 1]);
        }
        assert(rest[i - 1] == args[i]);
        lemma_first_rename_decides(rest, i - 1, s);
    }
}

/// A field whose one attribute is a list whose first name-value argument is
/// `rename = "s"` is keyed by `s`, whatever bare arguments come before it.
pub proof fn lemma_renamed_field_key(f: FieldDecl, i: int, s: Seq<char>)
    requires
        f.attrs@.len() == 1,
        f.attrs@[0] matches FieldAttr::List(args) && 0 <= i < args@.len() && (forall|j: int|
            0 <= j < i ==> #[trigger] nested_view(args@[j]) is Other) && nested_view(args@[i])
            == (NestedArgView::NameValue { path: Some("rename"@), literal: Some(s) }),
    ensures
        field_key(f) == Ok::<Seq<char>, KeyErrorView>(s),
{
    let args = f.attrs@[0]->List_0;
    let views = nested_views(args@);
    assert forall|j: int| 0 <= j < i implies #[trigger] views[j] is Other by {
        assert(views[j] == nested_view(args@[j]));
    }
    assert(views[i] == nested_view(args@[i]));
    lemma_first_rename_decides(views, i, s);
    let attrs = attr_views(f.attrs@);
    assert(attrs[0] == attr_view(f.attrs@[0]));
    assert(field_rename(f.name@, attrs, 1, Some(s)) == Ok::<Option<Seq<char>>, KeyErrorView>(
        Some(s),
    ));
}

fn scan_list(args: &Vec<NestedArg>) -> (r: Scanned)
    ensures
        scanned_view(r) == scan_args(nested_views(args@)),
{
    let ghost views = nested_views(args@);
    assert(views.skip(0) =~= views);
    let mut i: usize = 0;
    while i < args.len()
        invariant
            i <= args.len(),
            views == nested_views(args@),
            scan_args(views) == scan_args(views.skip(i as int)),
        decreases args.len() - i,
    {
        assert(views.skip(i as int)[0] == nested_view(args@[i as int]));
        match &args[i] {
            NestedArg::NameValue { path, literal } => {
                match path {
                    None => return Scanned::BadPath,
                    Some(p) => {
                        if !text_equals(p.as_str(), "rename") {
                            return Scanned::NoRename;
                        }
                        match literal {
                            Some(s) => return Scanned::Rename(s.clone()),
                            None => return Scanned::NoRename,
                        }
                    },
                }
            },
            NestedArg::Other => {
                assert(views.skip(i as int).drop_first() =~= views.skip(i + 1));
            },
        }
        i = i + 1;
    }
    assert(views.skip(i as int).len() == 0);
    Scanned::NoRename
}

fn key_of_field(f: &FieldDecl) -> (r: Result<String, KeyError>)
    ensures
        match field_key(*f) {
            Ok(k) => r matches Ok(s) && s@ == k,
            Err(e) => r matches Err(e2) && key_error_view(e2) == e,
        },
{
    let ghost attrs = attr_views(f.attrs@);
    let mut renamed: Option<String> = None;
    let mut i: usize = 0;
    while i < f.attrs.len()
        invariant
            i <= f.attrs.len(),
            attrs == attr_views(f.attrs@),
            field_rename(f.name@, attrs, 0, None) == field_rename(f.name@, attrs, i as int, opt_view(renamed)),
        decreases f.attrs.len() - i,
    {
        if renamed.is_some() {
            return Err(KeyError::AlreadyDefined(f.name.clone()));
        }
        assert(attrs[i as int] == attr_view(f.attrs@[i as int]));
        match &f.attrs[i] {
            FieldAttr::List(args) => {
                match scan_list(args) {
                    Scanned::BadPath => return Err(KeyError::PathNotIdent(f.name.clone())),
                    Scanned::Rename(found) => {
                        renamed = Some(found);
                    },
                    Scanned::NoRename => {
                        renamed = None;
                    },
                }
            },
            FieldAttr::Other => {},
        }
        i = i + 1;
    }
    match renamed {
        Some(s) => Ok(s),
        None => Ok(f.name.clone()),
    }
}

/// The keys under which the fields go into a string map, in field order.
pub fn hashmap_keys(fields: &Vec<FieldDecl>) -> (r: Result<Vec<String>, KeyError>)
    ensures
        match field_keys(fields@) {
            Ok(keys) => r matches Ok(v) && v.deep_view() == keys,
            Err(e) => r matches Err(e2) && key_error_view(e2) == e,
        },
{
    let mut keys: Vec<String> = Vec::new();
    assert(fields@.take(0) =~= Seq::<FieldDecl>::empty());
    assert(keys.deep_view() =~= Seq::<Seq<char>>::empty());
    let mut i: usize = 0;
    while i < fields.len()
        invariant
            i <= fields.len(),
            field_keys(fields@.take(i as int)) == Ok::<Seq<Seq<char>>, KeyErrorView>(keys.deep_view()),
        decreases fields.len() - i,
    {
        assert(fields@.take(i + 1).drop_last() =~= fields@.take(i as int));
        assert(fields@.take(i + 1).last() == fields@[i as int]);
        match key_of_field(&fields[i]) {
            Ok(k) => {
                let ghost before = keys.deep_view();
                keys.push(k);
                assert(keys.deep_view() =~= before.push(k@));
            },
            Err(e) => {
                proof {
                    lemma_keys_error_persists(fields@, i as int + 1);
                }
                return Err(e);
            },
        }
        i = i + 1;
    }
    assert(fields@.take(fields.len() as int) =~= fields@);
    Ok(keys)
}

/// Once a prefix of the fields has an error, every longer prefix has the same.
proof fn lemma_keys_error_persists(fields: Seq<FieldDecl>, n: int)
    requires
        0 <= n <= fields.len(),
        field_keys(fields.take(n)) is Err,
    ensures
        field_keys(fields) == field_keys(fields.take(n)),
    decreases fields.len() - n,
{
    if n < fields.len() {
        assert(fields.take(n + 1).drop_last() =~= fields.take(n));
        lemma_keys_error_persists(fields, n + 1);
    } else {
        assert(fields.take(n) =~= fields);
    }
}

} // verus!
