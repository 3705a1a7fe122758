//! Reading the two kinds of configuration file.
//!
//! The TOML syntax is the `toml` crate's business: it turns the text into a
//! tree of values. Which fields a file must and may have, and what they
//! mean, is decided here.

use vstd::prelude::*;
use vstd::string::*;
use crate::config::{
    exports_view, opt_chars, projects_view, spec_from_fields, Collection, CollectionView,
    ConfigError, ConfigErrorView, Export, ExportView, Project, ProjectInfo, ProjectInfoView,
    ProjectView,
};

verus! {

/// A value of a TOML document: a text, a number, a list, a table.
#[verifier::external_type_specification]
#[verifier::external_body]
pub struct ExTomlValue(toml::Value);

/// What the parser says of a text that it rejects.
#[verifier::external_type_specification]
#[verifier::external_body]
pub struct ExTomlError(toml::de::Error);

/// The document that `text` is, as its top table; `None` where `text` is
/// not a well-formed document.
pub uninterp spec fn toml_document(text: Seq<char>) -> Option<toml::Value>;

/// The value that the table `value` holds under `key`; `None` where
/// `value` is no table or has no such key.
pub uninterp spec fn toml_member(value: toml::Value, key: Seq<char>) -> Option<toml::Value>;

/// The characters of `value` where it is a text; `None` where it is not.
pub uninterp spec fn toml_text(value: toml::Value) -> Option<Seq<char>>;

/// The items of `value` where it is a list; `None` where it is not.
pub uninterp spec fn toml_items(value: toml::Value) -> Option<Seq<toml::Value>>;

/// Parses `text` with `toml::Table`'s `FromStr`, and hands the table on as
/// a value. Claimed: whether the text is accepted, and the table that it
/// gives, depend on the text alone.
#[verifier::external_body]
fn parse_document(text: &str) -> (r: Result<toml::Value, toml::de::Error>)
    ensures
        r is Ok <==> toml_document(text@) is Some,
        r is Ok ==> toml_document(text@) == Some(r->Ok_0),
{
    text.parse::<toml::Table>().map(toml::Value::Table)
}

/// Calls `toml::de::Error::message`, which says what went wrong. Nothing
/// is claimed of the text.
#[verifier::external_body]
fn complaint(error: &toml::de::Error) -> (r: String) {
    error.message().to_string()
}

/// Calls `toml::Value::get` with a string key: the entry of a table, and
/// `None` for a key that the table lacks and for a value that is no table.
#[verifier::external_body]
fn member<'a>(value: &'a toml::Value, key: &str) -> (r: Option<&'a toml::Value>)
    ensures
        match r {
            Some(v) => toml_member(*value, key@) == Some(*v),
            None => toml_member(*value, key@) is None,
        },
{
    value.get(key)
}

/// Calls `toml::Value::as_str`: the text of a string value, `None` for
/// every other kind of value.
#[verifier::external_body]
fn text_of<'a>(value: &'a toml::Value) -> (r: Option<&'a str>)
    ensures
        match r {
            Some(s) => toml_text(*value) == Some(s@),
            None => toml_text(*value) is None,
        },
{
    value.as_str()
}

/// Calls `toml::Value::as_array`: the items of an array value, `None` for
/// every other kind of value.
#[verifier::external_body]
fn items_of<'a>(value: &'a toml::Value) -> (r: Option<&'a Vec<toml::Value>>)
    ensures
        match r {
            Some(items) => toml_items(*value) == Some(items@),
            None => toml_items(*value) is None,
        },
{
    value.as_array()
}

/// The text that `table` must hold under `key`.
pub open spec fn spec_required_text(table: toml::Value, key: Seq<char>) -> Result<
    Seq<char>,
    ConfigErrorView,
> {
    match toml_member(table, key) {
        None => Err(ConfigErrorView::MissingField { field: key }),
        Some(v) => match toml_text(v) {
            None => Err(ConfigErrorView::WrongType { field: key }),
            Some(s) => Ok(s),
        },
    }
}

/// The text that `table` may hold under `key`.
pub open spec fn spec_optional_text(table: toml::Value, key: Seq<char>) -> Result<
    Option<Seq<char>>,
    ConfigErrorView,
> {
    match toml_member(table, key) {
        None => Ok(None),
        Some(v) => match toml_text(v) {
            None => Err(ConfigErrorView::WrongType { field: key }),
            Some(s) => Ok(Some(s)),
        },
    }
}

/// The list that `table` must hold under `key`.
pub open spec fn spec_required_items(table: toml::Value, key: Seq<char>) -> Result<
    Seq<toml::Value>,
    ConfigErrorView,
> {
    match toml_member(table, key) {
        None => Err(ConfigErrorView::MissingField { field: key }),
        Some(v) => match toml_items(v) {
            None => Err(ConfigErrorView::WrongType { field: key }),
            Some(items) => Ok(items),
        },
    }
}

/// The export that a table describes: a `path` and a `name`.
pub open spec fn spec_export(value: toml::Value) -> Result<ExportView, ConfigErrorView> {
    match spec_required_text(value, "path"@) {
        Err(e) => Err(e),
        Ok(path) => match spec_required_text(value, "name"@) {
            Err(e) => Err(e),
            Ok(name) => Ok(ExportView { path, name }),
        },
    }
}

/// The exports that a list describes, or what is wrong with the first item
/// that describes none.
pub open spec fn spec_exports(items: Seq<toml::Value>) -> Result<Seq<ExportView>, ConfigErrorView>
    decreases items.len(),
{
    if items.len() == 0 {
        Ok(Seq::<ExportView>::empty())
    } else {
        match spec_exports(items.drop_last()) {
            Err(e) => Err(e),
            Ok(before) => match spec_export(items.last()) {
                Err(e) => Err(e),
                Ok(export) => Ok(before.push(export)),
            },
        }
    }
}

/// The project that a document describes: a `docker` file and a list of
/// `exports`. Other fields are passed over.
pub open spec fn spec_project(doc: toml::Value) -> Result<ProjectView, ConfigErrorView> {
    match spec_required_text(doc, "docker"@) {
        Err(e) => Err(e),
        Ok(docker) => match spec_required_items(doc, "exports"@) {
            Err(e) => Err(e),
            Ok(items) => match spec_exports(items) {
                Err(e) => Err(e),
                Ok(exports) => Ok(ProjectView { docker, exports }),
            },
        },
    }
}

/// The reference that a table describes: `build_file` and `out_path`, and
/// at most one of `git_rel` and `git_url`.
pub open spec fn spec_reference(value: toml::Value) -> Result<ProjectInfoView, ConfigErrorView> {
    match spec_optional_text(value, "git_rel"@) {
        Err(e) => Err(e),
        Ok(git_rel) => match spec_optional_text(value, "git_url"@) {
            Err(e) => Err(e),
            Ok(git_url) => match spec_required_text(value, "build_file"@) {
                Err(e) => Err(e),
                Ok(build_file) => match spec_required_text(value, "out_path"@) {
                    Err(e) => Err(e),
                    Ok(out_path) => spec_from_fields(git_rel, git_url, build_file, out_path),
                },
            },
        },
    }
}

/// The references that a list describes, or what is wrong with the first
/// item that describes none.
pub open spec fn spec_references(items: Seq<toml::Value>) -> Result<
    Seq<ProjectInfoView>,
    ConfigErrorView,
>
    decreases items.len(),
{
    if items.len() == 0 {
        Ok(Seq::<ProjectInfoView>::empty())
    } else {
        match spec_references(items.drop_last()) {
            Err(e) => Err(e),
            Ok(before) => match spec_reference(items.last()) {
                Err(e) => Err(e),
                Ok(reference) => Ok(before.push(reference)),
            },
        }
    }
}

/// The collection that a document describes: a list of `projects`, and a
/// `git_base` if it sets one.
pub open spec fn spec_collection(doc: toml::Value) -> Result<CollectionView, ConfigErrorView> {
    match spec_optional_text(doc, "git_base"@) {
        Err(e) => Err(e),
        Ok(git_base) => match spec_required_items(doc, "projects"@) {
            Err(e) => Err(e),
            Ok(items) => match spec_references(items) {
                Err(e) => Err(e),
                Ok(projects) => Ok(CollectionView { git_base, projects }),
            },
        },
    }
}

/// A parsed project or its error, by their views.
pub open spec fn project_outcome(r: Result<Project, ConfigError>) -> Result<
    ProjectView,
    ConfigErrorView,
> {
    match r {
        Ok(p) => Ok(p@),
        Err(e) => Err(e@),
    }
}

/// A parsed collection or its error, by their views.
pub open spec fn collection_outcome(r: Result<Collection, ConfigError>) -> Result<
    CollectionView,
    ConfigErrorView,
> {
    match r {
        Ok(c) => Ok(c@),
        Err(e) => Err(e@),
    }
}

fn required_text(table: &toml::Value, key: &str) -> (r: Result<String, ConfigError>)
    ensures
        match r {
            Ok(s) => spec_required_text(*table, key@) == Ok::<Seq<char>, ConfigErrorView>(s@),
            Err(e) => spec_required_text(*table, key@) == Err::<Seq<char>, ConfigErrorView>(e@),
        },
{
    match member(table, key) {
        None => Err(ConfigError::MissingField { field: String::from_str(key) }),
        Some(v) => match text_of(v) {
            None => Err(ConfigError::WrongType { field: String::from_str(key) }),
            Some(s) => Ok(String::from_str(s)),
        },
    }
}

fn optional_text(table: &toml::Value, key: &str) -> (r: Result<Option<String>, ConfigError>)
    ensures
        match r {
            Ok(s) => spec_optional_text(*table, key@) == Ok::<Option<Seq<char>>, ConfigErrorView>(
                opt_chars(s),
            ),
            Err(e) => spec_optional_text(*table, key@) == Err::<
                Option<Seq<char>>,
                ConfigErrorView,
            >(e@),
        },
{
    match member(table, key) {
        None => Ok(None),
        Some(v) => match text_of(v) {
            None => Err(ConfigError::WrongType { field: String::from_str(key) }),
            Some(s) => Ok(Some(String::from_str(s))),
        },
    }
}

fn required_items<'a>(table: &'a toml::Value, key: &str) -> (r: Result<
    &'a Vec<toml::Value>,
    ConfigError,
>)
    ensures
        match r {
            Ok(items) => spec_required_items(*table, key@) == Ok::<
                Seq<toml::Value>,
                ConfigErrorView,
            >(items@),
            Err(e) => spec_required_items(*table, key@) == Err::<
                Seq<toml::Value>,
                ConfigErrorView,
            >(e@),
        },
{
    match member(table, key) {
        None => Err(ConfigError::MissingField { field: String::from_str(key) }),
        Some(v) => match items_of(v) {
            None => Err(ConfigError::WrongType { field: String::from_str(key) }),
            Some(items) => Ok(items),
        },
    }
}

/// Reads one export from an item of `exports`.
pub fn export_from_value(value: &toml::Value) -> (r: Result<Export, ConfigError>)
    ensures
        match r {
            Ok(x) => spec_export(*value) == Ok::<ExportView, ConfigErrorView>(x@),
            Err(e) => spec_export(*value) == Err::<ExportView, ConfigErrorView>(e@),
        },
{
    match required_text(value, "path") {
        Err(e) => Err(e),
        Ok(path) => match required_text(value, "name") {
            Err(e) => Err(e),
            Ok(name) => Ok(Export { path, name }),
        },
    }
}

/// Reads one reference from an item of `projects`. The two git fields are
/// checked against each other here, while the reference is read.
pub fn reference_from_value(value: &toml::Value) -> (r: Result<ProjectInfo, ConfigError>)
    ensures
        match r {
            Ok(p) => spec_reference(*value) == Ok::<ProjectInfoView, ConfigErrorView>(p@),
            Err(e) => spec_reference(*value) == Err::<ProjectInfoView, ConfigErrorView>(e@),
        },
{
    match optional_text(value, "git_rel") {
        Err(e) => Err(e),
        Ok(git_rel) => match optional_text(value, "git_url") {
            Err(e) => Err(e),
            Ok(git_url) => match required_text(value, "build_file") {
                Err(e) => Err(e),
                Ok(build_file) => match required_text(value, "out_path") {
                    Err(e) => Err(e),
                    Ok(out_path) => ProjectInfo::from_fields(git_rel, git_url, build_file, out_path),
                },
            },
        },
    }
}

/// Reads a project's build description from a parsed document.
pub fn project_from_document(doc: &toml::Value) -> (r: Result<Project, ConfigError>)
    ensures
        project_outcome(r) == spec_project(*doc),
{
    let docker = match required_text(doc, "docker") {
        Err(e) => { return Err(e); },
        Ok(docker) => docker,
    };
    let items = match required_items(doc, "exports") {
        Err(e) => { return Err(e); },
        Ok(items) => items,
    };
    let n: usize = items.len();
    let mut exports: Vec<Export> = Vec::new();
    let mut i: usize = 0;
    assert(items@.take(0) =~= Seq::<toml::Value>::empty());
    assert(exports_view(exports@) =~= Seq::<ExportView>::empty());
    while i < n
        invariant
            i <= n,
            n == items@.len(),
            spec_required_text(*doc, "docker"@) == Ok::<Seq<char>, ConfigErrorView>(docker@),
            spec_required_items(*doc, "exports"@) == Ok::<Seq<toml::Value>, ConfigErrorView>(
                items@,
            ),
            spec_exports(items@.take(i as int)) == Ok::<Seq<ExportView>, ConfigErrorView>(
                exports_view(exports@),
            ),
        decreases n - i,
    {
        let ghost before = exports_view(exports@);
        proof {
            assert(items@.take(i + 1).drop_last() =~= items@.take(i as int));
            assert(items@.take(i + 1).last() == items@[i as int]);
        }
        match export_from_value(&items[i]) {
            Err(e) => {
                proof {
                    assert(spec_exports(items@.take(i + 1)) == Err::<
                        Seq<ExportView>,
                        ConfigErrorView,
                    >(e@));
                    lemma_exports_fail_early(items@, i + 1);
                }
                return Err(e);
            },
            Ok(x) => {
                exports.push(x);
                assert(exports_view(exports@) =~= before.push(x@));
            },
        }
        i += 1;
    }
    assert(items@.take(n as int) =~= items@);
    Ok(Project { docker, exports })
}

/// Reads a collection from a parsed document.
pub fn collection_from_document(doc: &toml::Value) -> (r: Result<Collection, ConfigError>)
    ensures
        collection_outcome(r) == spec_collection(*doc),
{
    let git_base = match optional_text(doc, "git_base") {
        Err(e) => { return Err(e); },
        Ok(git_base) => git_base,
    };
    let items = match required_items(doc, "projects") {
        Err(e) => { return Err(e); },
        Ok(items) => items,
    };
    let n: usize = items.len();
    let mut projects: Vec<ProjectInfo> = Vec::new();
    let mut i: usize = 0;
    assert(items@.take(0) =~= Seq::<toml::Value>::empty());
    assert(projects_view(projects@) =~= Seq::<ProjectInfoView>::empty());
    while i < n
        invariant
            i <= n,
            n == items@.len(),
            spec_optional_text(*doc, "git_base"@) == Ok::<Option<Seq<char>>, ConfigErrorView>(
                opt_chars(git_base),
            ),
            spec_required_items(*doc, "projects"@) == Ok::<Seq<toml::Value>, ConfigErrorView>(
                items@,
            ),
            spec_references(items@.take(i as int)) == Ok::<Seq<ProjectInfoView>, ConfigErrorView>(
                projects_view(projects@),
            ),
        decreases n - i,
    {
        let ghost before = projects_view(projects@);
        proof {
            assert(items@.take(i + 1).drop_last() =~= items@.take(i as int));
            assert(items@.take(i + 1).last() == items@[i as int]);
        }
        match reference_from_value(&items[i]) {
            Err(e) => {
                proof {
                    assert(spec_references(items@.take(i + 1)) == Err::<
                        Seq<ProjectInfoView>,
                        ConfigErrorView,
                    >(e@));
                    lemma_references_fail_early(items@, i + 1);
                }
                return Err(e);
            },
            Ok(p) => {
                projects.push(p);
                assert(projects_view(projects@) =~= before.push(p@));
            },
        }
        i += 1;
    }
    assert(items@.take(n as int) =~= items@);
    Ok(Collection { git_base, projects })
}

/// An item that is no export fails the whole list, with its own error,
/// whatever follows it.
pub proof fn lemma_exports_fail_early(items: Seq<toml::Value>, k: int)
    requires
        0 <= k <= items.len(),
        spec_exports(items.take(k)) is Err,
    ensures
        spec_exports(items) == spec_exports(items.take(k)),
    decreases items.len() - k,
{
    if k < items.len() {
        assert(items.take(k + 1).drop_last() =~= items.take(k));
        lemma_exports_fail_early(items, k + 1);
    } else {
        assert(items.take(k) =~= items);
    }
}

/// An item that is no reference fails the whole list, with its own error,
/// whatever follows it.
pub proof fn lemma_references_fail_early(items: Seq<toml::Value>, k: int)
    requires
        0 <= k <= items.len(),
        spec_references(items.take(k)) is Err,
    ensures
        spec_references(items) == spec_references(items.take(k)),
    decreases items.len() - k,
{
    if k < items.len() {
        assert(items.take(k + 1).drop_last() =~= items.take(k));
        lemma_references_fail_early(items, k + 1);
    } else {
        assert(items.take(k) =~= items);
    }
}

/// Parses a project's build description.
///
/// A text that is no well-formed document gives a syntax error; a document
/// gives what [`project_from_document`] makes of it.
pub fn parse_project(text: &str) -> (r: Result<Project, ConfigError>)
    ensures
        match toml_document(text@) {
            Some(doc) => project_outcome(r) == spec_project(doc),
            None => r is Err && r->Err_0@ is Syntax,
        },
{
    match parse_document(text) {
        Err(e) => Err(ConfigError::Syntax { message: complaint(&e) }),
        Ok(doc) => project_from_document(&doc),
    }
}

/// Parses a collection.
///
/// A text that is no well-formed document gives a syntax error; a document
/// gives what [`collection_from_document`] makes of it.
pub fn parse_collection(text: &str) -> (r: Result<Collection, ConfigError>)
    ensures
        match toml_document(text@) {
            Some(doc) => collection_outcome(r) == spec_collection(doc),
            None => r is Err && r->Err_0@ is Syntax,
        },
{
    match parse_document(text) {
        Err(e) => Err(ConfigError::Syntax { message: complaint(&e) }),
        Ok(doc) => collection_from_document(&doc),
    }
}

} // verus!
