use vstd::prelude::*;

use crate::error::{HttpError, STATUS_INTERNAL};
use crate::icons::IconMap;
use crate::listing::{list_directory, lists, RawEntry};
use crate::models::{DirTemplateContext, FileContext};

verus! {

#[verifier::external_type_specification]
#[verifier::external_body]
pub struct ExTemplate(mustache::Template);

#[verifier::external_type_specification]
#[verifier::external_body]
pub struct ExTemplateError(mustache::Error);

#[verifier::external_type_specification]
#[verifier::external_body]
pub struct ExData(mustache::Data);

/// A lower-case hexadecimal digit.
pub open spec fn hex_digit(d: nat) -> char {
    seq!['0', '1', '2', '3', '4', '5', '6', '7', '8', '9', 'a', 'b', 'c', 'd', 'e', 'f'][d as int]
}

/// How one character stands inside a JSON string literal: quote and
/// backslash behind a backslash, the five controls with a short form as
/// such, other controls below 0x20 as `\u00XX`, everything else as it is.
pub open spec fn json_escape(c: char) -> Seq<char> {
    if c == '"' {
        seq!['\\', '"']
    } else if c == '\\' {
        seq!['\\', '\\']
    } else if c == '\u{8}' {
        seq!['\\', 'b']
    } else if c == '\t' {
        seq!['\\', 't']
    } else if c == '\n' {
        seq!['\\', 'n']
    } else if c == '\u{c}' {
        seq!['\\', 'f']
    } else if c == '\r' {
        seq!['\\', 'r']
    } else if (c as u32) < 0x20 {
        seq!['\\', 'u', '0', '0', hex_digit((c as u32 / 16) as nat), hex_digit((c as u32 % 16) as nat)]
    } else {
        seq![c]
    }
}

/// The characters of `s`, each escaped as in a JSON string literal.
pub open spec fn json_escaped(s: Seq<char>) -> Seq<char>
    decreases s.len(),
{
    if s.len() == 0 {
        Seq::empty()
    } else {
        json_escaped(s.drop_last()) + json_escape(s.last())
    }
}

/// The JSON string literal for `s`.
pub open spec fn json_quoted(s: Seq<char>) -> Seq<char> {
    seq!['"'] + json_escaped(s) + seq!['"']
}

/// Relies on serde_json::to_string on a `str`: the text between double
/// quotes, escaped by serde_json's table (`ser.rs`, `ESCAPE` and
/// `write_char_escape`); writing into memory cannot fail.
#[verifier::external_body]
fn json_string(s: &str) -> (r: String)
    ensures
        r@ == json_quoted(s@),
{
    serde_json::to_string(s).unwrap_or_default()
}

/// The body of an error response: a JSON object whose one field `msg`
/// holds the message.
pub fn error_body(msg: &str) -> (r: String)
    ensures
        r@ == "{\"msg\":"@ + json_quoted(msg@) + "}"@,
{
    let mut s = String::from_str("{\"msg\":");
    let q = json_string(msg);
    s.append(q.as_str());
    s.append("}");
    s
}

/// A value a page template is rendered against.
pub enum TemplateValue {
    Text(String),
    Flag(bool),
    Null,
    List(Vec<TemplateValue>),
    Record(Vec<(String, TemplateValue)>),
}

/// `v` is the text `s`.
pub open spec fn is_text(v: TemplateValue, s: Seq<char>) -> bool {
    v matches TemplateValue::Text(t) && t@ == s
}

/// `v` is the truth value `b`.
pub open spec fn is_flag(v: TemplateValue, b: bool) -> bool {
    v matches TemplateValue::Flag(x) && x == b
}

/// Field `i` of a record is named `name`.
pub open spec fn field_named(fs: Seq<(String, TemplateValue)>, i: int, name: Seq<char>) -> bool {
    fs[i].0@ == name
}

/// `v` is the row for `f`: a record of its seven fields under their own
/// names, the icon absent when `f` has none.
pub open spec fn is_row_value(v: TemplateValue, f: FileContext) -> bool {
    v matches TemplateValue::Record(fs) && {
        &&& fs@.len() == 7
        &&& field_named(fs@, 0, "path"@) && is_text(fs@[0].1, f.path@)
        &&& field_named(fs@, 1, "icon"@) && match f.icon {
            Some(i) => is_text(fs@[1].1, i@),
            None => fs@[1].1 is Null,
        }
        &&& field_named(fs@, 2, "is_directory"@) && is_flag(fs@[2].1, f.is_directory)
        &&& field_named(fs@, 3, "is_file"@) && is_flag(fs@[3].1, f.is_file)
        &&& field_named(fs@, 4, "last_modified"@) && is_text(fs@[4].1, f.last_modified@)
        &&& field_named(fs@, 5, "size"@) && is_text(fs@[5].1, f.size@)
        &&& field_named(fs@, 6, "name"@) && is_text(fs@[6].1, f.name@)
    }
}

/// `v` is the binding for a listing: a record whose one field `files` is
/// the list of the rows, in order.
pub open spec fn is_listing_value(v: TemplateValue, files: Seq<FileContext>) -> bool {
    v matches TemplateValue::Record(fs) && {
        &&& fs@.len() == 1
        &&& field_named(fs@, 0, "files"@)
        &&& fs@[0].1 matches TemplateValue::List(rows) && {
            &&& rows@.len() == files.len()
            &&& forall|i: int| 0 <= i < files.len() ==> is_row_value(#[trigger] rows@[i], files[i])
        }
    }
}

pub open spec fn read_failure_text(template_path: Seq<char>) -> Seq<char> {
    "Failed to read template file "@ + template_path
}

pub open spec fn compile_failure_text(template_path: Seq<char>) -> Seq<char> {
    "Failed to compile template file "@ + template_path
}

pub open spec fn render_failure_text(template_path: Seq<char>) -> Seq<char> {
    "Failed to render template file "@ + template_path
}

/// Relies on mustache's `Data` variants: the same value, variant for variant.
#[verifier::external_body]
fn to_data(v: &TemplateValue) -> (r: mustache::Data) {
    match v {
        TemplateValue::Text(s) => mustache::Data::String(s.clone()),
        TemplateValue::Flag(b) => mustache::Data::Bool(*b),
        TemplateValue::Null => mustache::Data::Null,
        TemplateValue::List(xs) => mustache::Data::Vec(xs.iter().map(to_data).collect()),
        TemplateValue::Record(fs) => mustache::Data::Map(
            fs.iter().map(|(k, x)| (k.clone(), to_data(x))).collect(),
        ),
    }
}

/// Relies on mustache::compile_str: parses a template's source.
#[verifier::external_body]
fn compile_template(source: &str) -> (r: Result<mustache::Template, mustache::Error>) {
    mustache::compile_str(source)
}

/// Relies on mustache's `Template::render_data_to_string`: renders a
/// compiled template against the value, converted into mustache's `Data`.
#[verifier::external_body]
fn render_value(t: &mustache::Template, v: &TemplateValue) -> (r: Result<String, mustache::Error>) {
    t.render_data_to_string(&to_data(v))
}

fn text(s: &String) -> (v: TemplateValue)
    ensures
        is_text(v, s@),
{
    TemplateValue::Text(s.clone())
}

/// The binding for one listing row.
pub fn row_value(f: &FileContext) -> (v: TemplateValue)
    ensures
        is_row_value(v, *f),
{
    let icon = match &f.icon {
        Some(i) => text(i),
        None => TemplateValue::Null,
    };
    let fields = vec![
        (String::from_str("path"), text(&f.path)),
        (String::from_str("icon"), icon),
        (String::from_str("is_directory"), TemplateValue::Flag(f.is_directory)),
        (String::from_str("is_file"), TemplateValue::Flag(f.is_file)),
        (String::from_str("last_modified"), text(&f.last_modified)),
        (String::from_str("size"), text(&f.size)),
        (String::from_str("name"), text(&f.name)),
    ];
    TemplateValue::Record(fields)
}

/// The binding for a listing: one field `files` holding the rows in order.
pub fn listing_value(ctx: &DirTemplateContext) -> (v: TemplateValue)
    ensures
        is_listing_value(v, ctx.files@),
{
    let mut rows: Vec<TemplateValue> = Vec::new();
    let mut i: usize = 0;
    while i < ctx.files.len()
        invariant
            i <= ctx.files@.len(),
            rows@.len() == i,
            forall|k: int| 0 <= k < i ==> is_row_value(#[trigger] rows@[k], ctx.files@[k]),
        decreases ctx.files@.len() - i,
    {
        rows.push(row_value(&ctx.files[i]));
        i = i + 1;
    }
    let fields = vec![(String::from_str("files"), TemplateValue::List(rows))];
    TemplateValue::Record(fields)
}

/// The binding for the page of a directory: its listing, built from the
/// enumerated children.
pub fn directory_value(dir: &str, root: &str, icons: &IconMap, entries: &Vec<RawEntry>) -> (v:
    TemplateValue)
    ensures
        exists|f: Seq<FileContext>| lists(f, dir@, root@, icons@, entries@) && is_listing_value(v, f),
{
    let ctx = list_directory(dir, root, icons, entries);
    listing_value(&ctx)
}

/// Renders a binding through the page template `source`. A template that does
/// not compile or render is a server-side failure, named by its path.
pub fn render_binding(binding: &TemplateValue, source: &str, template_path: &str) -> (r: Result<
    String,
    HttpError,
>)
    ensures
        r is Err ==> r->Err_0.status == STATUS_INTERNAL,
        r is Err ==> r->Err_0.msg@ == compile_failure_text(template_path@) || r->Err_0.msg@
            == render_failure_text(template_path@),
{
    let template = match compile_template(source) {
        Ok(t) => t,
        Err(_) => {
            let mut msg = String::from_str("Failed to compile template file ");
            msg.append(template_path);
            return Err(HttpError::internal(msg));
        },
    };
    match render_value(&template, binding) {
        Ok(html) => Ok(html),
        Err(_) => {
            let mut msg = String::from_str("Failed to render template file ");
            msg.append(template_path);
            Err(HttpError::internal(msg))
        },
    }
}

/// Renders a listing through the page template `source`.
pub fn render_listing(ctx: &DirTemplateContext, source: &str, template_path: &str) -> (r: Result<
    String,
    HttpError,
>)
    ensures
        r is Err ==> r->Err_0.status == STATUS_INTERNAL,
        r is Err ==> r->Err_0.msg@ == compile_failure_text(template_path@) || r->Err_0.msg@
            == render_failure_text(template_path@),
{
    render_binding(&listing_value(ctx), source, template_path)
}

/// The page for a directory: the binding of `directory_value` rendered through
/// the page template when that could be read. A missing template is a
/// server-side failure with its own message; so is one that does not compile
/// or render.
pub fn directory_page(
    dir: &str,
    root: &str,
    icons: &IconMap,
    entries: &Vec<RawEntry>,
    template: Option<String>,
    template_path: &str,
) -> (r: Result<String, HttpError>)
    ensures
        (r is Err && r->Err_0.msg@ == read_failure_text(template_path@)) <==> template is None,
        r is Err ==> r->Err_0.status == STATUS_INTERNAL,
        r is Err && template is Some ==> r->Err_0.msg@ == compile_failure_text(template_path@)
            || r->Err_0.msg@ == render_failure_text(template_path@),
{
    match template {
        None => {
            let mut msg = String::from_str("Failed to read template file ");
            msg.append(template_path);
            Err(HttpError::internal(msg))
        },
        Some(source) => {
            let binding = directory_value(dir, root, icons, entries);
            let r = render_binding(&binding, source.as_str(), template_path);
            proof {
                reveal_strlit("Failed to read template file ");
                reveal_strlit("Failed to compile template file ");
                reveal_strlit("Failed to render template file ");
                let p = template_path@;
                assert(read_failure_text(p)[12] == 'a');
                assert(compile_failure_text(p)[10] == 'c');
                assert(read_failure_text(p)[10] == 'r');
                assert(render_failure_text(p)[12] == 'n');
            }
            r
        },
    }
}

} // verus!
