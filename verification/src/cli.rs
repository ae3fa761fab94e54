//! What the command line shows: the parsed configuration (with secrets redacted unless
//! asked for), and the lines of the health check.

use vstd::prelude::*;
use crate::auth::session::opt_view;
use crate::schema::config::{AuthConfig, DatabaseConfig, ProviderConfig, StorageConfig, TinyCmsConfig};
use crate::schema::field::{FieldDef, TypeDef};
use crate::text::{
    chars_of, find_char, find_from, first_occurrence_from, index_of, is_digit, last_index_of, push_char, push_str,
    rfind_char, string_of, substring, tail_of, trim, trim_chars, whitespace, is_whitespace,
};
use colored::Colorize;

verus! {

// ---------------------------------------------------------------------------
// Colours
// ---------------------------------------------------------------------------

/// The control sequence that ends a style.
pub open spec fn reset_code() -> Seq<char> {
    seq!['\x1B', '[', '0', 'm']
}

/// Whether `r` is `t` shown in the style `code`: either plain (when the terminal gets no
/// colours) or between the style's control sequence and the reset.
pub open spec fn painted(r: Seq<char>, t: Seq<char>, code: Seq<char>) -> bool {
    r == t || r == seq!['\x1B', '['] + code + seq!['m'] + t + reset_code()
}

/// Whether `t` holds no escape character (so that no reset sequence sits inside it).
pub open spec fn escape_free(t: Seq<char>) -> bool {
    forall|i: int| 0 <= i < t.len() ==> t[i] != '\x1B'
}

/// `colored::Colorize::bold`, shown with `to_string`. Whether colours are used depends on
/// the terminal and the environment, so of the outcome only the two forms are stated.
#[verifier::external_body]
fn paint_bold(t: &str) -> (r: String)
    ensures
        escape_free(t@) ==> painted(r@, t@, seq!['1']),
{
    t.bold().to_string()
}

/// `colored::Colorize::green` then `bold`, shown with `to_string`; plain or styled, as
/// for [`paint_bold`].
#[verifier::external_body]
fn paint_green_bold(t: &str) -> (r: String)
    ensures
        escape_free(t@) ==> painted(r@, t@, seq!['1', ';', '3', '2']),
{
    t.green().bold().to_string()
}

/// `colored::Colorize::yellow` then `bold`, shown with `to_string`; plain or styled.
#[verifier::external_body]
fn paint_yellow_bold(t: &str) -> (r: String)
    ensures
        escape_free(t@) ==> painted(r@, t@, seq!['1', ';', '3', '3']),
{
    t.yellow().bold().to_string()
}

/// `colored::Colorize::red` then `bold`, shown with `to_string`; plain or styled.
#[verifier::external_body]
fn paint_red_bold(t: &str) -> (r: String)
    ensures
        escape_free(t@) ==> painted(r@, t@, seq!['1', ';', '3', '1']),
{
    t.red().bold().to_string()
}

/// `colored::Colorize::dimmed`, shown with `to_string`; plain or styled.
#[verifier::external_body]
fn paint_dimmed(t: &str) -> (r: String)
    ensures
        escape_free(t@) ==> painted(r@, t@, seq!['2']),
{
    t.dimmed().to_string()
}

/// The marker of a check that passed: `[ok]` in bold green.
pub fn ok() -> (r: String)
    ensures
        painted(r@, "[ok]"@, seq!['1', ';', '3', '2']),
{
    proof {
        reveal_strlit("[ok]");
    }
    paint_green_bold("[ok]")
}

/// The marker of a check with a doubtful result: `[warn]` in bold yellow.
pub fn warn() -> (r: String)
    ensures
        painted(r@, "[warn]"@, seq!['1', ';', '3', '3']),
{
    proof {
        reveal_strlit("[warn]");
    }
    paint_yellow_bold("[warn]")
}

/// The marker of a check that failed: `[missing]` in bold red.
pub fn missing() -> (r: String)
    ensures
        painted(r@, "[missing]"@, seq!['1', ';', '3', '1']),
{
    proof {
        reveal_strlit("[missing]");
    }
    paint_red_bold("[missing]")
}

/// The marker of a check that was not run: `[skip]`, dimmed.
pub fn skip() -> (r: String)
    ensures
        painted(r@, "[skip]"@, seq!['2']),
{
    proof {
        reveal_strlit("[skip]");
    }
    paint_dimmed("[skip]")
}

/// A heading, in bold.
pub fn heading(t: &str) -> (r: String)
    ensures
        escape_free(t@) ==> painted(r@, t@, seq!['1']),
{
    paint_bold(t)
}

// ---------------------------------------------------------------------------
// Rendering the configuration
// ---------------------------------------------------------------------------

/// `n` spaces.
pub open spec fn spaces(n: nat) -> Seq<char> {
    Seq::new(n, |i: int| ' ')
}

/// Appends `n` spaces.
fn push_spaces(s: &mut String, n: usize)
    ensures
        final(s)@ == old(s)@ + spaces(n as nat),
{
    let ghost start = s@;
    let mut i: usize = 0;
    while i < n
        invariant
            i <= n,
            s@ == start + spaces(i as nat),
        decreases n - i,
    {
        push_char(s, ' ');
        i = i + 1;
        assert(s@ =~= start + spaces(i as nat));
    }
}

/// What a setting is shown as: a secret is redacted unless secrets are shown, a missing
/// value is shown as `none`.
pub open spec fn shown_value(value: Option<Seq<char>>, secret: bool, show_secrets: bool) -> Seq<char> {
    match value {
        Some(v) => if secret && !show_secrets {
            "[redacted]"@
        } else {
            v
        },
        None => "none"@,
    }
}

/// The line of one setting: indented, `key: value`.
pub open spec fn setting_line(indent: nat, key: Seq<char>, value: Option<Seq<char>>, secret: bool, show_secrets: bool) -> Seq<char> {
    spaces(indent) + key + ": "@ + shown_value(value, secret, show_secrets)
}

/// An optional text with its characters.
pub open spec fn opt_str(v: Option<&str>) -> Option<Seq<char>> {
    match v {
        Some(s) => Some(s@),
        None => None,
    }
}

/// The line of one setting.
pub fn render_line(indent: usize, key: &str, value: Option<&str>, secret: bool, show_secrets: bool) -> (r: String)
    ensures
        r@ == setting_line(indent as nat, key@, opt_str(value), secret, show_secrets),
{
    let rendered = match value {
        Some(v) => if secret && !show_secrets {
            "[redacted]"
        } else {
            v
        },
        None => "none",
    };
    let mut r = String::new();
    push_spaces(&mut r, indent);
    push_str(&mut r, key);
    push_str(&mut r, ": ");
    push_str(&mut r, rendered);
    r
}

/// The line of one optional setting.
pub fn render_optional_pair(indent: usize, key: &str, value: Option<&str>, secret: bool, show_secrets: bool) -> (r: String)
    ensures
        r@ == setting_line(indent as nat, key@, opt_str(value), secret, show_secrets),
{
    match value {
        Some(v) => render_line(indent, key, Some(v), secret, show_secrets),
        None => render_line(indent, key, None, secret, show_secrets),
    }
}

/// The line of one optional setting.
pub fn render_optional_line(indent: usize, key: &str, value: Option<&str>, secret: bool, show_secrets: bool) -> (r: String)
    ensures
        r@ == setting_line(indent as nat, key@, opt_str(value), secret, show_secrets),
{
    render_optional_pair(indent, key, value, secret, show_secrets)
}

/// The views of a list of lines.
pub open spec fn lines_view(v: Seq<String>) -> Seq<Seq<char>> {
    v.map_values(|s: String| s@)
}

/// Appends a line.
fn push_line(lines: &mut Vec<String>, line: String)
    ensures
        lines_view(final(lines)@) == lines_view(old(lines)@).push(line@),
{
    let ghost before = lines@;
    lines.push(line);
    assert(lines_view(lines@) =~= lines_view(before).push(line@));
}

/// The lines of an optional list: `key:` and one `- item` line per item, indented two
/// further; `key: none` for an empty list; nothing when there is no list.
pub open spec fn list_lines(indent: nat, key: Seq<char>, value: Option<Seq<Seq<char>>>) -> Seq<Seq<char>> {
    match value {
        Some(items) => if items.len() > 0 {
            seq![spaces(indent) + key + ":"@] + items.map_values(|item: Seq<char>| spaces(indent + 2) + "- "@ + item)
        } else {
            seq![spaces(indent) + key + ": none"@]
        },
        None => seq![],
    }
}

/// The lines of an optional list.
pub fn render_optional_list(indent: usize, key: &str, value: Option<&Vec<String>>) -> (r: Vec<String>)
    requires
        indent + 2 <= usize::MAX,
    ensures
        lines_view(r@) == list_lines(
            indent as nat,
            key@,
            match value {
                Some(v) => Some(lines_view(v@)),
                None => None,
            },
        ),
{
    let mut lines: Vec<String> = Vec::new();
    match value {
        Some(items) => {
            if items.len() > 0 {
                let mut head = String::new();
                push_spaces(&mut head, indent);
                push_str(&mut head, key);
                push_str(&mut head, ":");
                push_line(&mut lines, head);
                let mut i: usize = 0;
                while i < items.len()
                    invariant
                        indent + 2 <= usize::MAX,
                        i <= items@.len(),
                        lines_view(lines@) == seq![spaces(indent as nat) + key@ + ":"@] + lines_view(
                            items@.take(i as int),
                        ).map_values(|item: Seq<char>| spaces((indent + 2) as nat) + "- "@ + item),
                    decreases items@.len() - i,
                {
                    let mut line = String::new();
                    push_spaces(&mut line, indent + 2);
                    push_str(&mut line, "- ");
                    push_str(&mut line, items[i].as_str());
                    let ghost before = lines_view(lines@);
                    push_line(&mut lines, line);
                    i = i + 1;
                    assert(lines_view(items@.take(i as int)) =~= lines_view(items@.take(i - 1)).push(items@[i - 1]@));
                    assert(lines_view(lines@) =~= seq![spaces(indent as nat) + key@ + ":"@] + lines_view(
                        items@.take(i as int),
                    ).map_values(|item: Seq<char>| spaces((indent + 2) as nat) + "- "@ + item));
                }
                assert(items@.take(items@.len() as int) =~= items@);
            } else {
                let mut line = String::new();
                push_spaces(&mut line, indent);
                push_str(&mut line, key);
                push_str(&mut line, ": none");
                push_line(&mut lines, line);
                assert(lines_view(lines@) =~= list_lines(indent as nat, key@, Some(lines_view(items@))));
            }
        },
        None => {
            assert(lines_view(lines@) =~= Seq::<Seq<char>>::empty());
        },
    }
    lines
}

/// The line of the database setting: its URL, a secret.
pub fn render_database(database: &DatabaseConfig, show_secrets: bool, indent: usize) -> (r: String)
    ensures
        r@ == setting_line(indent as nat, "url"@, Some(database.url@), true, show_secrets),
{
    render_line(indent, "url", Some(database.url.as_str()), true, show_secrets)
}

/// An optional string as an optional text.
fn as_opt_str(s: &Option<String>) -> (r: Option<&str>)
    ensures
        opt_str(r) == opt_view(*s),
{
    match s {
        Some(v) => Some(v.as_str()),
        None => None,
    }
}

/// The lines of one sign-in provider.
pub open spec fn provider_lines(p: ProviderConfig, show_secrets: bool, indent: nat) -> Seq<Seq<char>> {
    match p {
        ProviderConfig::Credentials => seq![spaces(indent) + "    - credentials"@],
        ProviderConfig::GitHub { client_id, client_secret } => seq![
            spaces(indent) + "    - github"@,
            setting_line(indent + 8, "clientId"@, opt_view(client_id), false, show_secrets),
            setting_line(indent + 8, "clientSecret"@, opt_view(client_secret), true, show_secrets),
        ],
        ProviderConfig::Google { client_id, client_secret } => seq![
            spaces(indent) + "    - google"@,
            setting_line(indent + 8, "clientId"@, opt_view(client_id), false, show_secrets),
            setting_line(indent + 8, "clientSecret"@, opt_view(client_secret), true, show_secrets),
        ],
    }
}

/// The lines of the providers from position `i` on.
pub open spec fn providers_lines(ps: Seq<ProviderConfig>, show_secrets: bool, indent: nat, i: int) -> Seq<Seq<char>>
    decreases ps.len() - i,
{
    if i < 0 || i >= ps.len() {
        seq![]
    } else {
        provider_lines(ps[i], show_secrets, indent) + providers_lines(ps, show_secrets, indent, i + 1)
    }
}

/// The lines of the sign-in settings: `none` without providers, else `providers` and one
/// entry per provider, with its client id and (redacted) secret.
pub open spec fn auth_lines(auth: Option<AuthConfig>, show_secrets: bool, indent: nat) -> Seq<Seq<char>> {
    match auth {
        Some(a) => if a.providers@.len() == 0 {
            seq![spaces(indent) + "  none"@]
        } else {
            seq![spaces(indent) + "  providers"@] + providers_lines(a.providers@, show_secrets, indent, 0)
        },
        None => seq![spaces(indent) + "  none"@],
    }
}

/// The lines of one provider.
fn render_provider(p: &ProviderConfig, show_secrets: bool, indent: usize) -> (r: Vec<String>)
    requires
        indent + 8 <= usize::MAX,
    ensures
        lines_view(r@) == provider_lines(*p, show_secrets, indent as nat),
{
    let mut lines: Vec<String> = Vec::new();
    let mut head = String::new();
    push_spaces(&mut head, indent);
    match p {
        ProviderConfig::Credentials => {
            push_str(&mut head, "    - credentials");
            push_line(&mut lines, head);
        },
        ProviderConfig::GitHub { client_id, client_secret } => {
            push_str(&mut head, "    - github");
            push_line(&mut lines, head);
            push_line(&mut lines, render_optional_pair(indent + 8, "clientId", as_opt_str(client_id), false, show_secrets));
            push_line(
                &mut lines,
                render_optional_pair(indent + 8, "clientSecret", as_opt_str(client_secret), true, show_secrets),
            );
        },
        ProviderConfig::Google { client_id, client_secret } => {
            push_str(&mut head, "    - google");
            push_line(&mut lines, head);
            push_line(&mut lines, render_optional_pair(indent + 8, "clientId", as_opt_str(client_id), false, show_secrets));
            push_line(
                &mut lines,
                render_optional_pair(indent + 8, "clientSecret", as_opt_str(client_secret), true, show_secrets),
            );
        },
    }
    assert(lines_view(lines@) =~= provider_lines(*p, show_secrets, indent as nat));
    lines
}

/// Appends lines.
fn append_lines(lines: &mut Vec<String>, more: Vec<String>)
    ensures
        lines_view(final(lines)@) == lines_view(old(lines)@) + lines_view(more@),
{
    let ghost before = lines@;
    let ghost added = more@;
    let mut more = more;
    lines.append(&mut more);
    assert(lines_view(lines@) =~= lines_view(before) + lines_view(added)) by {
        assert(lines@ =~= before + added);
    }
}

/// The lines of the sign-in settings.
pub fn render_auth(auth: Option<&AuthConfig>, show_secrets: bool, indent: usize) -> (r: Vec<String>)
    requires
        indent + 8 <= usize::MAX,
    ensures
        lines_view(r@) == auth_lines(
            match auth {
                Some(a) => Some(*a),
                None => None,
            },
            show_secrets,
            indent as nat,
        ),
{
    let mut lines: Vec<String> = Vec::new();
    match auth {
        Some(a) => {
            let mut head = String::new();
            push_spaces(&mut head, indent);
            if a.providers.len() == 0 {
                push_str(&mut head, "  none");
                push_line(&mut lines, head);
                return lines;
            }
            push_str(&mut head, "  providers");
            push_line(&mut lines, head);
            let mut i: usize = 0;
            while i < a.providers.len()
                invariant
                    indent + 8 <= usize::MAX,
                    i <= a.providers@.len(),
                    lines_view(lines@) + providers_lines(a.providers@, show_secrets, indent as nat, i as int) == seq![
                        spaces(indent as nat) + "  providers"@,
                    ] + providers_lines(a.providers@, show_secrets, indent as nat, 0),
                decreases a.providers@.len() - i,
            {
                let more = render_provider(&a.providers[i], show_secrets, indent);
                let ghost before = lines_view(lines@);
                append_lines(&mut lines, more);
                i = i + 1;
                assert(before + providers_lines(a.providers@, show_secrets, indent as nat, i - 1) =~= lines_view(lines@)
                    + providers_lines(a.providers@, show_secrets, indent as nat, i as int));
            }
            assert(lines_view(lines@) + providers_lines(a.providers@, show_secrets, indent as nat, i as int)
                =~= lines_view(lines@));
            lines
        },
        None => {
            let mut head = String::new();
            push_spaces(&mut head, indent);
            push_str(&mut head, "  none");
            push_line(&mut lines, head);
            lines
        },
    }
}

/// The lines of the storage settings: the bucket, region, keys (secrets) and endpoint;
/// `none` without storage.
pub open spec fn storage_lines(storage: Option<StorageConfig>, show_secrets: bool, indent: nat) -> Seq<Seq<char>> {
    match storage {
        Some(s) => seq![
            setting_line(indent, "bucket"@, Some(s.bucket@), false, show_secrets),
            setting_line(indent, "region"@, opt_view(s.region), false, show_secrets),
            setting_line(indent, "accessKeyId"@, opt_view(s.access_key_id), true, show_secrets),
            setting_line(indent, "secretAccessKey"@, opt_view(s.secret_access_key), true, show_secrets),
            setting_line(indent, "endpoint"@, opt_view(s.endpoint), false, show_secrets),
        ],
        None => seq![spaces(indent) + "  none"@],
    }
}

/// The lines of the storage settings.
pub fn render_storage(storage: Option<&StorageConfig>, show_secrets: bool, indent: usize) -> (r: Vec<String>)
    ensures
        lines_view(r@) == storage_lines(
            match storage {
                Some(s) => Some(*s),
                None => None,
            },
            show_secrets,
            indent as nat,
        ),
{
    let mut lines: Vec<String> = Vec::new();
    match storage {
        Some(s) => {
            push_line(&mut lines, render_line(indent, "bucket", Some(s.bucket.as_str()), false, show_secrets));
            push_line(&mut lines, render_optional_line(indent, "region", as_opt_str(&s.region), false, show_secrets));
            push_line(
                &mut lines,
                render_optional_line(indent, "accessKeyId", as_opt_str(&s.access_key_id), true, show_secrets),
            );
            push_line(
                &mut lines,
                render_optional_line(indent, "secretAccessKey", as_opt_str(&s.secret_access_key), true, show_secrets),
            );
            push_line(&mut lines, render_optional_line(indent, "endpoint", as_opt_str(&s.endpoint), false, show_secrets));
        },
        None => {
            let mut head = String::new();
            push_spaces(&mut head, indent);
            push_str(&mut head, "  none");
            push_line(&mut lines, head);
        },
    }
    assert(lines_view(lines@) =~= storage_lines(
        match storage {
            Some(s) => Some(*s),
            None => None,
        },
        show_secrets,
        indent as nat,
    ));
    lines
}

/// The list a reference field points to, if it is one.
pub open spec fn field_targets(f: FieldDef) -> Option<Seq<Seq<char>>> {
    match f {
        FieldDef::Reference(r) => match r.to {
            Some(to) => Some(lines_view(to@)),
            None => None,
        },
        _ => None,
    }
}

/// The field a slug field is made from, if it is one.
pub open spec fn field_source(f: FieldDef) -> Option<Seq<char>> {
    match f {
        FieldDef::Slug(s) => opt_view(s.source),
        _ => None,
    }
}

/// The lines of one field: its name, then its type, whether it is required, the types a
/// reference points to and the field a slug is made from.
pub open spec fn field_lines(f: FieldDef, indent: nat) -> Seq<Seq<char>> {
    seq![
        spaces(indent) + "      - "@ + f.spec_base().name@,
        setting_line(indent + 8, "type"@, Some(f.spec_field_type()), false, true),
        setting_line(
            indent + 8,
            "required"@,
            Some(if f.spec_base().required { "true"@ } else { "false"@ }),
            false,
            true,
        ),
    ] + list_lines(indent + 8, "to"@, field_targets(f)) + match field_source(f) {
        Some(src) => seq![setting_line(indent + 8, "source"@, Some(src), false, true)],
        None => seq![],
    }
}

/// The lines of the fields from position `i` on.
pub open spec fn fields_lines(fs: Seq<FieldDef>, indent: nat, i: int) -> Seq<Seq<char>>
    decreases fs.len() - i,
{
    if i < 0 || i >= fs.len() {
        seq![]
    } else {
        field_lines(fs[i], indent) + fields_lines(fs, indent, i + 1)
    }
}

/// The lines of one content type: its name, then its fields (or `fields: none`).
pub open spec fn type_lines(t: TypeDef, indent: nat) -> Seq<Seq<char>> {
    seq![spaces(indent) + "  - "@ + t.name@] + if t.fields@.len() == 0 {
        seq![spaces(indent) + "    fields: none"@]
    } else {
        seq![spaces(indent) + "    fields"@] + fields_lines(t.fields@, indent, 0)
    }
}

/// The lines of the types from position `i` on.
pub open spec fn types_lines_from(ts: Seq<TypeDef>, indent: nat, i: int) -> Seq<Seq<char>>
    decreases ts.len() - i,
{
    if i < 0 || i >= ts.len() {
        seq![]
    } else {
        type_lines(ts[i], indent) + types_lines_from(ts, indent, i + 1)
    }
}

/// The lines of the content types: `none` without types.
pub open spec fn types_lines(ts: Seq<TypeDef>, indent: nat) -> Seq<Seq<char>> {
    if ts.len() == 0 {
        seq![spaces(indent) + "  none"@]
    } else {
        types_lines_from(ts, indent, 0)
    }
}

/// The lines of one field.
fn render_field(field: &FieldDef, indent: usize) -> (r: Vec<String>)
    requires
        indent + 10 <= usize::MAX,
    ensures
        lines_view(r@) == field_lines(*field, indent as nat),
{
    let base = field.base();
    let mut lines: Vec<String> = Vec::new();
    let mut head = String::new();
    push_spaces(&mut head, indent);
    push_str(&mut head, "      - ");
    push_str(&mut head, base.name.as_str());
    push_line(&mut lines, head);
    push_line(&mut lines, render_line(indent + 8, "type", Some(field.field_type()), false, true));
    let required = if base.required {
        "true"
    } else {
        "false"
    };
    push_line(&mut lines, render_line(indent + 8, "required", Some(required), false, true));
    let to: Option<&Vec<String>> = match field {
        FieldDef::Reference(f) => match &f.to {
            Some(t) => Some(t),
            None => None,
        },
        _ => None,
    };
    let targets = render_optional_list(indent + 8, "to", to);
    append_lines(&mut lines, targets);
    let source: Option<&str> = match field {
        FieldDef::Slug(f) => as_opt_str(&f.source),
        _ => None,
    };
    match source {
        Some(s) => push_line(&mut lines, render_optional_line(indent + 8, "source", Some(s), false, true)),
        None => {},
    }
    assert(lines_view(lines@) =~= field_lines(*field, indent as nat));
    lines
}

/// The lines of one content type.
fn render_type(ty: &TypeDef, indent: usize) -> (r: Vec<String>)
    requires
        indent + 10 <= usize::MAX,
    ensures
        lines_view(r@) == type_lines(*ty, indent as nat),
{
    let mut lines: Vec<String> = Vec::new();
    let mut head = String::new();
    push_spaces(&mut head, indent);
    push_str(&mut head, "  - ");
    push_str(&mut head, ty.name.as_str());
    push_line(&mut lines, head);
    let mut sub = String::new();
    push_spaces(&mut sub, indent);
    if ty.fields.len() == 0 {
        push_str(&mut sub, "    fields: none");
        push_line(&mut lines, sub);
        assert(lines_view(lines@) =~= type_lines(*ty, indent as nat));
        return lines;
    }
    push_str(&mut sub, "    fields");
    push_line(&mut lines, sub);
    let ghost head_lines = lines_view(lines@);
    let mut i: usize = 0;
    while i < ty.fields.len()
        invariant
            indent + 10 <= usize::MAX,
            i <= ty.fields@.len(),
            lines_view(lines@) + fields_lines(ty.fields@, indent as nat, i as int) == head_lines + fields_lines(
                ty.fields@,
                indent as nat,
                0,
            ),
        decreases ty.fields@.len() - i,
    {
        let more = render_field(&ty.fields[i], indent);
        let ghost before = lines_view(lines@);
        append_lines(&mut lines, more);
        i = i + 1;
        assert(before + fields_lines(ty.fields@, indent as nat, i - 1) =~= lines_view(lines@) + fields_lines(
            ty.fields@,
            indent as nat,
            i as int,
        ));
    }
    assert(lines_view(lines@) + fields_lines(ty.fields@, indent as nat, i as int) =~= lines_view(lines@));
    assert(lines_view(lines@) =~= type_lines(*ty, indent as nat));
    lines
}

/// The lines of the content types.
pub fn render_types(types: &Vec<TypeDef>, indent: usize) -> (r: Vec<String>)
    requires
        indent + 10 <= usize::MAX,
    ensures
        lines_view(r@) == types_lines(types@, indent as nat),
{
    let mut lines: Vec<String> = Vec::new();
    if types.len() == 0 {
        let mut head = String::new();
        push_spaces(&mut head, indent);
        push_str(&mut head, "  none");
        push_line(&mut lines, head);
        assert(lines_view(lines@) =~= types_lines(types@, indent as nat));
        return lines;
    }
    let mut i: usize = 0;
    while i < types.len()
        invariant
            indent + 10 <= usize::MAX,
            i <= types@.len(),
            lines_view(lines@) + types_lines_from(types@, indent as nat, i as int) == types_lines_from(
                types@,
                indent as nat,
                0,
            ),
        decreases types@.len() - i,
    {
        let more = render_type(&types[i], indent);
        let ghost before = lines_view(lines@);
        append_lines(&mut lines, more);
        i = i + 1;
        assert(before + types_lines_from(types@, indent as nat, i - 1) =~= lines_view(lines@) + types_lines_from(
            types@,
            indent as nat,
            i as int,
        ));
    }
    assert(lines_view(lines@) + types_lines_from(types@, indent as nat, i as int) =~= lines_view(lines@));
    lines
}

/// Whether `lines` is the configuration shown with its section headings: `Config`, then,
/// each indented by two and in bold, `database`, `auth`, `storage` and `types`, each
/// followed by its lines (indented by four) and the first three by an empty line.
pub open spec fn config_lines(lines: Seq<Seq<char>>, config: TinyCmsConfig, show_secrets: bool) -> bool {
    let db = seq![setting_line(4, "url"@, Some(config.database.url@), true, show_secrets)];
    let auth = auth_lines(config.auth, show_secrets, 4);
    let storage = storage_lines(config.storage, show_secrets, 4);
    let types = types_lines(config.types@, 4);
    let na: int = auth.len() as int;
    let ns: int = storage.len() as int;
    let s0: int = 6 + na;
    let t0: int = s0 + 2 + ns;
    &&& lines.len() == 9 + na + ns + types.len()
    &&& painted(lines[0], "Config"@, seq!['1'])
    &&& lines[1].len() >= 2 && lines[1].take(2) == "  "@ && painted(lines[1].skip(2), "database"@, seq!['1'])
    &&& lines.subrange(2, 3) == db
    &&& lines[3] == Seq::<char>::empty()
    &&& lines[4].len() >= 2 && lines[4].take(2) == "  "@ && painted(lines[4].skip(2), "auth"@, seq!['1'])
    &&& lines.subrange(5, 5 + na) == auth
    &&& lines[5 + na] == Seq::<char>::empty()
    &&& lines[s0].len() >= 2 && lines[s0].take(2) == "  "@ && painted(lines[s0].skip(2), "storage"@, seq!['1'])
    &&& lines.subrange(s0 + 1, s0 + 1 + ns) == storage
    &&& lines[s0 + 1 + ns] == Seq::<char>::empty()
    &&& lines[t0].len() >= 2 && lines[t0].take(2) == "  "@ && painted(lines[t0].skip(2), "types"@, seq!['1'])
    &&& lines.subrange(t0 + 1, lines.len() as int) == types
}

/// A section heading indented by two, in bold.
fn section(title: &str) -> (r: String)
    requires
        escape_free(title@),
    ensures
        r@.len() >= 2 && r@.take(2) == "  "@ && painted(r@.skip(2), title@, seq!['1']),
{
    proof {
        reveal_strlit("  ");
    }
    let mut r = String::new();
    push_str(&mut r, "  ");
    let h = paint_bold(title);
    push_str(&mut r, h.as_str());
    assert(r@.take(2) =~= "  "@);
    assert(r@.skip(2) =~= h@);
    r
}

/// The configuration as the `config` command shows it.
pub fn render_config(config: &TinyCmsConfig, show_secrets: bool) -> (r: Vec<String>)
    ensures
        config_lines(lines_view(r@), *config, show_secrets),
{
    proof {
        reveal_strlit("Config");
        reveal_strlit("database");
        reveal_strlit("auth");
        reveal_strlit("storage");
        reveal_strlit("types");
        reveal_strlit("  ");
    }
    assert(escape_free("Config"@));
    assert(escape_free("database"@));
    assert(escape_free("auth"@));
    assert(escape_free("storage"@));
    assert(escape_free("types"@));
    let mut lines: Vec<String> = Vec::new();
    push_line(&mut lines, paint_bold("Config"));
    push_line(&mut lines, section("database"));
    push_line(&mut lines, render_database(&config.database, show_secrets, 4));
    push_line(&mut lines, String::new());
    push_line(&mut lines, section("auth"));
    let auth = match &config.auth {
        Some(a) => render_auth(Some(a), show_secrets, 4),
        None => render_auth(None, show_secrets, 4),
    };
    let ghost auth_v = lines_view(auth@);
    append_lines(&mut lines, auth);
    push_line(&mut lines, String::new());
    push_line(&mut lines, section("storage"));
    let storage = match &config.storage {
        Some(s) => render_storage(Some(s), show_secrets, 4),
        None => render_storage(None, show_secrets, 4),
    };
    let ghost storage_v = lines_view(storage@);
    append_lines(&mut lines, storage);
    push_line(&mut lines, String::new());
    push_line(&mut lines, section("types"));
    let types = render_types(&config.types, 4);
    let ghost types_v = lines_view(types@);
    append_lines(&mut lines, types);
    proof {
        let l = lines_view(lines@);
        let na: int = auth_v.len() as int;
        let ns: int = storage_v.len() as int;
        let s0: int = 6 + na;
        let t0: int = s0 + 2 + ns;
        assert(l.subrange(2, 3) =~= seq![setting_line(4, "url"@, Some(config.database.url@), true, show_secrets)]);
        assert(l.subrange(5, 5 + na) =~= auth_v);
        assert(l.subrange(s0 + 1, s0 + 1 + ns) =~= storage_v);
        assert(l.subrange(t0 + 1, l.len() as int) =~= types_v);
        assert(l[3] =~= Seq::<char>::empty());
        assert(l[5 + na] =~= Seq::<char>::empty());
        assert(l[s0 + 1 + ns] =~= Seq::<char>::empty());
        assert(painted(l[0], "Config"@, seq!['1']));
        assert(l[1].len() >= 2 && l[1].take(2) == "  "@ && painted(l[1].skip(2), "database"@, seq!['1']));
        assert(l[4].len() >= 2 && l[4].take(2) == "  "@ && painted(l[4].skip(2), "auth"@, seq!['1']));
        assert(l[s0].len() >= 2 && l[s0].take(2) == "  "@ && painted(l[s0].skip(2), "storage"@, seq!['1']));
        assert(l[t0].len() >= 2 && l[t0].take(2) == "  "@ && painted(l[t0].skip(2), "types"@, seq!['1']));
    }
    lines
}

/// Law: unless secrets are asked for, a secret setting is never shown: it reads
/// `[redacted]` when set and `none` when not. In the configuration shown, the database URL
/// is redacted, and so are the storage keys and the OAuth client secrets.
pub proof fn law_secrets_redacted(lines: Seq<Seq<char>>, config: TinyCmsConfig, v: Option<Seq<char>>)
    requires
        config_lines(lines, config, false),
    ensures
        shown_value(v, true, false) == (if v is Some { "[redacted]"@ } else { "none"@ }),
        lines[2] == spaces(4) + "url"@ + ": "@ + "[redacted]"@,
        config.storage matches Some(st) ==> {
            let s0: int = 6 + auth_lines(config.auth, false, 4).len() as int;
            &&& lines[s0 + 3] == setting_line(4, "accessKeyId"@, opt_view(st.access_key_id), true, false)
            &&& lines[s0 + 4] == setting_line(4, "secretAccessKey"@, opt_view(st.secret_access_key), true, false)
        },
{
    let na: int = auth_lines(config.auth, false, 4).len() as int;
    let s0: int = 6 + na;
    assert(lines.subrange(2, 3)[0] == lines[2]);
    match config.storage {
        Some(st) => {
            let storage = storage_lines(config.storage, false, 4);
            assert(lines.subrange(s0 + 1, s0 + 1 + storage.len() as int)[2] == lines[s0 + 3]);
            assert(lines.subrange(s0 + 1, s0 + 1 + storage.len() as int)[3] == lines[s0 + 4]);
        },
        None => {},
    }
}

// ---------------------------------------------------------------------------
// The health check
// ---------------------------------------------------------------------------

/// A found position is within range.
pub proof fn lemma_first_occurrence_bounds(s: Seq<char>, t: Seq<char>, from: int)
    ensures
        first_occurrence_from(s, t, from) matches Some(k) ==> from <= k && k + t.len() <= s.len() && k >= 0,
    decreases s.len() + 1 - from,
{
    if from >= 0 && from + t.len() <= s.len() && !crate::text::occurs_at(s, t, from) {
        lemma_first_occurrence_bounds(s, t, from + 1);
    }
}

/// A found last position is within range.
pub proof fn lemma_last_occurrence_bounds(s: Seq<char>, t: Seq<char>, upto: int)
    ensures
        crate::text::last_occurrence_upto(s, t, upto) matches Some(k) ==> 0 <= k <= upto && k + t.len() <= s.len(),
    decreases upto + 1,
{
    if upto >= 0 && !crate::text::occurs_at(s, t, upto) {
        lemma_last_occurrence_bounds(s, t, upto - 1);
    }
}

/// A database URL with its password (between the `:` and the last `@` of the part after
/// `://`, up to the first `/`) replaced by `****`; a URL without `://` is shown as
/// `<invalid DATABASE_URL>`; one without a password is shown as it is.
pub open spec fn sanitized_url(url: Seq<char>) -> Seq<char> {
    match first_occurrence_from(url, "://"@, 0) {
        None => "<invalid DATABASE_URL>"@,
        Some(scheme_end) => {
            let start = scheme_end + 3;
            let end = match index_of(url.skip(start), '/') {
                Some(k) => start + k,
                None => url.len() as int,
            };
            let authority = url.subrange(start, end);
            match last_index_of(authority, '@') {
                None => url,
                Some(at) => match index_of(authority.take(at), ':') {
                    None => url,
                    Some(colon) => url.take(start + colon + 1) + "****"@ + url.skip(start + at),
                },
            }
        },
    }
}

/// Hides the password of a database URL.
pub fn sanitize_database_url(url: &str) -> (r: String)
    ensures
        r@ == sanitized_url(url@),
{
    let s = chars_of(url);
    let sep = chars_of("://");
    proof {
        reveal_strlit("://");
        lemma_first_occurrence_bounds(s@, sep@, 0);
    }
    let scheme_end = match find_from(s.as_slice(), sep.as_slice(), 0) {
        None => {
            return "<invalid DATABASE_URL>".to_string();
        },
        Some(k) => k,
    };
    let n = s.len();
    assert(sep@.len() == 3);
    assert(scheme_end + 3 <= n);
    let start = scheme_end + 3;
    let rest = tail_of(s.as_slice(), start);
    proof {
        lemma_first_occurrence_bounds(rest@, seq!['/'], 0);
    }
    let end = match find_char(rest.as_slice(), '/') {
        Some(k) => {
            assert(k < rest@.len());
            assert(rest@.len() == n - start);
            start + k
        },
        None => s.len(),
    };
    let mut authority: Vec<char> = Vec::new();
    let mut i: usize = start;
    while i < end
        invariant
            start <= i <= end <= s@.len(),
            authority@ == s@.subrange(start as int, i as int),
        decreases end - i,
    {
        authority.push(s[i]);
        i = i + 1;
        assert(authority@ =~= s@.subrange(start as int, i as int));
    }
    proof {
        lemma_last_occurrence_bounds(authority@, seq!['@'], authority@.len() - 1);
    }
    let at = match rfind_char(authority.as_slice(), '@') {
        None => {
            return url.to_string();
        },
        Some(k) => k,
    };
    let mut credentials: Vec<char> = Vec::new();
    let mut j: usize = 0;
    while j < at
        invariant
            j <= at < authority@.len(),
            credentials@ == authority@.take(j as int),
        decreases at - j,
    {
        credentials.push(authority[j]);
        j = j + 1;
        assert(credentials@ =~= authority@.take(j as int));
    }
    proof {
        lemma_first_occurrence_bounds(credentials@, seq![':'], 0);
    }
    let colon = match find_char(credentials.as_slice(), ':') {
        None => {
            return url.to_string();
        },
        Some(k) => k,
    };
    let password_start = start + colon + 1;
    let password_end = start + at;
    let mut r = substring(s.as_slice(), 0, password_start);
    push_str(&mut r, "****");
    let tail = tail_of(s.as_slice(), password_end);
    crate::text::push_chars(&mut r, tail.as_slice());
    assert(s@.subrange(0, password_start as int) =~= s@.take(password_start as int));
    r
}

/// The end of the white space starting at `i`.
pub open spec fn space_end(s: Seq<char>, i: int) -> int
    decreases s.len() - i,
{
    if 0 <= i < s.len() && whitespace(s[i]) {
        space_end(s, i + 1)
    } else {
        i
    }
}

/// The end of the word (the run of characters that are not white space) starting at `i`.
pub open spec fn word_end(s: Seq<char>, i: int) -> int
    decreases s.len() - i,
{
    if 0 <= i < s.len() && !whitespace(s[i]) {
        word_end(s, i + 1)
    } else {
        i
    }
}

/// The scans stay within the text and move forward.
pub proof fn lemma_scan_bounds(s: Seq<char>, i: int)
    requires
        0 <= i <= s.len(),
    ensures
        i <= space_end(s, i) <= s.len(),
        i <= word_end(s, i) <= s.len(),
        i < s.len() && !whitespace(s[i]) ==> word_end(s, i) > i,
        space_end(s, i) < s.len() ==> !whitespace(s[space_end(s, i)]),
    decreases s.len() - i,
{
    if i < s.len() {
        lemma_scan_bounds(s, i + 1);
    }
}

/// A word with one leading `v` dropped.
pub open spec fn without_v(w: Seq<char>) -> Seq<char> {
    if w.len() > 0 && w[0] == 'v' {
        w.skip(1)
    } else {
        w
    }
}

/// The first word from position `i` on that, without a leading `v`, starts with a digit
/// (as that remainder).
pub open spec fn version_from(s: Seq<char>, i: int) -> Option<Seq<char>>
    decreases s.len() - i,
{
    if i < 0 || i > s.len() {
        None
    } else {
        proof {
            lemma_scan_bounds(s, i);
        }
        let j = space_end(s, i);
        if j >= s.len() {
            None
        } else {
            proof {
                lemma_scan_bounds(s, j);
            }
            let k = word_end(s, j);
            let v = without_v(s.subrange(j, k));
            if v.len() > 0 && is_digit(v[0]) {
                Some(v)
            } else {
                version_from(s, k)
            }
        }
    }
}

/// The version a tool prints: the first word that (after an optional `v`) starts with a
/// digit, or else the whole output trimmed.
pub open spec fn version_of(output: Seq<char>) -> Seq<char> {
    match version_from(output, 0) {
        Some(v) => v,
        None => trim(output),
    }
}

/// Reads the version from what `<tool> --version` printed.
pub fn parse_version(output: &str) -> (r: String)
    ensures
        r@ == version_of(output@),
{
    let s = chars_of(output);
    let mut i: usize = 0;
    while i <= s.len()
        invariant
            s@ == output@,
            i <= s@.len() + 1,
            i <= s@.len() ==> version_from(s@, 0) == version_from(s@, i as int),
            i > s@.len() ==> version_from(s@, 0) is None,
        decreases s@.len() + 1 - i,
    {
        proof {
            lemma_scan_bounds(s@, i as int);
        }
        let mut j: usize = i;
        while j < s.len() && is_whitespace(s[j])
            invariant
                i <= j <= s@.len(),
                space_end(s@, i as int) == space_end(s@, j as int),
            decreases s@.len() - j,
        {
            j = j + 1;
        }
        if j >= s.len() {
            assert(version_from(s@, i as int) is None);
            let t = trim_chars(s.as_slice());
            return string_of(t.as_slice());
        }
        proof {
            lemma_scan_bounds(s@, j as int);
        }
        let mut k: usize = j;
        while k < s.len() && !is_whitespace(s[k])
            invariant
                j <= k <= s@.len(),
                word_end(s@, j as int) == word_end(s@, k as int),
            decreases s@.len() - k,
        {
            k = k + 1;
        }
        let word = substring(s.as_slice(), j, k);
        let wc = chars_of(word.as_str());
        let v: Vec<char> = if wc.len() > 0 && wc[0] == 'v' {
            tail_of(wc.as_slice(), 1)
        } else {
            wc
        };
        if v.len() > 0 && '0' <= v[0] && v[0] <= '9' {
            return string_of(v.as_slice());
        }
        i = k;
    }
    proof {
        if i <= s@.len() {
            lemma_scan_bounds(s@, i as int);
        }
    }
    let t = trim_chars(s.as_slice());
    string_of(t.as_slice())
}

/// The marker codes: bold green, bold yellow, bold red, dimmed.
pub open spec fn green_code() -> Seq<char> {
    seq!['1', ';', '3', '2']
}

/// Bold yellow.
pub open spec fn yellow_code() -> Seq<char> {
    seq!['1', ';', '3', '3']
}

/// Bold red.
pub open spec fn red_code() -> Seq<char> {
    seq!['1', ';', '3', '1']
}

/// Dimmed.
pub open spec fn dim_code() -> Seq<char> {
    seq!['2']
}

/// The heading of the runtime section, before it is made bold.
pub open spec fn runtime_heading(pref: Option<Seq<char>>) -> Seq<char> {
    match pref {
        Some(name) => "JS runtime (preferred: "@ + name + ")"@,
        None => "JS runtime (first match is used)"@,
    }
}

/// The heading of the runtime section, in bold.
pub fn runtime_header(pref: Option<&str>) -> (r: String)
    ensures
        escape_free(runtime_heading(opt_str(pref))) ==> painted(r@, runtime_heading(opt_str(pref)), seq!['1']),
{
    let mut h = String::new();
    match pref {
        Some(name) => {
            push_str(&mut h, "JS runtime (preferred: ");
            push_str(&mut h, name);
            push_str(&mut h, ")");
        },
        None => {
            push_str(&mut h, "JS runtime (first match is used)");
        },
    }
    paint_bold(h.as_str())
}

/// How running `<tool> --version` went.
pub enum ProbeOutcome {
    /// It ran and succeeded; what it printed.
    Succeeded(String),
    /// It ran and failed.
    Failed,
    /// It could not be started.
    NotFound,
}

/// The line reporting on a tool.
pub open spec fn check_line_for(bin: Seq<char>, outcome: ProbeOutcome, marker: Seq<char>) -> bool {
    match outcome {
        ProbeOutcome::Succeeded(out) => exists|m: Seq<char>| #[trigger]
            painted(m, "[ok]"@, green_code()) && marker == "  "@ + m + " "@ + bin + " v"@ + version_of(out@),
        ProbeOutcome::Failed => exists|m: Seq<char>| #[trigger]
            painted(m, "[warn]"@, yellow_code()) && marker == "  "@ + m + " "@ + bin + " exited with error"@,
        ProbeOutcome::NotFound => exists|m: Seq<char>| #[trigger]
            painted(m, "[missing]"@, red_code()) && marker == "  "@ + m + " "@ + bin + " not found in PATH"@,
    }
}

/// The line reporting on a tool: its version, or that it failed or is not installed.
pub fn check_line(bin: &str, outcome: &ProbeOutcome) -> (r: String)
    ensures
        check_line_for(bin@, *outcome, r@),
{
    let mut r = String::new();
    push_str(&mut r, "  ");
    match outcome {
        ProbeOutcome::Succeeded(out) => {
            let m = ok();
            push_str(&mut r, m.as_str());
            push_str(&mut r, " ");
            push_str(&mut r, bin);
            push_str(&mut r, " v");
            let v = parse_version(out.as_str());
            push_str(&mut r, v.as_str());
            assert(painted(m@, "[ok]"@, green_code()));
        },
        ProbeOutcome::Failed => {
            let m = warn();
            push_str(&mut r, m.as_str());
            push_str(&mut r, " ");
            push_str(&mut r, bin);
            push_str(&mut r, " exited with error");
            assert(painted(m@, "[warn]"@, yellow_code()));
        },
        ProbeOutcome::NotFound => {
            let m = missing();
            push_str(&mut r, m.as_str());
            push_str(&mut r, " ");
            push_str(&mut r, bin);
            push_str(&mut r, " not found in PATH");
            assert(painted(m@, "[missing]"@, red_code()));
        },
    }
    r
}

/// The line reporting that the config could not be loaded (after an empty line).
pub fn config_error_line(error: &str) -> (r: String)
    ensures
        exists|m: Seq<char>| #[trigger]
            painted(m, "[missing]"@, red_code()) && r@ == "\n  "@ + m + " could not load config: "@ + error@,
{
    let m = missing();
    let mut r = String::new();
    push_str(&mut r, "\n  ");
    push_str(&mut r, m.as_str());
    push_str(&mut r, " could not load config: ");
    push_str(&mut r, error);
    assert(painted(m@, "[missing]"@, red_code()));
    r
}

/// How checking the database went.
pub enum DatabaseProbe {
    /// Connected; the answer to `SELECT 1`.
    Answered(i32),
    /// Connected, but the query failed with this message.
    QueryFailed(String),
    /// Could not connect, with this message.
    ConnectFailed(String),
}

/// The line reporting on the database: whether it answered, with the URL's password hidden.
pub open spec fn database_line_for(url: Seq<char>, probe: DatabaseProbe, line: Seq<char>) -> bool {
    match probe {
        DatabaseProbe::Answered(v) => if v == 1 {
            exists|m: Seq<char>, d: Seq<char>| #[trigger]
                painted(m, "[ok]"@, green_code()) && #[trigger] painted(d, sanitized_url(url), dim_code()) && line
                    == "  "@ + m + " connected "@ + d
        } else {
            exists|m: Seq<char>| #[trigger]
                painted(m, "[warn]"@, yellow_code()) && line == "  "@ + m + " connected, unexpected ping response"@
        },
        DatabaseProbe::QueryFailed(e) => exists|m: Seq<char>| #[trigger]
            painted(m, "[missing]"@, red_code()) && line == "  "@ + m + " query failed: "@ + e@,
        DatabaseProbe::ConnectFailed(e) => exists|m: Seq<char>, d: Seq<char>| #[trigger]
            painted(m, "[missing]"@, red_code()) && #[trigger] painted(d, sanitized_url(url), dim_code()) && line
                == "  "@ + m + " cannot connect "@ + d + ": "@ + e@,
    }
}

/// The line reporting on the database.
pub fn database_line(url: &str, probe: &DatabaseProbe) -> (r: String)
    ensures
        escape_free(sanitized_url(url@)) ==> database_line_for(url@, *probe, r@),
{
    let sanitized = sanitize_database_url(url);
    let mut r = String::new();
    push_str(&mut r, "  ");
    match probe {
        DatabaseProbe::Answered(v) => {
            if *v == 1 {
                let m = ok();
                let d = paint_dimmed(sanitized.as_str());
                push_str(&mut r, m.as_str());
                push_str(&mut r, " connected ");
                push_str(&mut r, d.as_str());
                assert(escape_free(sanitized_url(url@)) ==> painted(m@, "[ok]"@, green_code()) && painted(
                    d@,
                    sanitized_url(url@),
                    dim_code(),
                ));
            } else {
                let m = warn();
                push_str(&mut r, m.as_str());
                push_str(&mut r, " connected, unexpected ping response");
                assert(painted(m@, "[warn]"@, yellow_code()));
            }
        },
        DatabaseProbe::QueryFailed(e) => {
            let m = missing();
            push_str(&mut r, m.as_str());
            push_str(&mut r, " query failed: ");
            push_str(&mut r, e.as_str());
            assert(painted(m@, "[missing]"@, red_code()));
        },
        DatabaseProbe::ConnectFailed(e) => {
            let m = missing();
            let d = paint_dimmed(sanitized.as_str());
            push_str(&mut r, m.as_str());
            push_str(&mut r, " cannot connect ");
            push_str(&mut r, d.as_str());
            push_str(&mut r, ": ");
            push_str(&mut r, e.as_str());
            assert(escape_free(sanitized_url(url@)) ==> painted(m@, "[missing]"@, red_code()) && painted(
                d@,
                sanitized_url(url@),
                dim_code(),
            ));
        },
    }
    r
}

/// The line reporting that the database check was skipped.
pub fn database_skipped_line() -> (r: String)
    ensures
        exists|m: Seq<char>| #[trigger]
            painted(m, "[skip]"@, dim_code()) && r@ == "  "@ + m + " skipped \u{2014} config unavailable"@,
{
    let m = skip();
    let mut r = String::new();
    push_str(&mut r, "  ");
    push_str(&mut r, m.as_str());
    push_str(&mut r, " skipped \u{2014} config unavailable");
    assert(painted(m@, "[skip]"@, dim_code()));
    r
}

/// The line reporting on media storage: its bucket and endpoint (`AWS S3` when none is
/// set), or that uploads are disabled.
pub open spec fn storage_line_for(storage: Option<StorageConfig>, line: Seq<char>) -> bool {
    match storage {
        Some(s) => exists|m: Seq<char>| #[trigger]
            painted(m, "[ok]"@, green_code()) && line == "  "@ + m + " bucket="@ + s.bucket@ + " endpoint="@
                + match s.endpoint {
                Some(e) => e@,
                None => "AWS S3"@,
            },
        None => exists|m: Seq<char>| #[trigger]
            painted(m, "[skip]"@, dim_code()) && line == "  "@ + m + " storage not configured \u{2014} uploads disabled"@,
    }
}

/// The line reporting on media storage.
pub fn storage_line(storage: Option<&StorageConfig>) -> (r: String)
    ensures
        storage_line_for(
            match storage {
                Some(s) => Some(*s),
                None => None,
            },
            r@,
        ),
{
    let mut r = String::new();
    push_str(&mut r, "  ");
    match storage {
        Some(s) => {
            let m = ok();
            push_str(&mut r, m.as_str());
            push_str(&mut r, " bucket=");
            push_str(&mut r, s.bucket.as_str());
            push_str(&mut r, " endpoint=");
            match &s.endpoint {
                Some(e) => push_str(&mut r, e.as_str()),
                None => push_str(&mut r, "AWS S3"),
            }
            assert(painted(m@, "[ok]"@, green_code()));
        },
        None => {
            let m = skip();
            push_str(&mut r, m.as_str());
            push_str(&mut r, " storage not configured \u{2014} uploads disabled");
            assert(painted(m@, "[skip]"@, dim_code()));
        },
    }
    r
}

} // verus!
