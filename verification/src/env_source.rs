//! Settings from the environment and from environment files.

use vstd::prelude::*;
use crate::each::{any_where, pick_first};
use crate::entries::EntryKind;
use crate::list::{any, extend, first_some, law_first_some, lemma_any, put};
use crate::paths::{same_path, same_path_spec};
use crate::text::{
    after_prefix, begins, chars_of, digit, ends, is_digit, is_upper, is_white, law_bare_texts_stay,
    law_found_parts_are_there, law_parted, law_parts_are_found, law_trimmed_texts_are_bare, lines,
    parted, same, split_lines, split_once, starts_with, step, strip_prefix, text_between, trim,
    trimmed, upper,
};

verus! {

broadcast use {vstd::seq::group_seq_axioms, vstd::string::group_string_axioms};

/// Whether a text can name a setting: capital letters, digits and underscores,
/// and no digit first.
pub open spec fn env_name_is_valid(name: Seq<char>) -> bool {
    name.len() > 0 && !is_digit(name[0]) && forall|i: int|
        0 <= i < name.len() ==> is_upper(#[trigger] name[i]) || is_digit(name[i]) || name[i] == '_'
}

/// Whether a text can name a setting.
pub fn valid_env_name(name: &str) -> (r: bool)
    ensures
        r == env_name_is_valid(name@),
{
    let a = chars_of(name);
    if a.len() == 0 || digit(a[0]) {
        return false;
    }
    let mut i: usize = 0;
    while i < a.len()
        invariant
            i <= a@.len(),
            a@ == name@,
            forall|j: int|
                0 <= j < i ==> is_upper(#[trigger] name@[j]) || is_digit(name@[j]) || name@[j]
                    == '_',
        decreases a@.len() - i,
    {
        let c = a[i];
        if !upper(c) && !digit(c) && c != '_' {
            proof {
                assert(!(is_upper(name@[i as int]) || is_digit(name@[i as int]) || name@[i as int]
                    == '_'));
            }
            return false;
        }
        i = i + 1;
    }
    true
}

/// A value without the quotes around it.
pub open spec fn unquoted(value: Seq<char>) -> Seq<char> {
    if value.len() >= 2 && (value[0] == '"' && value.last() == '"' || value[0] == '\''
        && value.last() == '\'') {
        value.subrange(1, value.len() - 1)
    } else {
        value
    }
}

/// A value without the quotes around it.
pub fn unquote_env_value(value: &str) -> (r: String)
    ensures
        r@ == unquoted(value@),
{
    let a = chars_of(value);
    let n = a.len();
    if n >= 2 && ((a[0] == '"' && a[n - 1] == '"') || (a[0] == '\'' && a[n - 1] == '\'')) {
        text_between(&a, 1, n - 1)
    } else {
        value.to_string()
    }
}

/// A line without white space around it and without the word `export`.
pub open spec fn assignment_text(line: Seq<char>) -> Seq<char> {
    let bare = trimmed(line);
    match after_prefix(bare, "export "@) {
        Some(rest) => trimmed(rest),
        None => bare,
    }
}

/// The value that a line assigns to the setting.
pub open spec fn assigned(line: Seq<char>, name: Seq<char>) -> Option<Seq<char>> {
    let bare = trimmed(line);
    if bare.len() == 0 || begins(bare, "#"@) {
        None
    } else {
        match parted(assignment_text(line), '=') {
            Some((key, value)) => if trimmed(key) == name && env_name_is_valid(name) {
                Some(unquoted(trimmed(value)))
            } else {
                None
            },
            None => None,
        }
    }
}

/// The value that a line assigns to the setting.
pub fn parse_env_line(line: &str, name: &str) -> (r: Option<String>)
    ensures
        r.deep_view() == assigned(line@, name@),
{
    let bare = trim(line);
    if bare.as_str().is_empty() || starts_with(&bare, "#") {
        return None;
    }
    let text = match strip_prefix(&bare, "export ") {
        Some(rest) => trim(&rest),
        None => bare,
    };
    match split_once(&text, '=') {
        Some((key, value)) => if same(&trim(&key), name) && valid_env_name(name) {
            Some(unquote_env_value(&trim(&value)))
        } else {
            None
        },
        None => None,
    }
}

/// The value of a setting in an environment file: that of the first line which
/// assigns it.
pub open spec fn env_file_value(raw: Seq<char>, name: Seq<char>) -> Option<Seq<char>> {
    first_some(lines(raw), |line: Seq<char>| assigned(line, name))
}

/// The value of a setting in an environment file.
pub fn parse_env_file_value(raw: &str, name: &str) -> (r: Option<String>)
    ensures
        r.deep_view() == env_file_value(raw@, name@),
{
    pick_first(
        &split_lines(raw),
        |line: &String| -> (r: Option<String>)
            ensures
                r.deep_view() == assigned(line@, name@)
            { parse_env_line(line, name) },
        Ghost(|line: Seq<char>| assigned(line, name@)),
    )
}

// ---------------------------------------------------------------------------
// Where a setting comes from
// ---------------------------------------------------------------------------

/// An environment file; one that cannot be used has no content.
#[derive(Debug)]
pub struct EnvFile {
    pub path: String,
    pub content: Option<String>,
}

/// View of [`EnvFile`].
#[verifier::ext_equal]
pub struct EnvFileView {
    pub path: Seq<char>,
    pub content: Option<Seq<char>>,
}

impl DeepView for EnvFile {
    type V = EnvFileView;

    open spec fn deep_view(&self) -> EnvFileView {
        EnvFileView {
            path: self.path.deep_view(),
            content: self.content.deep_view(),
        }
    }
}

/// The value of a setting, and where it comes from.
#[derive(Debug)]
pub struct EnvValue {
    pub value: String,
    pub source: String,
}

/// View of [`EnvValue`].
#[verifier::ext_equal]
pub struct EnvValueView {
    pub value: Seq<char>,
    pub source: Seq<char>,
}

impl DeepView for EnvValue {
    type V = EnvValueView;

    open spec fn deep_view(&self) -> EnvValueView {
        EnvValueView {
            value: self.value.deep_view(),
            source: self.source.deep_view(),
        }
    }
}

/// The largest environment file that is read, in bytes.
pub const MAX_ENV_FILE_BYTES: u64 = 65536;

/// An environment file as it is used: one that is missing, a link, no file, or too
/// large has no content.
pub open spec fn env_file_used(
    path: Seq<char>,
    entry: Option<(EntryKind, u64)>,
    content: Option<Seq<char>>,
) -> EnvFileView {
    EnvFileView {
        path,
        content: match entry {
            Some((kind, size)) => if kind == EntryKind::File && size <= MAX_ENV_FILE_BYTES {
                content
            } else {
                None
            },
            None => None,
        },
    }
}

/// An environment file as it is used. `entry` is what the path leads to and how
/// large it is; `content` is the text, where it could be read.
pub fn read_env_file(path: &str, entry: Option<(EntryKind, u64)>, content: Option<String>) -> (r:
    EnvFile)
    ensures
        r.deep_view() == env_file_used(path@, entry, content.deep_view()),
{
    let usable = match entry {
        Some((kind, size)) => kind == EntryKind::File && size <= MAX_ENV_FILE_BYTES,
        None => false,
    };
    EnvFile {
        path: path.to_string(),
        content: if usable {
            content
        } else {
            None
        },
    }
}

/// The value that a file gives.
pub open spec fn value_in_file(file: EnvFileView, name: Seq<char>) -> Option<EnvValueView> {
    match file.content {
        Some(raw) => match env_file_value(raw, name) {
            Some(value) => Some(EnvValueView { value, source: file.path }),
            None => None,
        },
        None => None,
    }
}

/// The value of a setting: that of the process, or else that of the first file
/// which has one.
pub open spec fn resolved(
    name: Seq<char>,
    process: Option<Seq<char>>,
    files: Seq<EnvFileView>,
) -> Option<EnvValueView> {
    match process {
        Some(value) => Some(EnvValueView { value, source: "process"@ }),
        None => if env_name_is_valid(name) {
            first_some(files, |f: EnvFileView| value_in_file(f, name))
        } else {
            None
        },
    }
}

/// The value of a setting, and where it comes from.
pub fn resolve_env(name: &str, process: Option<&str>, files: &Vec<EnvFile>) -> (r: Option<EnvValue>)
    ensures
        r.deep_view() == resolved(name@, process.deep_view(), files.deep_view()),
{
    if let Some(value) = process {
        return Some(EnvValue { value: value.to_string(), source: "process".to_string() });
    }
    if !valid_env_name(name) {
        return None;
    }
    pick_first(
        files,
        |f: &EnvFile| -> (r: Option<EnvValue>)
            ensures
                r.deep_view() == value_in_file(f.deep_view(), name@)
            {
                match &f.content {
                    Some(raw) => match parse_env_file_value(raw, name) {
                        Some(value) => Some(EnvValue { value, source: f.path.clone() }),
                        None => None,
                    },
                    None => None,
                }
            },
        Ghost(|f: EnvFileView| value_in_file(f, name@)),
    )
}

/// The value of a variable: that of the process, else that of the first file which has
/// one.
pub fn var_string(name: &str, process: Option<&str>, files: &Vec<EnvFile>) -> (r: Option<String>)
    ensures
        r.deep_view() == (match resolved(name@, process.deep_view(), files.deep_view()) {
            Some(found) => Some(found.value),
            None => None,
        }),
{
    match resolve_env(name, process, files) {
        Some(found) => Some(found.value),
        None => None,
    }
}

/// Where a setting comes from, if its name is valid.
pub open spec fn source_of(
    name: Seq<char>,
    process: Option<Seq<char>>,
    files: Seq<EnvFileView>,
) -> Option<Seq<char>> {
    if !env_name_is_valid(name) {
        None
    } else {
        match resolved(name, process, files) {
            Some(found) => Some(found.source),
            None => None,
        }
    }
}

/// Where a setting comes from, if its name is valid.
pub fn var_source(name: &str, process: Option<&str>, files: &Vec<EnvFile>) -> (r: Option<String>)
    ensures
        r.deep_view() == source_of(name@, process.deep_view(), files.deep_view()),
{
    if !valid_env_name(name) {
        return None;
    }
    match resolve_env(name, process, files) {
        Some(found) => Some(found.source),
        None => None,
    }
}

/// Whether a list has this path.
pub open spec fn has_path(list: Seq<Seq<char>>, path: Seq<char>) -> bool {
    any(list, |p: Seq<char>| same_path_spec(p, path))
}

/// The paths without repeats, each where it comes first.
pub open spec fn distinct(paths: Seq<Seq<char>>) -> Seq<Seq<char>>
    decreases paths.len(),
{
    if paths.len() == 0 {
        Seq::empty()
    } else {
        let rest = distinct(paths.drop_last());
        if has_path(rest, paths.last()) {
            rest
        } else {
            rest.push(paths.last())
        }
    }
}

/// The paths without repeats, each where it comes first.
pub fn dedup_paths(paths: &Vec<String>) -> (r: Vec<String>)
    ensures
        r.deep_view() == distinct(paths.deep_view()),
{
    let ghost all = paths.deep_view();
    let mut out: Vec<String> = Vec::new();
    let mut i: usize = 0;
    proof {
        ends(all);
        assert(out.deep_view() =~= Seq::<Seq<char>>::empty());
    }
    while i < paths.len()
        invariant
            i <= paths@.len(),
            all == paths.deep_view(),
            out.deep_view() == distinct(all.take(i as int)),
        decreases paths@.len() - i,
    {
        let path = &paths[i];
        proof {
            step(all, i as int);
        }
        let known = any_where(
            &out,
            |p: &String| -> (b: bool)
                ensures
                    b == same_path_spec(p@, path@)
                { same_path(p, path) },
            Ghost(|p: Seq<char>| same_path_spec(p, path@)),
        );
        if !known {
            put(&mut out, path);
        }
        i = i + 1;
    }
    proof {
        ends(all);
    }
    out
}

/// Where settings are read from besides the configured files.
pub open spec fn default_files() -> Seq<Seq<char>> {
    seq![
        "/etc/opsctl/backup.env"@,
        "/etc/opsctl/restic.env"@,
    ]
}

/// Where settings are read from besides the configured files.
pub fn default_env_files() -> (r: Vec<String>)
    ensures
        r.deep_view() == default_files(),
{
    let list: Vec<String> = vec![
        "/etc/opsctl/backup.env".to_string(),
        "/etc/opsctl/restic.env".to_string(),
    ];
    proof {
        assert(list.deep_view() =~= default_files());
    }
    list
}

/// The files that settings are read from: those that are configured, then the
/// usual ones.
pub open spec fn settings_files(configured: Seq<Seq<char>>) -> Seq<Seq<char>> {
    distinct(configured + default_files())
}

/// The files that settings are read from.
pub fn configured_file_paths(configured: &Vec<String>) -> (r: Vec<String>)
    ensures
        r.deep_view() == settings_files(configured.deep_view()),
{
    let mut paths = configured.clone();
    extend(&mut paths, &default_env_files());
    dedup_paths(&paths)
}

// ---------------------------------------------------------------------------
// Laws
// ---------------------------------------------------------------------------

/// No two paths that are kept are the same, and every path is kept in some form.
pub proof fn law_paths_are_distinct(paths: Seq<Seq<char>>)
    ensures
        forall|i: int, j: int|
            0 <= i < j < distinct(paths).len() ==> !same_path_spec(
                #[trigger] distinct(paths)[i],
                #[trigger] distinct(paths)[j],
            ),
        forall|i: int| 0 <= i < paths.len() ==> has_path(distinct(paths), #[trigger] paths[i]),
    decreases paths.len(),
{
    if paths.len() > 0 {
        let d = paths.drop_last();
        let rest = distinct(d);
        let x = paths.last();
        let r = distinct(paths);
        law_paths_are_distinct(d);
        let p = |q: Seq<char>| same_path_spec(q, x);
        lemma_any(rest, p);
        assert forall|i: int, j: int| 0 <= i < j < r.len() implies !same_path_spec(
            #[trigger] r[i],
            #[trigger] r[j],
        ) by {
            assert(r[i] == rest[i]);
            if j < rest.len() {
                assert(r[j] == rest[j]);
            } else if same_path_spec(r[i], x) {
                assert(p(rest[i]));
            }
        }
        assert forall|i: int| 0 <= i < paths.len() implies has_path(r, #[trigger] paths[i]) by {
            let q = |q: Seq<char>| same_path_spec(q, paths[i]);
            lemma_any(r, q);
            if i < d.len() {
                assert(d[i] == paths[i]);
                lemma_any(rest, q);
                let k = choose|k: int| 0 <= k < rest.len() && q(#[trigger] rest[k]);
                assert(r[k] == rest[k]);
            } else if has_path(rest, x) {
            } else {
                assert(q(r[r.len() - 1]));
            }
        }
    }
}

/// The process comes before every file.
pub proof fn law_process_comes_first(name: Seq<char>, value: Seq<char>, files: Seq<EnvFileView>)
    ensures
        resolved(name, Some(value), files) == Some(EnvValueView { value, source: "process"@ }),
{
}

/// A setting with an invalid name is never read from a file.
pub proof fn law_invalid_names_have_no_file_value(raw: Seq<char>, name: Seq<char>)
    requires
        !env_name_is_valid(name),
    ensures
        env_file_value(raw, name) is None,
{
    lemma_no_line(lines(raw), name);
}

proof fn lemma_no_line(all: Seq<Seq<char>>, name: Seq<char>)
    requires
        !env_name_is_valid(name),
    ensures
        first_some(all, |line: Seq<char>| assigned(line, name)) is None,
    decreases all.len(),
{
    if all.len() > 0 {
        lemma_no_line(all.drop_last(), name);
    }
}

/// The name of a variable is capital letters, digits and underscores, at least one, and
/// does not begin with a digit.
pub proof fn law_variable_names(name: Seq<char>)
    ensures
        env_name_is_valid(name) <==> name.len() > 0 && !('0' <= name[0] <= '9') && forall|i: int|
            0 <= i < name.len() ==> 'A' <= #[trigger] name[i] <= 'Z' || '0' <= name[i] <= '9'
                || name[i] == '_',
{
    if forall|i: int|
        0 <= i < name.len() ==> is_upper(#[trigger] name[i]) || is_digit(name[i]) || name[i]
            == '_' {
        assert forall|i: int| 0 <= i < name.len() implies 'A' <= #[trigger] name[i] <= 'Z' || '0'
            <= name[i] <= '9' || name[i] == '_' by {
            assert(is_upper(name[i]) || is_digit(name[i]) || name[i] == '_');
        }
    }
    if forall|i: int|
        0 <= i < name.len() ==> 'A' <= #[trigger] name[i] <= 'Z' || '0' <= name[i] <= '9' || name[i]
            == '_' {
        assert forall|i: int| 0 <= i < name.len() implies is_upper(#[trigger] name[i]) || is_digit(
            name[i],
        ) || name[i] == '_' by {}
    }
}

/// Quotes of either kind round a value are taken off, once and only as a pair.
pub proof fn law_quotes_are_taken_off(value: Seq<char>)
    ensures
        unquoted(seq!['"'] + value + seq!['"']) == value,
        unquoted(seq!['\''] + value + seq!['\'']) == value,
        value.len() < 2 || value[0] != value.last() || (value[0] != '"' && value[0] != '\'')
            ==> unquoted(value) == value,
{
    let a = seq!['"'] + value + seq!['"'];
    let b = seq!['\''] + value + seq!['\''];
    assert(a.subrange(1, a.len() - 1) =~= value);
    assert(b.subrange(1, b.len() - 1) =~= value);
}

/// A line with a name, an equals sign and a value assigns the value, without its quotes, to
/// the name and to no other; with or without `export` before it. A comment assigns nothing.
pub proof fn law_assignments(name: Seq<char>, value: Seq<char>, other: Seq<char>)
    requires
        env_name_is_valid(name),
        value.len() > 0,
        !is_white(value[0]),
        !is_white(value.last()),
    ensures
        assigned(name.push('=') + value, name) == Some(unquoted(value)),
        assigned("export "@ + (name.push('=') + value), name) == Some(unquoted(value)),
        other != name ==> assigned(name.push('=') + value, other) is None,
        assigned("#"@ + value, other) is None,
        assigned(Seq::empty(), other) is None,
{
    let line = name.push('=') + value;
    reveal_strlit("export ");
    reveal_strlit("#");
    assert(is_upper(name[0]) || is_digit(name[0]) || name[0] == '_');
    assert(is_upper(name[name.len() - 1]) || is_digit(name[name.len() - 1]) || name[name.len() - 1]
        == '_');
    law_bare_texts_stay(line);
    law_bare_texts_stay(name);
    law_bare_texts_stay(value);
    let exported = "export "@ + line;
    law_bare_texts_stay(exported);
    law_parts_are_found(Seq::empty(), "export "@, line);
    law_parts_are_found(Seq::empty(), "#"@, value);
    law_bare_texts_stay("#"@ + value);
    law_trimmed_texts_are_bare(Seq::empty());
    assert(line[0] == name[0]);
    assert("export "@[0] == 'e');
    if begins(line, "export "@) {
        law_found_parts_are_there(line, "export "@);
        assert(line[0] == 'e');
    }
    if begins(line, "#"@) {
        law_found_parts_are_there(line, "#"@);
        assert(line[0] == '#');
    }
    if begins(exported, "#"@) {
        law_found_parts_are_there(exported, "#"@);
        assert(exported[0] == '#');
    }
    lemma_parted_name(name, value);
}

proof fn lemma_parted_name(name: Seq<char>, value: Seq<char>)
    requires
        env_name_is_valid(name),
    ensures
        parted(name.push('=') + value, '=') == Some((name, value)),
{
    let line = name.push('=') + value;
    law_parted(line, '=');
    assert(line[name.len() as int] == '=');
    assert(line.contains('='));
    let (before, after) = parted(line, '=')->0;
    if before.len() < name.len() {
        assert(line[before.len() as int] == '=');
        assert(is_upper(name[before.len() as int]) || is_digit(name[before.len() as int])
            || name[before.len() as int] == '_');
    }
    if before.len() > name.len() {
        assert(before[name.len() as int] == line[name.len() as int]);
        assert(before.contains('='));
    }
    assert(before =~= line.take(before.len() as int));
    assert(name =~= line.take(name.len() as int));
    assert(after =~= line.skip((before.len() + 1) as int));
    assert(value =~= line.skip((name.len() + 1) as int));
}

/// The value of a variable in a file is that of the first line that assigns one.
pub proof fn law_values_in_files(raw: Seq<char>, name: Seq<char>)
    ensures
        match env_file_value(raw, name) {
            None => forall|i: int|
                0 <= i < lines(raw).len() ==> assigned(#[trigger] lines(raw)[i], name) is None,
            Some(v) => exists|i: int|
                0 <= i < lines(raw).len() && assigned(#[trigger] lines(raw)[i], name) == Some(v)
                    && forall|j: int|
                    0 <= j < i ==> assigned(#[trigger] lines(raw)[j], name) is None,
        },
{
    let all = lines(raw);
    let f = |line: Seq<char>| assigned(line, name);
    law_first_some(all, f);
    if first_some(all, f) is Some {
        let i = choose|i: int|
            0 <= i < all.len() && f(#[trigger] all[i]) == first_some(all, f) && forall|j: int|
                0 <= j < i ==> f(#[trigger] all[j]) is None;
        assert(assigned(all[i], name) == env_file_value(raw, name));
        assert forall|j: int| 0 <= j < i implies assigned(#[trigger] all[j], name) is None by {
            assert(f(all[j]) is None);
        }
    } else {
        assert forall|i: int| 0 <= i < all.len() implies assigned(
            #[trigger] all[i],
            name,
        ) is None by {
            assert(f(all[i]) is None);
        }
    }
}

/// A file of settings is used exactly where it is a regular file of at most 64 KiB.
pub proof fn law_which_files_are_used(
    path: Seq<char>,
    entry: Option<(EntryKind, u64)>,
    content: Option<Seq<char>>,
)
    ensures
        env_file_used(path, entry, content).path == path,
        env_file_used(path, entry, content).content == (match entry {
            Some((kind, size)) => if kind == EntryKind::File && size <= 65536 {
                content
            } else {
                None
            },
            None => None,
        }),
{
}

/// Where a variable's value comes from: the process if that has it; else, for a valid
/// name, the first file that assigns it.
pub proof fn law_where_values_come_from(
    name: Seq<char>,
    process: Option<Seq<char>>,
    files: Seq<EnvFileView>,
)
    ensures
        ({
            let r = resolved(name, process, files);
            &&& process is Some ==> r is Some && r->0.value == process->0 && r->0.source
                == "process"@
            &&& process is None && r is Some ==> env_name_is_valid(name) && exists|i: int|
                0 <= i < files.len() && (#[trigger] files[i]).content is Some && env_file_value(
                    files[i].content->0,
                    name,
                ) == Some(r->0.value) && r->0.source == files[i].path && forall|j: int|
                    0 <= j < i ==> (#[trigger] files[j]).content is None || env_file_value(
                        files[j].content->0,
                        name,
                    ) is None
            &&& process is None && env_name_is_valid(name) && r is None ==> forall|i: int|
                0 <= i < files.len() ==> (#[trigger] files[i]).content is None || env_file_value(
                    files[i].content->0,
                    name,
                ) is None
            &&& source_of(name, process, files) is Some <==> env_name_is_valid(name) && r is Some
            &&& source_of(name, process, files) is Some ==> source_of(name, process, files)->0
                == r->0.source
        }),
{
    let f = |f: EnvFileView| value_in_file(f, name);
    law_first_some(files, f);
    if first_some(files, f) is Some {
        let i = choose|i: int|
            0 <= i < files.len() && f(#[trigger] files[i]) == first_some(files, f) && forall|
                j: int,
            |
                0 <= j < i ==> f(#[trigger] files[j]) is None;
        assert(files[i].content is Some);
        assert forall|j: int| 0 <= j < i implies (#[trigger] files[j]).content is None
            || env_file_value(files[j].content->0, name) is None by {
            assert(f(files[j]) is None);
        }
    } else {
        assert forall|i: int| 0 <= i < files.len() implies (#[trigger] files[i]).content is None
            || env_file_value(files[i].content->0, name) is None by {
            assert(f(files[i]) is None);
        }
    }
}

/// The files of settings are those that were configured and the two default ones.
pub proof fn law_settings_files(configured: Seq<Seq<char>>, i: int)
    ensures
        0 <= i < configured.len() ==> has_path(settings_files(configured), configured[i]),
        has_path(settings_files(configured), "/etc/opsctl/backup.env"@),
        has_path(settings_files(configured), "/etc/opsctl/restic.env"@),
        forall|k: int|
            0 <= k < settings_files(configured).len() ==> configured.contains(
                #[trigger] settings_files(configured)[k],
            ) || settings_files(configured)[k] == "/etc/opsctl/backup.env"@ || settings_files(
                configured,
            )[k] == "/etc/opsctl/restic.env"@,
{
    let all = configured + default_files();
    law_paths_are_distinct(all);
    let n = configured.len() as int;
    assert(all[n] == "/etc/opsctl/backup.env"@);
    assert(all[n + 1] == "/etc/opsctl/restic.env"@);
    if 0 <= i < n {
        assert(all[i] == configured[i]);
    }
    assert forall|k: int| 0 <= k < settings_files(configured).len() implies configured.contains(
        #[trigger] settings_files(configured)[k],
    ) || settings_files(configured)[k] == "/etc/opsctl/backup.env"@ || settings_files(
        configured,
    )[k] == "/etc/opsctl/restic.env"@ by {
        lemma_distinct_from(all, k);
        let m = choose|m: int| 0 <= m < all.len() && #[trigger] all[m] == distinct(all)[k];
        if m < n {
            assert(configured[m] == all[m]);
        }
    }
}

proof fn lemma_distinct_from(paths: Seq<Seq<char>>, k: int)
    requires
        0 <= k < distinct(paths).len(),
    ensures
        exists|m: int| 0 <= m < paths.len() && #[trigger] paths[m] == distinct(paths)[k],
    decreases paths.len(),
{
    if paths.len() > 0 {
        let d = paths.drop_last();
        if k < distinct(d).len() {
            lemma_distinct_from(d, k);
            let m = choose|m: int| 0 <= m < d.len() && #[trigger] d[m] == distinct(d)[k];
            assert(paths[m] == distinct(paths)[k]);
        } else {
            assert(paths[paths.len() - 1] == distinct(paths)[k]);
        }
    }
}

} // verus!
