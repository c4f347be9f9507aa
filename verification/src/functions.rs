//! The macros that a document can call while it is expanded, and the rules
//! by which names of documents and templates are resolved.

use vstd::prelude::*;
use vstd::string::StringExecFns;
use vstd::utf8::{decode_utf8, encode_utf8, valid_utf8};
use crate::error::{
    engine_error_text, engine_words, failure, FailureKind, ProcessorError, ProcessorErrorType,
};
use crate::text::{
    chars_of, copy_texts, ends_with, has_suffix, text_of_bytes, text_of_chars, texts,
};
use crate::variable::{
    fields_view, list_of_rows, list_of_texts, put, record, table_list, text_list, Variable,
    VariableView,
};

verus! {

/// The extension of a document that is named without one.
pub const DEFAULT_DOC_EXT: &'static str = "md";

/// The extension of a document that is named without one, as text.
pub open spec fn default_extension() -> Seq<char> {
    "md"@
}

/// A file name under a directory. A name that starts at the root stands for
/// itself; otherwise it follows the directory, after a single separator
/// unless the directory is empty or ends with one.
pub open spec fn joined_path(dir: Seq<char>, filename: Seq<char>) -> Seq<char> {
    if filename.len() > 0 && filename[0] == '/' {
        filename
    } else if dir.len() == 0 || dir.last() == '/' {
        dir + filename
    } else {
        dir + seq!['/'] + filename
    }
}

/// Where the last component of a path starts: behind its last separator.
pub open spec fn name_start(path: Seq<char>) -> int
    decreases path.len(),
{
    if path.len() == 0 {
        0
    } else if path.last() == '/' {
        path.len() as int
    } else {
        name_start(path.drop_last())
    }
}

/// How much of a path names something: the path without the separators at
/// its end and without a `.` that stands behind a separator there.
pub open spec fn named_len(path: Seq<char>) -> int
    decreases path.len(),
{
    if path.len() == 0 {
        0
    } else if path.last() == '/' {
        named_len(path.drop_last())
    } else if path.last() == '.' && path.len() >= 2 && path[path.len() - 2] == '/' {
        named_len(path.drop_last())
    } else {
        path.len() as int
    }
}

/// The path up to the end of its last component.
pub open spec fn named_part(path: Seq<char>) -> Seq<char> {
    path.take(named_len(path))
}

/// The last component of a path: what stands between the last separator of
/// `named_part` and its end.
pub open spec fn file_name(path: Seq<char>) -> Seq<char> {
    named_part(path).subrange(name_start(named_part(path)), named_len(path))
}

/// Whether a last component names a file: it is not empty, and it is neither
/// `.` nor `..`.
pub open spec fn names_file(name: Seq<char>) -> bool {
    name.len() > 0 && name != seq!['.'] && name != seq!['.', '.']
}

/// Whether a file name has an extension: a dot that is not its first
/// character.
pub open spec fn has_extension(name: Seq<char>) -> bool {
    exists|i: int| 0 < i < name.len() && #[trigger] name[i] == '.'
}

/// The path of the document that a directory and a file name stand for.
/// Where the last component of the joined path names a file without an
/// extension, it is the path up to the end of that component, a dot and the
/// default extension; otherwise it is the joined path as it is.
pub open spec fn document_path(dir: Seq<char>, filename: Seq<char>) -> Seq<char> {
    let path = joined_path(dir, filename);
    if names_file(file_name(path)) && !has_extension(file_name(path)) {
        named_part(path) + seq!['.'] + default_extension()
    } else {
        path
    }
}

proof fn lemma_named_len(path: Seq<char>)
    ensures
        0 <= named_len(path) <= path.len(),
        named_len(path) > 0 ==> path[named_len(path) - 1] != '/',
    decreases path.len(),
{
    if path.len() > 0 {
        lemma_named_len(path.drop_last());
        if named_len(path) > 0 && named_len(path) < path.len() {
            assert(path.drop_last()[named_len(path) - 1] == path[named_len(path) - 1]);
        }
    }
}

proof fn lemma_name_start(path: Seq<char>)
    ensures
        0 <= name_start(path) <= path.len(),
        name_start(path) > 0 ==> path[name_start(path) - 1] == '/',
        forall|i: int| name_start(path) <= i < path.len() ==> path[i] != '/',
    decreases path.len(),
{
    if path.len() > 0 && path.last() != '/' {
        let shorter = path.drop_last();
        lemma_name_start(shorter);
        assert forall|i: int| name_start(path) <= i < path.len() implies path[i] != '/' by {
            if i < shorter.len() {
                assert(shorter[i] == path[i]);
            }
        }
        if name_start(path) > 0 {
            assert(shorter[name_start(path) - 1] == path[name_start(path) - 1]);
        }
    }
}

fn join_path(dir: &str, filename: &str) -> (path: String)
    ensures
        path@ == joined_path(dir@, filename@),
{
    let dir_chars = chars_of(dir);
    let name_chars = chars_of(filename);
    if name_chars.len() > 0 && name_chars[0] == '/' {
        return filename.to_owned();
    }
    let mut path = dir.to_owned();
    if dir_chars.len() > 0 && dir_chars[dir_chars.len() - 1] != '/' {
        proof {
            reveal_strlit("/");
        }
        assert("/"@ == seq!['/']);
        path.append("/");
    }
    path.append(filename);
    path
}

fn named_end(path: &Vec<char>) -> (end: usize)
    ensures
        end == named_len(path@),
{
    let mut end = path.len();
    let mut done = false;
    assert(path@.take(path.len() as int) == path@);
    while !done && end > 0
        invariant
            end <= path.len(),
            named_len(path@) == named_len(path@.take(end as int)),
            done ==> named_len(path@.take(end as int)) == end,
        decreases end + (if done { 0int } else { 1int }),
    {
        let ghost part = path@.take(end as int);
        assert(part.drop_last() == path@.take(end - 1));
        assert(part.last() == path@[end - 1]);
        if path[end - 1] == '/' {
            end -= 1;
        } else if path[end - 1] == '.' && end >= 2 && path[end - 2] == '/' {
            assert(part[part.len() - 2] == path@[end - 2]);
            end -= 1;
        } else {
            if end >= 2 {
                assert(part[part.len() - 2] == path@[end - 2]);
            }
            done = true;
        }
    }
    end
}

fn lacks_extension(path: &Vec<char>, end: usize) -> (yes: bool)
    requires
        end == named_len(path@),
    ensures
        yes == (names_file(file_name(path@)) && !has_extension(file_name(path@))),
{
    proof {
        lemma_named_len(path@);
    }
    let ghost part = named_part(path@);
    let mut start: usize = 0;
    let mut i: usize = 0;
    while i < end
        invariant
            i <= end <= path.len(),
            start == name_start(path@.take(i as int)),
            start <= i,
        decreases end - i,
    {
        assert(path@.take(i + 1).drop_last() == path@.take(i as int));
        if path[i] == '/' {
            start = i + 1;
        }
        i += 1;
    }
    let ghost name = file_name(path@);
    assert(name.len() == end - start);
    assert(forall|j: int| 0 <= j < name.len() ==> name[j] == path@[start + j]);
    if start == end {
        return false;
    }
    if path[start] == '.' {
        if end - start == 1 {
            assert(name =~= seq!['.']);
            return false;
        }
        if end - start == 2 && path[start + 1] == '.' {
            assert(name =~= seq!['.', '.']);
            return false;
        }
    }
    assert(name != seq!['.'] && name != seq!['.', '.']) by {
        if name == seq!['.'] {
            assert(name[0] == '.');
        }
        if name == seq!['.', '.'] {
            assert(name[0] == '.' && name[1] == '.');
        }
    }
    let mut k: usize = start + 1;
    while k < end
        invariant
            start < k <= end <= path.len(),
            name == file_name(path@),
            name.len() == end - start,
            name != seq!['.'] && name != seq!['.', '.'],
            forall|j: int| 0 <= j < name.len() ==> name[j] == path@[start + j],
            forall|j: int| 0 < j < k - start ==> name[j] != '.',
        decreases end - k,
    {
        if path[k] == '.' {
            assert(name[k - start] == '.');
            return false;
        }
        k += 1;
    }
    true
}

/// The path of the document that a directory and a file name stand for.
pub fn include_path(dir: &str, filename: &str) -> (path: String)
    ensures
        path@ == document_path(dir@, filename@),
{
    let joined = join_path(dir, filename);
    let chars = chars_of(joined.as_str());
    let end = named_end(&chars);
    if lacks_extension(&chars, end) {
        proof {
            reveal_strlit(".");
            lemma_named_len(chars@);
        }
        assert("."@ == seq!['.']);
        let mut path = text_of_chars(&chars, 0, end);
        path.append(".");
        path.append(DEFAULT_DOC_EXT);
        path
    } else {
        joined
    }
}

/// A file name without a dot and without a separator, under a directory,
/// stands for the joined path with the default extension.
pub proof fn law_plain_name_gets_extension(dir: Seq<char>, filename: Seq<char>)
    requires
        filename.len() > 0,
        forall|i: int| 0 <= i < filename.len() ==> filename[i] != '.' && filename[i] != '/',
    ensures
        document_path(dir, filename) == joined_path(dir, filename) + seq!['.']
            + default_extension(),
{
    let path = joined_path(dir, filename);
    let offset = path.len() - filename.len();
    assert(forall|i: int| 0 <= i < filename.len() ==> path[offset + i] == filename[i]);
    assert(path.last() == filename.last());
    assert(named_len(path) == path.len());
    assert(named_part(path) == path);
    lemma_name_start(path);
    assert(name_start(path) <= offset) by {
        if name_start(path) > offset {
            assert(path[name_start(path) - 1] == '/');
            assert(path[offset + (name_start(path) - 1 - offset)] == filename[name_start(path)
                - 1 - offset]);
        }
    }
    assert(offset == 0 || path[offset - 1] == '/');
    assert(name_start(path) == offset) by {
        if name_start(path) < offset {
            assert(path[offset - 1] != '/');
        }
    }
    let name = file_name(path);
    assert(name == filename);
    assert(names_file(name)) by {
        assert(name[0] != '.');
        if name == seq!['.'] {
            assert(seq!['.'][0] == '.');
        }
        if name == seq!['.', '.'] {
            assert(seq!['.', '.'][0] == '.');
        }
    }
    assert(!has_extension(name)) by {
        if has_extension(name) {
            let i = choose|i: int| 0 < i < name.len() && #[trigger] name[i] == '.';
        }
    }
}

/// Separators at the end of a path, and a `.` behind a separator there, are
/// passed over: the path names what it names without them.
pub proof fn law_trailing_separators_are_passed_over(path: Seq<char>)
    ensures
        named_part(path.push('/')) == named_part(path),
        file_name(path.push('/')) == file_name(path),
        named_part(path.push('/').push('.')) == named_part(path),
        file_name(path.push('/').push('.')) == file_name(path),
{
    lemma_named_len(path);
    let slashed = path.push('/');
    assert(slashed.drop_last() == path);
    assert(named_len(slashed) == named_len(path));
    assert(slashed.take(named_len(path)) == path.take(named_len(path)));
    let dotted = slashed.push('.');
    assert(dotted.drop_last() == slashed);
    assert(dotted[dotted.len() - 2] == '/');
    assert(named_len(dotted) == named_len(path));
    assert(dotted.take(named_len(path)) == path.take(named_len(path)));
}

/// The file that holds a template: the name itself where it ends in `.tmpl`,
/// the name with `.html.tmpl` behind it otherwise.
pub open spec fn template_file(name: Seq<char>) -> Seq<char> {
    if ends_with(name, ".tmpl"@) {
        name
    } else {
        name + ".html.tmpl"@
    }
}

/// The file that holds the template of the given name.
pub fn template_asset_name(name: &str) -> (file: String)
    ensures
        file@ == template_file(name@),
{
    let chars = chars_of(name);
    let suffix = chars_of(".tmpl");
    let mut file = name.to_owned();
    if !has_suffix(&chars, &suffix) {
        file.append(".html.tmpl");
    }
    file
}

/// The text of a template from what the lookup of its file gave: the bytes
/// decoded as UTF-8, and nothing where there is no such file or its bytes are
/// no text.
pub open spec fn template_text(asset: Option<Vec<u8>>) -> Option<Seq<char>> {
    match asset {
        Some(bytes) => if valid_utf8(bytes@) {
            Some(decode_utf8(bytes@))
        } else {
            None
        },
        None => None,
    }
}

/// The text of a template from what the lookup of its file gave.
pub fn decode_template(asset: Option<Vec<u8>>) -> (text: Option<String>)
    ensures
        text is Some <==> template_text(asset) is Some,
        text matches Some(decoded) ==> template_text(asset) == Some(decoded@),
{
    match asset {
        Some(bytes) => text_of_bytes(bytes.as_slice()),
        None => None,
    }
}

/// Loads a template by name: looks up the file that holds it and decodes
/// what was found.
pub fn load_template<F: Fn(&String) -> Option<Vec<u8>>>(name: &str, lookup: F) -> (text: Option<
    String,
>)
    requires
        forall|file: &String| call_requires(lookup, (file,)),
    ensures
        exists|file: &String, asset: Option<Vec<u8>>|
            file@ == template_file(name@) && call_ensures(lookup, (file,), asset) && (text
                is Some <==> template_text(asset) is Some) && (text matches Some(decoded)
                ==> template_text(asset) == Some(decoded@)),
{
    let file = template_asset_name(name);
    let asset = lookup(&file);
    decode_template(asset)
}

/// What running a process gave: it could not be started, its end could not
/// be awaited, or it ended and had written these bytes to its output.
#[derive(Debug)]
pub enum ProcessOutcome {
    NotStarted,
    NotAwaited,
    Exited(Vec<u8>),
}

/// The result of a command from what running it gave: the output as text, or
/// the words of the failure.
pub open spec fn command_result(outcome: ProcessOutcome) -> Result<Seq<char>, Seq<char>> {
    match outcome {
        ProcessOutcome::NotStarted => Err("failed to execute process"@),
        ProcessOutcome::NotAwaited => Err("failed to wait on process"@),
        ProcessOutcome::Exited(output) => if valid_utf8(output@) {
            Ok(decode_utf8(output@))
        } else {
            Err("executed process gave back non utf8 characters"@)
        },
    }
}

/// Whether `result` is the plain result `expected`: the same text, or a
/// failure of kind `kind` with the same words.
pub open spec fn text_result_is(
    result: Result<String, ProcessorError>,
    kind: FailureKind,
    expected: Result<Seq<char>, Seq<char>>,
) -> bool {
    match expected {
        Ok(text) => result matches Ok(given) && given@ == text,
        Err(words) => result matches Err(failed) && failed@ == failure(kind, words),
    }
}

/// The result of a command from what running it gave. A process that could
/// not be run, or whose output is not UTF-8, fails with `CommandFailed`.
pub fn command_output(outcome: ProcessOutcome) -> (result: Result<String, ProcessorError>)
    ensures
        text_result_is(result, FailureKind::CommandFailed, command_result(outcome)),
{
    match outcome {
        ProcessOutcome::NotStarted => Err(
            ProcessorError {
                error: ProcessorErrorType::CommandFailed("failed to execute process".to_owned()),
            },
        ),
        ProcessOutcome::NotAwaited => Err(
            ProcessorError {
                error: ProcessorErrorType::CommandFailed("failed to wait on process".to_owned()),
            },
        ),
        ProcessOutcome::Exited(output) => match text_of_bytes(output.as_slice()) {
            Some(text) => Ok(text),
            None => Err(
                ProcessorError {
                    error: ProcessorErrorType::CommandFailed(
                        "executed process gave back non utf8 characters".to_owned(),
                    ),
                },
            ),
        },
    }
}

/// A named argument of a macro as the template engine hands it over: the
/// engine's error where the argument has the wrong type, nothing where it was
/// left out, and its value otherwise.
pub type Argument<T> = Result<Option<T>, minijinja::Error>;

/// The failure for an argument that the engine could not hand over: the
/// engine's own error, unchanged.
pub fn argument_failure(error: minijinja::Error) -> (failed: ProcessorError)
    ensures
        failed.error == ProcessorErrorType::Expansion(error),
{
    ProcessorError { error: ProcessorErrorType::Expansion(error) }
}

/// The failure for an argument that was left out, in the given words.
pub fn missing_argument(words: &str) -> (failed: ProcessorError)
    ensures
        failed@ == failure(FailureKind::MissingArgument, words@),
{
    ProcessorError { error: ProcessorErrorType::MissingArgument(words.to_owned()) }
}

/// Runs a command and returns what it wrote to its output, as text. The
/// list of arguments has to be given, if only an empty one: without it the
/// call fails with `MissingArgument` and nothing is run. `run` starts the
/// process with the command and the arguments and waits for its end.
pub fn execute_command<F: Fn(&String, &Vec<String>) -> ProcessOutcome>(
    command: String,
    args: Argument<Vec<String>>,
    run: F,
) -> (result: Result<String, ProcessorError>)
    requires
        forall|c: &String, a: &Vec<String>| call_requires(run, (c, a)),
    ensures
        match args {
            Err(error) => result matches Err(failed) && failed.error
                == ProcessorErrorType::Expansion(error),
            Ok(None) => result matches Err(failed) && failed@ == failure(
                FailureKind::MissingArgument,
                "missing 'args'"@,
            ),
            Ok(Some(list)) => exists|outcome: ProcessOutcome|
                call_ensures(run, (&command, &list), outcome) && text_result_is(
                    result,
                    FailureKind::CommandFailed,
                    command_result(outcome),
                ),
        },
{
    match args {
        Err(error) => Err(argument_failure(error)),
        Ok(None) => Err(missing_argument("missing 'args'")),
        Ok(Some(list)) => {
            let outcome = run(&command, &list);
            command_output(outcome)
        },
    }
}

/// The filler text of the given number of words.
pub uninterp spec fn filler_text(words: nat) -> Seq<char>;

/// `lipsum::lipsum`: filler text of `words` words, which depends on the
/// number alone.
#[verifier::external_body]
fn filler(words: usize) -> (text: String)
    ensures
        text@ == filler_text(words as nat),
{
    lipsum::lipsum(words)
}

/// Filler text of `words` words. The number has to be given: without it the
/// call fails with `MissingArgument`.
pub fn lorem_ipsum(words: Argument<usize>) -> (result: Result<String, ProcessorError>)
    ensures
        match words {
            Err(error) => result matches Err(failed) && failed.error
                == ProcessorErrorType::Expansion(error),
            Ok(None) => result matches Err(failed) && failed@ == failure(
                FailureKind::MissingArgument,
                "missing 'words'"@,
            ),
            Ok(Some(count)) => result matches Ok(text) && text@ == filler_text(count as nat),
        },
{
    match words {
        Err(error) => Err(argument_failure(error)),
        Ok(None) => Err(missing_argument("missing 'words'")),
        Ok(Some(count)) => Ok(filler(count)),
    }
}

/// Tabular data: the names of the columns, where the data has a header row,
/// and the records, each a row of fields.
#[derive(Debug)]
pub struct ParsedCSV {
    pub headers: Vec<String>,
    pub records: Vec<Vec<String>>,
}

/// What a `ParsedCSV` holds, as plain text.
pub struct ParsedCsvView {
    pub headers: Seq<Seq<char>>,
    pub records: Seq<Seq<Seq<char>>>,
}

/// The rows of a table, each as plain text.
pub open spec fn tables(rows: Seq<Vec<String>>) -> Seq<Seq<Seq<char>>> {
    rows.map_values(|row: Vec<String>| texts(row@))
}

impl View for ParsedCSV {
    type V = ParsedCsvView;

    open spec fn view(&self) -> ParsedCsvView {
        ParsedCsvView { headers: texts(self.headers@), records: tables(self.records@) }
    }
}

/// A table as a template reads it: the names of the columns under `headers`
/// and the rows under `records`.
pub open spec fn table_variable(table: ParsedCsvView) -> VariableView {
    VariableView::Record(
        seq![("headers"@, text_list(table.headers)), ("records"@, table_list(table.records))],
    )
}

impl ParsedCSV {
    /// The table as a template reads it.
    pub fn variables(&self) -> (value: Variable)
        ensures
            value@ == table_variable(self@),
    {
        let mut fields: Vec<(String, Variable)> = Vec::new();
        assert(fields_view(fields@) =~= Seq::empty());
        put(&mut fields, "headers", list_of_texts(&self.headers));
        put(&mut fields, "records", list_of_rows(&self.records));
        assert(fields_view(fields@) =~= seq![
            ("headers"@, text_list(texts(self.headers@))),
            ("records"@, table_list(tables(self.records@))),
        ]);
        record(fields)
    }
}

/// A row as the reader of tabular data gives it: its fields, or the words of
/// the reader's complaint.
pub type CsvRow = Result<Vec<String>, String>;

/// A row as plain text.
pub open spec fn row_view(row: CsvRow) -> Result<Seq<Seq<char>>, Seq<char>> {
    match row {
        Ok(fields) => Ok(texts(fields@)),
        Err(complaint) => Err(complaint@),
    }
}

/// Rows as plain text.
pub open spec fn rows_view(rows: Seq<CsvRow>) -> Seq<Result<Seq<Seq<char>>, Seq<char>>> {
    rows.map_values(|row: CsvRow| row_view(row))
}

/// The rows that the reader of tabular data finds in the bytes, every field
/// trimmed, no row taken for a header, and rows of any length taken as they
/// are.
pub uninterp spec fn csv_rows(data: Seq<u8>) -> Seq<Result<Seq<Seq<char>>, Seq<char>>>;

/// `csv::Reader::into_records` on a reader that `csv::ReaderBuilder` has made
/// over the bytes with `trim(Trim::All)`, `has_headers(false)` and
/// `flexible(true)`: the rows of the data in order, each with its fields as
/// strings or with the words of the reader's error. They depend on the bytes
/// alone.
#[verifier::external_body]
fn read_csv_rows(data: &[u8]) -> (rows: Vec<CsvRow>)
    ensures
        rows_view(rows@) == csv_rows(data@),
{
    csv::ReaderBuilder::new().trim(csv::Trim::All).has_headers(false).flexible(true).from_reader(
        data,
    ).into_records().map(
        |row| match row {
            Ok(record) => Ok(record.iter().map(|field| field.to_owned()).collect()),
            Err(error) => Err(error.to_string()),
        },
    ).collect()
}

/// The complaint of the first row at or after `from` that could not be read.
pub open spec fn complaint_from(rows: Seq<Result<Seq<Seq<char>>, Seq<char>>>, from: int) -> Option<
    Seq<char>,
>
    decreases rows.len() - from,
{
    if from < 0 || from >= rows.len() {
        None
    } else {
        match rows[from] {
            Err(complaint) => Some(complaint),
            Ok(_) => complaint_from(rows, from + 1),
        }
    }
}

/// The fields of every row.
pub open spec fn fields_of(rows: Seq<Result<Seq<Seq<char>>, Seq<char>>>) -> Seq<Seq<Seq<char>>> {
    Seq::new(rows.len(), |i: int| rows[i]->Ok_0)
}

/// The table that rows make. With a header row, the first row gives the names
/// of the columns and the others are the records; without one, there are no
/// names and every row is a record.
pub open spec fn table_of(rows: Seq<Seq<Seq<char>>>, has_headers: bool) -> ParsedCsvView {
    if has_headers && rows.len() > 0 {
        ParsedCsvView { headers: rows[0], records: rows.drop_first() }
    } else {
        ParsedCsvView { headers: Seq::empty(), records: rows }
    }
}

/// What the rows of a reader come to: the complaint of the first row that
/// could not be read, or the table of all rows.
pub open spec fn csv_result(rows: Seq<Result<Seq<Seq<char>>, Seq<char>>>, has_headers: bool)
    -> Result<ParsedCsvView, Seq<char>> {
    match complaint_from(rows, 0) {
        Some(complaint) => Err(complaint),
        None => Ok(table_of(fields_of(rows), has_headers)),
    }
}

/// Whether `result` is the plain result `expected`: the same table, or a
/// failure of kind `Csv` with the same words.
pub open spec fn csv_result_is(
    result: Result<ParsedCSV, ProcessorError>,
    expected: Result<ParsedCsvView, Seq<char>>,
) -> bool {
    match expected {
        Ok(table) => result matches Ok(given) && given@ == table,
        Err(words) => result matches Err(failed) && failed@ == failure(FailureKind::Csv, words),
    }
}

/// Makes a table of the rows that a reader gave. The first row that could
/// not be read fails the whole with `Csv` and the reader's words.
pub fn pass_csv(rows: Vec<CsvRow>, has_headers: bool) -> (result: Result<
    ParsedCSV,
    ProcessorError,
>)
    ensures
        csv_result_is(result, csv_result(rows_view(rows@), has_headers)),
{
    let ghost plain = rows_view(rows@);
    let mut headers: Vec<String> = Vec::new();
    let mut records: Vec<Vec<String>> = Vec::new();
    let mut i: usize = 0;
    while i < rows.len()
        invariant
            i <= rows.len(),
            plain == rows_view(rows@),
            complaint_from(plain, 0) == complaint_from(plain, i as int),
            forall|j: int| 0 <= j < i ==> (#[trigger] plain[j]) is Ok,
            texts(headers@) == table_of(fields_of(plain).take(i as int), has_headers).headers,
            tables(records@) == table_of(fields_of(plain).take(i as int), has_headers).records,
        decreases rows.len() - i,
    {
        assert(plain[i as int] == row_view(rows@[i as int]));
        match &rows[i] {
            Err(complaint) => {
                return Err(ProcessorError { error: ProcessorErrorType::Csv(complaint.clone()) });
            },
            Ok(fields) => {
                let copy = copy_texts(fields, fields.len());
                assert(texts(fields@).take(fields.len() as int) == texts(fields@));
                let ghost before = fields_of(plain).take(i as int);
                let ghost after = fields_of(plain).take(i + 1);
                assert(after == before.push(texts(copy@)));
                if has_headers && i == 0 {
                    headers = copy;
                    assert(after.drop_first() == Seq::<Seq<Seq<char>>>::empty());
                    assert(tables(records@) == Seq::<Seq<Seq<char>>>::empty());
                } else {
                    assert(tables(records@.push(copy)) == tables(records@).push(texts(copy@)));
                    records.push(copy);
                    if has_headers {
                        assert(after.drop_first() == before.drop_first().push(texts(copy@)));
                    }
                }
            },
        }
        i += 1;
    }
    assert(fields_of(plain).take(rows.len() as int) == fields_of(plain));
    Ok(ParsedCSV { headers, records })
}

/// Reads tabular data from bytes: the rows that the reader finds in them,
/// made into a table.
pub fn parse_csv(data: &[u8], has_headers: bool) -> (result: Result<ParsedCSV, ProcessorError>)
    ensures
        csv_result_is(result, csv_result(csv_rows(data@), has_headers)),
{
    pass_csv(read_csv_rows(data), has_headers)
}

/// Whether a table has a header row: only where the call says so.
pub open spec fn wants_headers(has_headers: Option<bool>) -> bool {
    has_headers == Some(true)
}

/// What reading a file of tabular data comes to: the reason why it could not
/// be read, or what its bytes hold.
pub open spec fn csv_file_result(loaded: Result<Vec<u8>, String>, has_headers: bool) -> Result<
    ParsedCsvView,
    Seq<char>,
> {
    match loaded {
        Err(reason) => Err(reason@),
        Ok(data) => csv_result(csv_rows(data@), has_headers),
    }
}

/// Reads tabular data from a file, or from a text. Of `path` and `content`
/// one has to be given, else the call fails with `MissingArgument`; where both
/// are given, the file is read. Every field is trimmed, and rows need not be
/// of one length. `has_headers` says
/// whether the first row names the columns; left out, it does not. `read`
/// gives the bytes of the file at a path, or the reason why it cannot be read.
pub fn convert_csv<F: Fn(&String) -> Result<Vec<u8>, String>>(
    has_headers: Argument<bool>,
    path: Argument<String>,
    content: Argument<String>,
    read: F,
) -> (result: Result<ParsedCSV, ProcessorError>)
    requires
        forall|file: &String| call_requires(read, (file,)),
    ensures
        match has_headers {
            Err(error) => result matches Err(failed) && failed@ == failure(
                FailureKind::Generic,
                engine_words(error),
            ),
            Ok(flag) => match path {
                Err(error) => result matches Err(failed) && failed.error
                    == ProcessorErrorType::Expansion(error),
                Ok(Some(file)) => exists|loaded: Result<Vec<u8>, String>|
                    call_ensures(read, (&file,), loaded) && csv_result_is(
                        result,
                        csv_file_result(loaded, wants_headers(flag)),
                    ),
                Ok(None) => match content {
                    Err(error) => result matches Err(failed) && failed.error
                        == ProcessorErrorType::Expansion(error),
                    Ok(Some(text)) => csv_result_is(
                        result,
                        csv_result(csv_rows(encode_utf8(text@)), wants_headers(flag)),
                    ),
                    Ok(None) => result matches Err(failed) && failed@ == failure(
                        FailureKind::MissingArgument,
                        "missing 'path' or 'content'"@,
                    ),
                },
            },
        },
{
    let with_headers = match has_headers {
        Err(error) => {
            return Err(
                ProcessorError { error: ProcessorErrorType::Generic(engine_error_text(&error)) },
            );
        },
        Ok(Some(flag)) => flag,
        Ok(None) => false,
    };
    match path {
        Err(error) => Err(argument_failure(error)),
        Ok(Some(file)) => {
            let loaded = read(&file);
            let result = match &loaded {
                Err(reason) => Err(
                    ProcessorError { error: ProcessorErrorType::Csv(reason.clone()) },
                ),
                Ok(data) => parse_csv(data.as_slice(), with_headers),
            };
            assert(csv_result_is(result, csv_file_result(loaded, with_headers)));
            result
        },
        Ok(None) => match content {
            Err(error) => Err(argument_failure(error)),
            Ok(Some(text)) => {
                let result = parse_csv(text.as_str().as_bytes(), with_headers);
                assert(csv_result_is(result, csv_result(csv_rows(encode_utf8(text@)), with_headers)));
                result
            },
            Ok(None) => Err(missing_argument("missing 'path' or 'content'")),
        },
    }
}

/// With a header row, the first row of readable data names the columns and
/// is no record; without one, no column is named and every row is a record.
pub proof fn law_header_row(rows: Seq<Result<Seq<Seq<char>>, Seq<char>>>)
    requires
        complaint_from(rows, 0) is None,
    ensures
        csv_result(rows, false) == Ok::<ParsedCsvView, Seq<char>>(
            ParsedCsvView { headers: Seq::empty(), records: fields_of(rows) },
        ),
        rows.len() > 0 ==> csv_result(rows, true) == Ok::<ParsedCsvView, Seq<char>>(
            ParsedCsvView { headers: fields_of(rows)[0], records: fields_of(rows).drop_first() },
        ),
        rows.len() > 0 ==> csv_result(rows, true)->Ok_0.records.len() + 1 == csv_result(
            rows,
            false,
        )->Ok_0.records.len(),
{
}

} // verus!
