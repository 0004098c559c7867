//! Tables that a build embeds as JSON text, keyed by release channel.

use vstd::prelude::*;
use std::collections::BTreeMap;
use crate::quality::Quality;
use crate::table::{
    holds_exactly, keys_distinct, keys_recognized, lemma_table_keeps_entries, table_from_entries,
    table_of, QualityTable,
};

verus! {

/// The error of `serde_json`, carried from the decoder to the place that
/// turns it into an error of this crate. Nothing is known of its contents.
#[verifier::external_type_specification]
#[verifier::external_body]
pub struct ExJsonError(serde_json::Error);

/// What `serde_json::from_str` makes of a text that is read as a map from
/// strings to strings: the entries of the map in ascending order of key, or
/// `None` where it reports an error.
pub uninterp spec fn json_string_entries(text: Seq<char>) -> Option<Seq<(Seq<char>, Seq<char>)>>;

/// What `serde_json::from_str` makes of a text that is read as a map from
/// strings to lists of strings: the entries of the map in ascending order of
/// key, or `None` where it reports an error.
pub uninterp spec fn json_string_list_entries(text: Seq<char>) -> Option<
    Seq<(Seq<char>, Seq<Seq<char>>)>,
>;

/// Calls `serde_json::from_str` to read a `BTreeMap<String, String>` from the
/// text. Trusted: the entries handed back are the ones named by
/// `json_string_entries`, and an error comes back exactly where that is `None`.
#[verifier::external_body]
fn decode_string_entries(text: &str) -> (decoded: Result<
    Vec<(String, String)>,
    serde_json::Error,
>)
    ensures
        decoded is Ok <==> json_string_entries(text@) is Some,
        decoded matches Ok(entries) ==> json_string_entries(text@) == Some(entries.deep_view()),
{
    let object: BTreeMap<String, String> = serde_json::from_str(text)?;
    Ok(object.into_iter().collect())
}

/// Calls `serde_json::from_str` to read a `BTreeMap<String, Vec<String>>` from
/// the text. Trusted: the entries handed back are the ones named by
/// `json_string_list_entries`, and an error comes back exactly where that is
/// `None`.
#[verifier::external_body]
fn decode_string_list_entries(text: &str) -> (decoded: Result<
    Vec<(String, Vec<String>)>,
    serde_json::Error,
>)
    ensures
        decoded is Ok <==> json_string_list_entries(text@) is Some,
        decoded matches Ok(entries) ==> json_string_list_entries(text@) == Some(
            entries.deep_view(),
        ),
{
    let object: BTreeMap<String, Vec<String>> = serde_json::from_str(text)?;
    Ok(object.into_iter().collect())
}

/// The two tables that a build can embed.
#[derive(Clone, Copy, Debug, PartialEq, Eq, Structural)]
pub enum TableKind {
    /// Installer identifiers for each release channel.
    Win32AppIds,
    /// The download address for each release channel.
    QualityDownloadUris,
}

/// What is wrong with the text of a table.
#[derive(Clone, Copy, Debug, PartialEq, Eq, Structural)]
pub enum TableError {
    /// The text is not a JSON object whose values have the expected shape.
    InvalidJson,
    /// A key of the object names no release channel.
    UnknownQuality,
}

/// An embedded table is present and is not what the build should have
/// written. The binary does not agree with its own build inputs: callers stop
/// on this error.
#[derive(Clone, Copy, Debug, PartialEq, Eq, Structural)]
pub struct MalformedEmbeddedJson {
    pub table: TableKind,
    pub cause: TableError,
}

/// The build variable that holds the text of a table.
pub open spec fn table_variable(kind: TableKind) -> Seq<char> {
    match kind {
        TableKind::Win32AppIds => "VSCODE_CLI_WIN32_APP_IDS"@,
        TableKind::QualityDownloadUris => "VSCODE_CLI_QUALITY_DOWNLOAD_URIS"@,
    }
}

/// What is wrong with the text, in words.
pub open spec fn cause_text(cause: TableError) -> Seq<char> {
    match cause {
        TableError::InvalidJson => "not a JSON object of the expected shape"@,
        TableError::UnknownQuality => "a key names no release channel"@,
    }
}

/// The diagnostic of a malformed table: which table it is, and why.
pub open spec fn diagnostic(e: MalformedEmbeddedJson) -> Seq<char> {
    "malformed embedded table "@ + table_variable(e.table) + ": "@ + cause_text(e.cause)
}

impl MalformedEmbeddedJson {
    /// The diagnostic to stop with.
    pub fn message(&self) -> (text: String)
        ensures
            text@ == diagnostic(*self),
    {
        let variable = match self.table {
            TableKind::Win32AppIds => "VSCODE_CLI_WIN32_APP_IDS",
            TableKind::QualityDownloadUris => "VSCODE_CLI_QUALITY_DOWNLOAD_URIS",
        };
        let cause = match self.cause {
            TableError::InvalidJson => "not a JSON object of the expected shape",
            TableError::UnknownQuality => "a key names no release channel",
        };
        String::from_str("malformed embedded table ").concat(variable).concat(": ").concat(cause)
    }
}

/// The table that decoded entries stand for, or the reason why they stand for
/// none. `decoded` is `None` where the text could not be decoded.
pub open spec fn embedded_table<W>(
    kind: TableKind,
    decoded: Option<Seq<(Seq<char>, W)>>,
) -> Result<Map<Quality, W>, MalformedEmbeddedJson> {
    match decoded {
        None => Err(MalformedEmbeddedJson { table: kind, cause: TableError::InvalidJson }),
        Some(entries) => if keys_recognized(entries) {
            Ok(table_of(entries))
        } else {
            Err(MalformedEmbeddedJson { table: kind, cause: TableError::UnknownQuality })
        },
    }
}

/// What is known of a table after its embedded text was looked at: no table
/// where the build embedded none, else the table or the fault in the text.
pub type Parsed<T> = Result<Option<T>, MalformedEmbeddedJson>;

/// The outcome for an embedded text that is present.
pub open spec fn present<T>(table: Result<T, MalformedEmbeddedJson>) -> Parsed<T> {
    match table {
        Ok(table) => Ok(Some(table)),
        Err(e) => Err(e),
    }
}

/// The installer identifiers that an embedded text stands for.
pub open spec fn app_id_table(raw: Option<Seq<char>>) -> Parsed<Map<Quality, Seq<Seq<char>>>> {
    match raw {
        None => Ok(None),
        Some(text) => present(
            embedded_table(TableKind::Win32AppIds, json_string_list_entries(text)),
        ),
    }
}

/// The download addresses that an embedded text stands for.
pub open spec fn download_uri_table(raw: Option<Seq<char>>) -> Parsed<Map<Quality, Seq<char>>> {
    match raw {
        None => Ok(None),
        Some(text) => present(
            embedded_table(TableKind::QualityDownloadUris, json_string_entries(text)),
        ),
    }
}

/// Reading keeps what was written: a text in which the decoder finds
/// entries whose keys are distinct and all name a release channel stands for
/// the table that holds exactly these entries.
pub proof fn lemma_app_ids_keep_entries(
    text: Seq<char>,
    entries: Seq<(Seq<char>, Seq<Seq<char>>)>,
)
    requires
        json_string_list_entries(text) == Some(entries),
        keys_recognized(entries),
        keys_distinct(entries),
    ensures
        app_id_table(Some(text)) matches Ok(Some(table)) && holds_exactly(table, entries),
{
    lemma_table_keeps_entries(entries);
}

/// Reading keeps what was written: a text in which the decoder finds
/// entries whose keys are distinct and all name a release channel stands for
/// the table that holds exactly these entries.
pub proof fn lemma_download_uris_keep_entries(
    text: Seq<char>,
    entries: Seq<(Seq<char>, Seq<char>)>,
)
    requires
        json_string_entries(text) == Some(entries),
        keys_recognized(entries),
        keys_distinct(entries),
    ensures
        download_uri_table(Some(text)) matches Ok(Some(table)) && holds_exactly(table, entries),
{
    lemma_table_keeps_entries(entries);
}

/// A build without the text has no table, and only such a build: a text that
/// is present gives a table, which may be empty, or an error.
pub proof fn lemma_no_table_iff_absent(raw: Option<Seq<char>>)
    ensures
        app_id_table(raw) == Ok::<Option<Map<Quality, Seq<Seq<char>>>>, MalformedEmbeddedJson>(None)
            <==> raw is None,
        download_uri_table(raw) == Ok::<Option<Map<Quality, Seq<char>>>, MalformedEmbeddedJson>(
            None,
        ) <==> raw is None,
{
}

/// A malformed text is an error and never a smaller table: there is a table
/// only where the text was decoded and every one of its keys names a release
/// channel. The error names the table.
pub proof fn lemma_malformed_iff_error<W>(kind: TableKind, decoded: Option<Seq<(Seq<char>, W)>>)
    ensures
        embedded_table(kind, decoded) is Ok <==> (decoded matches Some(entries) && keys_recognized(
            entries,
        )),
        embedded_table(kind, decoded) matches Err(e) ==> e.table == kind && (e.cause
            == TableError::InvalidJson <==> decoded is None),
{
}

/// The model of an outcome: the table by its deep view.
pub open spec fn parsed_view<V: DeepView>(parsed: Parsed<QualityTable<V>>) -> Parsed<
    Map<Quality, V::V>,
> {
    match parsed {
        Ok(Some(table)) => Ok(Some(table.deep_view())),
        Ok(None) => Ok(None),
        Err(e) => Err(e),
    }
}

/// Turns what the decoder made of a text that is present into the outcome
/// for that table. `decoded` is `None` where the decoder reported an error.
pub fn table_from_decoded<V: DeepView>(
    kind: TableKind,
    decoded: Option<Vec<(String, V)>>,
) -> (parsed: Parsed<QualityTable<V>>)
    ensures
        parsed_view(parsed) == present(embedded_table(kind, decoded.deep_view())),
{
    match decoded {
        None => Err(MalformedEmbeddedJson { table: kind, cause: TableError::InvalidJson }),
        Some(entries) => match table_from_entries(entries) {
            Some(table) => Ok(Some(table)),
            None => Err(MalformedEmbeddedJson { table: kind, cause: TableError::UnknownQuality }),
        },
    }
}

/// Drops the decoder's error, of which nothing is told but that it is one.
fn decoded_entries<V: DeepView>(
    decoded: Result<Vec<(String, V)>, serde_json::Error>,
) -> (entries: Option<Vec<(String, V)>>)
    ensures
        entries == match decoded {
            Ok(entries) => Some(entries),
            Err(_) => None,
        },
{
    match decoded {
        Ok(entries) => Some(entries),
        Err(_) => None,
    }
}

/// Reads the embedded table of installer identifiers. A build that embeds no
/// text has no table, which is not the same as an empty one; a text that is
/// present must be a JSON object from channel names to lists of strings.
pub fn parse_app_id_table(raw: Option<&str>) -> (parsed: Parsed<QualityTable<Vec<String>>>)
    ensures
        parsed_view(parsed) == app_id_table(raw.deep_view()),
{
    match raw {
        None => Ok(None),
        Some(text) => table_from_decoded(
            TableKind::Win32AppIds,
            decoded_entries(decode_string_list_entries(text)),
        ),
    }
}

/// Reads the embedded table of download addresses. A build that embeds no
/// text has no table, which is not the same as an empty one; a text that is
/// present must be a JSON object from channel names to strings.
pub fn parse_download_uri_table(raw: Option<&str>) -> (parsed: Parsed<QualityTable<String>>)
    ensures
        parsed_view(parsed) == download_uri_table(raw.deep_view()),
{
    match raw {
        None => Ok(None),
        Some(text) => table_from_decoded(
            TableKind::QualityDownloadUris,
            decoded_entries(decode_string_entries(text)),
        ),
    }
}

} // verus!
