//! File-extension-to-language labeling for the request body: a fixed table
//! over the file extension, with the MIME database as a fallback for
//! extensions the table does not know.

use vstd::prelude::*;
use crate::classify::{chars_eq_ci, str_eq, str_eq_ci};
use crate::paths::extension_spec;
use crate::paths::extension_of;

verus! {

/// What is known about an input file before it is sent.
pub struct FileMetadata {
    pub language: &'static str,
}

/// The best-known MIME essence string for a file extension; `None` for an
/// extension the MIME database does not know.
pub uninterp spec fn mime_of(ext: Seq<char>) -> Option<Seq<char>>;

/// Relies on mime_guess::from_ext and MimeGuess::first_raw: the essence
/// string of the best-known MIME type of a file extension. The mapping is a
/// fixed compiled-in table, a function of the extension alone.
#[verifier::external_body]
fn guess_mime(ext: &str) -> (r: Option<&'static str>)
    ensures
        match r {
            Some(m) => mime_of(ext@) == Some(m@),
            None => mime_of(ext@) is None,
        },
{
    mime_guess::from_ext(ext).first_raw()
}

/// The label for a MIME essence the fallback understands.
pub open spec fn mime_language_spec(m: Seq<char>) -> Seq<char> {
    if m == "application/json"@ {
        "JSON"@
    } else if m == "text/plain"@ {
        "Plain text"@
    } else if m == "text/markdown"@ {
        "Markdown"@
    } else if m == "text/css"@ {
        "CSS"@
    } else if m == "text/html"@ {
        "HTML"@
    } else {
        "Unknown"@
    }
}

fn mime_language(mime: &str) -> (r: &'static str)
    ensures
        r@ == mime_language_spec(mime@),
{
    if str_eq(mime, "application/json") {
        "JSON"
    } else if str_eq(mime, "text/plain") {
        "Plain text"
    } else if str_eq(mime, "text/markdown") {
        "Markdown"
    } else if str_eq(mime, "text/css") {
        "CSS"
    } else if str_eq(mime, "text/html") {
        "HTML"
    } else {
        "Unknown"
    }
}

/// The language label for a file extension (ASCII case does not matter),
/// falling back to the MIME database for extensions the table does not
/// know.
pub open spec fn ext_language_spec(e: Seq<char>) -> Seq<char> {
    if chars_eq_ci(e, "md"@) || chars_eq_ci(e, "markdown"@) {
        "Markdown"@
    } else if chars_eq_ci(e, "txt"@) {
        "Plain text"@
    } else if chars_eq_ci(e, "rs"@) {
        "Rust"@
    } else if chars_eq_ci(e, "py"@) {
        "Python"@
    } else if chars_eq_ci(e, "js"@) {
        "JavaScript"@
    } else if chars_eq_ci(e, "ts"@) {
        "TypeScript"@
    } else if chars_eq_ci(e, "tsx"@) {
        "TypeScript/TSX"@
    } else if chars_eq_ci(e, "jsx"@) {
        "JavaScript/JSX"@
    } else if chars_eq_ci(e, "go"@) {
        "Go"@
    } else if chars_eq_ci(e, "java"@) {
        "Java"@
    } else if chars_eq_ci(e, "c"@) {
        "C"@
    } else if chars_eq_ci(e, "cpp"@) || chars_eq_ci(e, "cxx"@) || chars_eq_ci(e, "cc"@) || chars_eq_ci(e, "hpp"@) || chars_eq_ci(e, "hxx"@) {
        "C++"@
    } else if chars_eq_ci(e, "h"@) {
        "C/C++ header"@
    } else if chars_eq_ci(e, "cs"@) {
        "C#"@
    } else if chars_eq_ci(e, "swift"@) {
        "Swift"@
    } else if chars_eq_ci(e, "kt"@) || chars_eq_ci(e, "kts"@) {
        "Kotlin"@
    } else if chars_eq_ci(e, "php"@) {
        "PHP"@
    } else if chars_eq_ci(e, "rb"@) {
        "Ruby"@
    } else if chars_eq_ci(e, "scala"@) {
        "Scala"@
    } else if chars_eq_ci(e, "lua"@) {
        "Lua"@
    } else if chars_eq_ci(e, "sh"@) || chars_eq_ci(e, "bash"@) {
        "Shell"@
    } else if chars_eq_ci(e, "ps1"@) {
        "PowerShell"@
    } else if chars_eq_ci(e, "html"@) || chars_eq_ci(e, "htm"@) {
        "HTML"@
    } else if chars_eq_ci(e, "css"@) {
        "CSS"@
    } else if chars_eq_ci(e, "scss"@) || chars_eq_ci(e, "sass"@) {
        "SCSS/SASS"@
    } else if chars_eq_ci(e, "less"@) {
        "LESS"@
    } else if chars_eq_ci(e, "json"@) {
        "JSON"@
    } else if chars_eq_ci(e, "toml"@) {
        "TOML"@
    } else if chars_eq_ci(e, "yaml"@) || chars_eq_ci(e, "yml"@) {
        "YAML"@
    } else if chars_eq_ci(e, "ini"@) {
        "INI"@
    } else if chars_eq_ci(e, "env"@) {
        "Environment file"@
    } else if chars_eq_ci(e, "lock"@) {
        "Lock file"@
    } else if chars_eq_ci(e, "xml"@) {
        "XML"@
    } else if chars_eq_ci(e, "sql"@) {
        "SQL"@
    } else if chars_eq_ci(e, "csv"@) {
        "CSV"@
    } else if chars_eq_ci(e, "tsv"@) {
        "TSV"@
    } else if chars_eq_ci(e, "bin"@) {
        "Binary"@
    } else if chars_eq_ci(e, "wasm"@) {
        "WebAssembly"@
    } else if chars_eq_ci(e, "exe"@) {
        "Executable"@
    } else if chars_eq_ci(e, "dll"@) {
        "Dynamic library"@
    } else {
        match mime_of(e) {
            Some(m) => mime_language_spec(m),
            None => "Unknown"@,
        }
    }
}

fn ext_language(ext: &str) -> (r: &'static str)
    ensures
        r@ == ext_language_spec(ext@),
{
    if str_eq_ci(ext, "md") || str_eq_ci(ext, "markdown") {
        "Markdown"
    } else if str_eq_ci(ext, "txt") {
        "Plain text"
    } else if str_eq_ci(ext, "rs") {
        "Rust"
    } else if str_eq_ci(ext, "py") {
        "Python"
    } else if str_eq_ci(ext, "js") {
        "JavaScript"
    } else if str_eq_ci(ext, "ts") {
        "TypeScript"
    } else if str_eq_ci(ext, "tsx") {
        "TypeScript/TSX"
    } else if str_eq_ci(ext, "jsx") {
        "JavaScript/JSX"
    } else if str_eq_ci(ext, "go") {
        "Go"
    } else if str_eq_ci(ext, "java") {
        "Java"
    } else if str_eq_ci(ext, "c") {
        "C"
    } else if str_eq_ci(ext, "cpp") || str_eq_ci(ext, "cxx") || str_eq_ci(ext, "cc") || str_eq_ci(ext, "hpp") || str_eq_ci(ext, "hxx") {
        "C++"
    } else if str_eq_ci(ext, "h") {
        "C/C++ header"
    } else if str_eq_ci(ext, "cs") {
        "C#"
    } else if str_eq_ci(ext, "swift") {
        "Swift"
    } else if str_eq_ci(ext, "kt") || str_eq_ci(ext, "kts") {
        "Kotlin"
    } else if str_eq_ci(ext, "php") {
        "PHP"
    } else if str_eq_ci(ext, "rb") {
        "Ruby"
    } else if str_eq_ci(ext, "scala") {
        "Scala"
    } else if str_eq_ci(ext, "lua") {
        "Lua"
    } else if str_eq_ci(ext, "sh") || str_eq_ci(ext, "bash") {
        "Shell"
    } else if str_eq_ci(ext, "ps1") {
        "PowerShell"
    } else if str_eq_ci(ext, "html") || str_eq_ci(ext, "htm") {
        "HTML"
    } else if str_eq_ci(ext, "css") {
        "CSS"
    } else if str_eq_ci(ext, "scss") || str_eq_ci(ext, "sass") {
        "SCSS/SASS"
    } else if str_eq_ci(ext, "less") {
        "LESS"
    } else if str_eq_ci(ext, "json") {
        "JSON"
    } else if str_eq_ci(ext, "toml") {
        "TOML"
    } else if str_eq_ci(ext, "yaml") || str_eq_ci(ext, "yml") {
        "YAML"
    } else if str_eq_ci(ext, "ini") {
        "INI"
    } else if str_eq_ci(ext, "env") {
        "Environment file"
    } else if str_eq_ci(ext, "lock") {
        "Lock file"
    } else if str_eq_ci(ext, "xml") {
        "XML"
    } else if str_eq_ci(ext, "sql") {
        "SQL"
    } else if str_eq_ci(ext, "csv") {
        "CSV"
    } else if str_eq_ci(ext, "tsv") {
        "TSV"
    } else if str_eq_ci(ext, "bin") {
        "Binary"
    } else if str_eq_ci(ext, "wasm") {
        "WebAssembly"
    } else if str_eq_ci(ext, "exe") {
        "Executable"
    } else if str_eq_ci(ext, "dll") {
        "Dynamic library"
    } else {
        match guess_mime(ext) {
            Some(m) => mime_language(m),
            None => "Unknown",
        }
    }
}

/// The language label of a path: by its file extension, or `Unknown` when
/// it has none.
pub open spec fn language_of(path: Seq<char>) -> Seq<char> {
    match extension_spec(path) {
        Some(e) => ext_language_spec(e),
        None => "Unknown"@,
    }
}

/// What is known about the input file at `path` before it is sent.
pub fn detect_file_metadata(path: &str) -> (r: FileMetadata)
    ensures
        r.language@ == language_of(path@),
{
    match extension_of(path) {
        Some(e) => FileMetadata { language: ext_language(e.as_str()) },
        None => FileMetadata { language: "Unknown" },
    }
}

} // verus!
