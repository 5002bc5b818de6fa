//! Classifying file paths as text or binary.
//!
//! The decision looks only at the path string. A path with an extension is
//! text when the lower-cased, dotted extension is on a fixed allow-list,
//! binary when it is on a fixed deny-list, and text otherwise: the deny-list
//! is authoritative, and an unknown extension is taken to be text. A path
//! without an extension is text when its lower-cased file name looks like a
//! git hook or is a well-known extensionless text file, and binary otherwise.

use vstd::prelude::*;

use crate::strutil::{
    last_pos, lemma_last_pos_ensures, rfind_char, spec_contains, spec_starts_with, str_contains,
    str_eq, str_starts_with, char_to_string,
};

verus! {

/// The lower-cased form of one character: ASCII letters are lowered, every
/// other character is kept.
pub open spec fn lower_char(c: char) -> char {
    if 'A' <= c && c <= 'Z' {
        ((c as u32) + 32) as char
    } else {
        c
    }
}

/// The character-wise lower-cased form of a string.
pub open spec fn spec_lower(s: Seq<char>) -> Seq<char> {
    s.map(|_i: int, c: char| lower_char(c))
}

/// Lower-cases one character.
fn lower_char_exec(c: char) -> (r: char)
    ensures
        r == lower_char(c),
{
    match c {
        'A' => 'a',
        'B' => 'b',
        'C' => 'c',
        'D' => 'd',
        'E' => 'e',
        'F' => 'f',
        'G' => 'g',
        'H' => 'h',
        'I' => 'i',
        'J' => 'j',
        'K' => 'k',
        'L' => 'l',
        'M' => 'm',
        'N' => 'n',
        'O' => 'o',
        'P' => 'p',
        'Q' => 'q',
        'R' => 'r',
        'S' => 's',
        'T' => 't',
        'U' => 'u',
        'V' => 'v',
        'W' => 'w',
        'X' => 'x',
        'Y' => 'y',
        'Z' => 'z',
        _ => c,
    }
}

/// Lower-cases a string character by character.
fn to_lower(s: &str) -> (r: String)
    ensures
        r@ == spec_lower(s@),
{
    let len = s.unicode_len();
    let mut out = String::new();
    let mut i: usize = 0;
    while i < len
        invariant
            len == s@.len(),
            i <= len,
            out@ == spec_lower(s@.subrange(0, i as int)),
        decreases len - i,
    {
        let lc = lower_char_exec(s.get_char(i));
        let one = char_to_string(lc);
        out.append(one.as_str());
        proof {
            assert(out@ =~= spec_lower(s@.subrange(0, i + 1 as int)));
        }
        i = i + 1;
    }
    proof {
        assert(s@.subrange(0, len as int) =~= s@);
    }
    out
}

/// The file name of a path: what follows the last '/', or the whole path.
pub open spec fn spec_filename(p: Seq<char>) -> Seq<char> {
    let i = last_pos(p, '/');
    if i >= 0 {
        p.subrange(i + 1, p.len() as int)
    } else {
        p
    }
}

/// The dotted, lower-cased extension of a path: a '.' followed by what comes
/// after the last '.' of the file name. A file name without a '.', or whose
/// only '.' leads it (a hidden file), has none.
pub open spec fn spec_dot_ext(p: Seq<char>) -> Option<Seq<char>> {
    let name = spec_filename(p);
    let d = last_pos(name, '.');
    if d > 0 {
        Some(seq!['.'] + spec_lower(name.subrange(d + 1, name.len() as int)))
    } else {
        None
    }
}

/// The dotted, lower-cased extensions on the text allow-list.
pub open spec fn is_text_ext(e: Seq<char>) -> bool {
    ||| e == ".rs"@
    ||| e == ".toml"@
    ||| e == ".c"@
    ||| e == ".cpp"@
    ||| e == ".cc"@
    ||| e == ".cxx"@
    ||| e == ".h"@
    ||| e == ".hpp"@
    ||| e == ".hxx"@
    ||| e == ".hh"@
    ||| e == ".js"@
    ||| e == ".jsx"@
    ||| e == ".ts"@
    ||| e == ".tsx"@
    ||| e == ".mjs"@
    ||| e == ".cjs"@
    ||| e == ".html"@
    ||| e == ".htm"@
    ||| e == ".css"@
    ||| e == ".scss"@
    ||| e == ".sass"@
    ||| e == ".less"@
    ||| e == ".svg"@
    ||| e == ".xml"@
    ||| e == ".py"@
    ||| e == ".pyi"@
    ||| e == ".pyx"@
    ||| e == ".pxd"@
    ||| e == ".go"@
    ||| e == ".mod"@
    ||| e == ".java"@
    ||| e == ".kt"@
    ||| e == ".kts"@
    ||| e == ".scala"@
    ||| e == ".sc"@
    ||| e == ".rb"@
    ||| e == ".rake"@
    ||| e == ".gemspec"@
    ||| e == ".php"@
    ||| e == ".phtml"@
    ||| e == ".php5"@
    ||| e == ".php7"@
    ||| e == ".cs"@
    ||| e == ".csx"@
    ||| e == ".fs"@
    ||| e == ".fsx"@
    ||| e == ".vb"@
    ||| e == ".sh"@
    ||| e == ".bash"@
    ||| e == ".zsh"@
    ||| e == ".fish"@
    ||| e == ".bat"@
    ||| e == ".cmd"@
    ||| e == ".ps1"@
    ||| e == ".erl"@
    ||| e == ".hrl"@
    ||| e == ".ex"@
    ||| e == ".exs"@
    ||| e == ".lisp"@
    ||| e == ".cl"@
    ||| e == ".clj"@
    ||| e == ".cljs"@
    ||| e == ".cljc"@
    ||| e == ".edn"@
    ||| e == ".hs"@
    ||| e == ".lhs"@
    ||| e == ".swift"@
    ||| e == ".dart"@
    ||| e == ".lua"@
    ||| e == ".r"@
    ||| e == ".rmd"@
    ||| e == ".pl"@
    ||| e == ".pm"@
    ||| e == ".sql"@
    ||| e == ".json"@
    ||| e == ".yaml"@
    ||| e == ".yml"@
    ||| e == ".ini"@
    ||| e == ".conf"@
    ||| e == ".cfg"@
    ||| e == ".properties"@
    ||| e == ".md"@
    ||| e == ".markdown"@
    ||| e == ".txt"@
    ||| e == ".csv"@
    ||| e == ".tsv"@
    ||| e == ".gitignore"@
    ||| e == ".gitattributes"@
    ||| e == ".gitmodules"@
    ||| e == ".editorconfig"@
    ||| e == ".lock"@
}

/// The dotted, lower-cased extensions on the binary deny-list.
pub open spec fn is_binary_ext(e: Seq<char>) -> bool {
    ||| e == ".exe"@
    ||| e == ".dll"@
    ||| e == ".so"@
    ||| e == ".dylib"@
    ||| e == ".obj"@
    ||| e == ".o"@
    ||| e == ".a"@
    ||| e == ".lib"@
    ||| e == ".bin"@
    ||| e == ".dat"@
    ||| e == ".db"@
    ||| e == ".sqlite"@
    ||| e == ".dbf"@
    ||| e == ".mdb"@
    ||| e == ".accdb"@
    ||| e == ".jpg"@
    ||| e == ".jpeg"@
    ||| e == ".png"@
    ||| e == ".gif"@
    ||| e == ".bmp"@
    ||| e == ".tiff"@
    ||| e == ".ico"@
    ||| e == ".webp"@
    ||| e == ".mp3"@
    ||| e == ".mp4"@
    ||| e == ".wav"@
    ||| e == ".ogg"@
    ||| e == ".flac"@
    ||| e == ".avi"@
    ||| e == ".mov"@
    ||| e == ".mkv"@
    ||| e == ".zip"@
    ||| e == ".tar"@
    ||| e == ".gz"@
    ||| e == ".bz2"@
    ||| e == ".xz"@
    ||| e == ".7z"@
    ||| e == ".rar"@
    ||| e == ".pdf"@
    ||| e == ".doc"@
    ||| e == ".docx"@
    ||| e == ".xls"@
    ||| e == ".xlsx"@
    ||| e == ".ppt"@
    ||| e == ".pptx"@
    ||| e == ".class"@
    ||| e == ".pyc"@
    ||| e == ".pyo"@
    ||| e == ".pyd"@
    ||| e == ".wasm"@
}

/// The lower-cased names of well-known extensionless text files.
pub open spec fn is_well_known_name(e: Seq<char>) -> bool {
    ||| e == "readme"@
    ||| e == "license"@
    ||| e == "dockerfile"@
    ||| e == "makefile"@
    ||| e == "gemfile"@
    ||| e == "rakefile"@
    ||| e == "vagrantfile"@
    ||| e == "procfile"@
    ||| e == "jenkinsfile"@
    ||| e == "brewfile"@
    ||| e == "justfile"@
    ||| e == "cargo.lock"@
    ||| e == "package-lock.json"@
    ||| e == "yarn.lock"@
    ||| e == "gemfile.lock"@
    ||| e == ".gitignore"@
    ||| e == ".gitattributes"@
    ||| e == ".gitmodules"@
    ||| e == ".editorconfig"@
    ||| e == ".eslintrc"@
    ||| e == ".prettierrc"@
    ||| e == ".babelrc"@
    ||| e == ".stylelintrc"@
    ||| e == ".npmrc"@
    ||| e == "cmakelists.txt"@
    ||| e == "configure"@
    ||| e == "install"@
    ||| e == "uninstall"@
}

/// Whether the dotted extension is on the text allow-list.
fn in_text_list(e: &str) -> (r: bool)
    ensures
        r == is_text_ext(e@),
{
    if str_eq(e, ".rs") {
        return true;
    }
    if str_eq(e, ".toml") {
        return true;
    }
    if str_eq(e, ".c") {
        return true;
    }
    if str_eq(e, ".cpp") {
        return true;
    }
    if str_eq(e, ".cc") {
        return true;
    }
    if str_eq(e, ".cxx") {
        return true;
    }
    if str_eq(e, ".h") {
        return true;
    }
    if str_eq(e, ".hpp") {
        return true;
    }
    if str_eq(e, ".hxx") {
        return true;
    }
    if str_eq(e, ".hh") {
        return true;
    }
    if str_eq(e, ".js") {
        return true;
    }
    if str_eq(e, ".jsx") {
        return true;
    }
    if str_eq(e, ".ts") {
        return true;
    }
    if str_eq(e, ".tsx") {
        return true;
    }
    if str_eq(e, ".mjs") {
        return true;
    }
    if str_eq(e, ".cjs") {
        return true;
    }
    if str_eq(e, ".html") {
        return true;
    }
    if str_eq(e, ".htm") {
        return true;
    }
    if str_eq(e, ".css") {
        return true;
    }
    if str_eq(e, ".scss") {
        return true;
    }
    if str_eq(e, ".sass") {
        return true;
    }
    if str_eq(e, ".less") {
        return true;
    }
    if str_eq(e, ".svg") {
        return true;
    }
    if str_eq(e, ".xml") {
        return true;
    }
    if str_eq(e, ".py") {
        return true;
    }
    if str_eq(e, ".pyi") {
        return true;
    }
    if str_eq(e, ".pyx") {
        return true;
    }
    if str_eq(e, ".pxd") {
        return true;
    }
    if str_eq(e, ".go") {
        return true;
    }
    if str_eq(e, ".mod") {
        return true;
    }
    if str_eq(e, ".java") {
        return true;
    }
    if str_eq(e, ".kt") {
        return true;
    }
    if str_eq(e, ".kts") {
        return true;
    }
    if str_eq(e, ".scala") {
        return true;
    }
    if str_eq(e, ".sc") {
        return true;
    }
    if str_eq(e, ".rb") {
        return true;
    }
    if str_eq(e, ".rake") {
        return true;
    }
    if str_eq(e, ".gemspec") {
        return true;
    }
    if str_eq(e, ".php") {
        return true;
    }
    if str_eq(e, ".phtml") {
        return true;
    }
    if str_eq(e, ".php5") {
        return true;
    }
    if str_eq(e, ".php7") {
        return true;
    }
    if str_eq(e, ".cs") {
        return true;
    }
    if str_eq(e, ".csx") {
        return true;
    }
    if str_eq(e, ".fs") {
        return true;
    }
    if str_eq(e, ".fsx") {
        return true;
    }
    if str_eq(e, ".vb") {
        return true;
    }
    if str_eq(e, ".sh") {
        return true;
    }
    if str_eq(e, ".bash") {
        return true;
    }
    if str_eq(e, ".zsh") {
        return true;
    }
    if str_eq(e, ".fish") {
        return true;
    }
    if str_eq(e, ".bat") {
        return true;
    }
    if str_eq(e, ".cmd") {
        return true;
    }
    if str_eq(e, ".ps1") {
        return true;
    }
    if str_eq(e, ".erl") {
        return true;
    }
    if str_eq(e, ".hrl") {
        return true;
    }
    if str_eq(e, ".ex") {
        return true;
    }
    if str_eq(e, ".exs") {
        return true;
    }
    if str_eq(e, ".lisp") {
        return true;
    }
    if str_eq(e, ".cl") {
        return true;
    }
    if str_eq(e, ".clj") {
        return true;
    }
    if str_eq(e, ".cljs") {
        return true;
    }
    if str_eq(e, ".cljc") {
        return true;
    }
    if str_eq(e, ".edn") {
        return true;
    }
    if str_eq(e, ".hs") {
        return true;
    }
    if str_eq(e, ".lhs") {
        return true;
    }
    if str_eq(e, ".swift") {
        return true;
    }
    if str_eq(e, ".dart") {
        return true;
    }
    if str_eq(e, ".lua") {
        return true;
    }
    if str_eq(e, ".r") {
        return true;
    }
    if str_eq(e, ".rmd") {
        return true;
    }
    if str_eq(e, ".pl") {
        return true;
    }
    if str_eq(e, ".pm") {
        return true;
    }
    if str_eq(e, ".sql") {
        return true;
    }
    if str_eq(e, ".json") {
        return true;
    }
    if str_eq(e, ".yaml") {
        return true;
    }
    if str_eq(e, ".yml") {
        return true;
    }
    if str_eq(e, ".ini") {
        return true;
    }
    if str_eq(e, ".conf") {
        return true;
    }
    if str_eq(e, ".cfg") {
        return true;
    }
    if str_eq(e, ".properties") {
        return true;
    }
    if str_eq(e, ".md") {
        return true;
    }
    if str_eq(e, ".markdown") {
        return true;
    }
    if str_eq(e, ".txt") {
        return true;
    }
    if str_eq(e, ".csv") {
        return true;
    }
    if str_eq(e, ".tsv") {
        return true;
    }
    if str_eq(e, ".gitignore") {
        return true;
    }
    if str_eq(e, ".gitattributes") {
        return true;
    }
    if str_eq(e, ".gitmodules") {
        return true;
    }
    if str_eq(e, ".editorconfig") {
        return true;
    }
    if str_eq(e, ".lock") {
        return true;
    }
    false
}

/// Whether the dotted extension is on the binary deny-list.
fn in_binary_list(e: &str) -> (r: bool)
    ensures
        r == is_binary_ext(e@),
{
    if str_eq(e, ".exe") {
        return true;
    }
    if str_eq(e, ".dll") {
        return true;
    }
    if str_eq(e, ".so") {
        return true;
    }
    if str_eq(e, ".dylib") {
        return true;
    }
    if str_eq(e, ".obj") {
        return true;
    }
    if str_eq(e, ".o") {
        return true;
    }
    if str_eq(e, ".a") {
        return true;
    }
    if str_eq(e, ".lib") {
        return true;
    }
    if str_eq(e, ".bin") {
        return true;
    }
    if str_eq(e, ".dat") {
        return true;
    }
    if str_eq(e, ".db") {
        return true;
    }
    if str_eq(e, ".sqlite") {
        return true;
    }
    if str_eq(e, ".dbf") {
        return true;
    }
    if str_eq(e, ".mdb") {
        return true;
    }
    if str_eq(e, ".accdb") {
        return true;
    }
    if str_eq(e, ".jpg") {
        return true;
    }
    if str_eq(e, ".jpeg") {
        return true;
    }
    if str_eq(e, ".png") {
        return true;
    }
    if str_eq(e, ".gif") {
        return true;
    }
    if str_eq(e, ".bmp") {
        return true;
    }
    if str_eq(e, ".tiff") {
        return true;
    }
    if str_eq(e, ".ico") {
        return true;
    }
    if str_eq(e, ".webp") {
        return true;
    }
    if str_eq(e, ".mp3") {
        return true;
    }
    if str_eq(e, ".mp4") {
        return true;
    }
    if str_eq(e, ".wav") {
        return true;
    }
    if str_eq(e, ".ogg") {
        return true;
    }
    if str_eq(e, ".flac") {
        return true;
    }
    if str_eq(e, ".avi") {
        return true;
    }
    if str_eq(e, ".mov") {
        return true;
    }
    if str_eq(e, ".mkv") {
        return true;
    }
    if str_eq(e, ".zip") {
        return true;
    }
    if str_eq(e, ".tar") {
        return true;
    }
    if str_eq(e, ".gz") {
        return true;
    }
    if str_eq(e, ".bz2") {
        return true;
    }
    if str_eq(e, ".xz") {
        return true;
    }
    if str_eq(e, ".7z") {
        return true;
    }
    if str_eq(e, ".rar") {
        return true;
    }
    if str_eq(e, ".pdf") {
        return true;
    }
    if str_eq(e, ".doc") {
        return true;
    }
    if str_eq(e, ".docx") {
        return true;
    }
    if str_eq(e, ".xls") {
        return true;
    }
    if str_eq(e, ".xlsx") {
        return true;
    }
    if str_eq(e, ".ppt") {
        return true;
    }
    if str_eq(e, ".pptx") {
        return true;
    }
    if str_eq(e, ".class") {
        return true;
    }
    if str_eq(e, ".pyc") {
        return true;
    }
    if str_eq(e, ".pyo") {
        return true;
    }
    if str_eq(e, ".pyd") {
        return true;
    }
    if str_eq(e, ".wasm") {
        return true;
    }
    false
}

/// Whether the file name is a well-known extensionless text file.
fn in_well_known_list(e: &str) -> (r: bool)
    ensures
        r == is_well_known_name(e@),
{
    if str_eq(e, "readme") {
        return true;
    }
    if str_eq(e, "license") {
        return true;
    }
    if str_eq(e, "dockerfile") {
        return true;
    }
    if str_eq(e, "makefile") {
        return true;
    }
    if str_eq(e, "gemfile") {
        return true;
    }
    if str_eq(e, "rakefile") {
        return true;
    }
    if str_eq(e, "vagrantfile") {
        return true;
    }
    if str_eq(e, "procfile") {
        return true;
    }
    if str_eq(e, "jenkinsfile") {
        return true;
    }
    if str_eq(e, "brewfile") {
        return true;
    }
    if str_eq(e, "justfile") {
        return true;
    }
    if str_eq(e, "cargo.lock") {
        return true;
    }
    if str_eq(e, "package-lock.json") {
        return true;
    }
    if str_eq(e, "yarn.lock") {
        return true;
    }
    if str_eq(e, "gemfile.lock") {
        return true;
    }
    if str_eq(e, ".gitignore") {
        return true;
    }
    if str_eq(e, ".gitattributes") {
        return true;
    }
    if str_eq(e, ".gitmodules") {
        return true;
    }
    if str_eq(e, ".editorconfig") {
        return true;
    }
    if str_eq(e, ".eslintrc") {
        return true;
    }
    if str_eq(e, ".prettierrc") {
        return true;
    }
    if str_eq(e, ".babelrc") {
        return true;
    }
    if str_eq(e, ".stylelintrc") {
        return true;
    }
    if str_eq(e, ".npmrc") {
        return true;
    }
    if str_eq(e, "cmakelists.txt") {
        return true;
    }
    if str_eq(e, "configure") {
        return true;
    }
    if str_eq(e, "install") {
        return true;
    }
    if str_eq(e, "uninstall") {
        return true;
    }
    false
}


/// True when the lower-cased file name looks like a git hook or another
/// common extensionless script: it starts with "pre-" or "post-", or
/// mentions "commit" or "hook".
pub open spec fn is_hook_name(lname: Seq<char>) -> bool {
    spec_starts_with(lname, "pre-"@) || spec_starts_with(lname, "post-"@) || spec_contains(
        lname,
        "commit"@,
    ) || spec_contains(lname, "hook"@)
}

/// The classification policy over a whole path.
pub open spec fn is_text_spec(p: Seq<char>) -> bool {
    match spec_dot_ext(p) {
        Some(e) => {
            if is_text_ext(e) {
                true
            } else if is_binary_ext(e) {
                false
            } else {
                true
            }
        },
        None => {
            let lname = spec_lower(spec_filename(p));
            is_hook_name(lname) || is_well_known_name(lname)
        },
    }
}

/// Whether the lower-cased file name looks like a git hook or another common
/// extensionless script.
fn is_hook_exec(lname: &str) -> (r: bool)
    ensures
        r == is_hook_name(lname@),
{
    if str_starts_with(lname, "pre-") {
        return true;
    }
    if str_starts_with(lname, "post-") {
        return true;
    }
    if str_contains(lname, "commit") {
        return true;
    }
    if str_contains(lname, "hook") {
        return true;
    }
    false
}

/// Classifies a path as text (true) or binary (false).
pub fn is_text_file(path: &str) -> (r: bool)
    ensures
        r == is_text_spec(path@),
{
    let len = path.unicode_len();
    let name = match rfind_char(path, '/') {
        Option::Some(i) => {
            proof {
                lemma_last_pos_ensures(path@, '/');
            }
            path.substring_char(i + 1, len)
        },
        Option::None => path,
    };
    proof {
        assert(name@ == spec_filename(path@));
    }
    let nlen = name.unicode_len();
    let dot = rfind_char(name, '.');
    let has_ext = match dot {
        Option::Some(i) => i > 0,
        Option::None => false,
    };
    if has_ext {
        let i = match dot {
            Option::Some(i) => i,
            Option::None => 0,
        };
        proof {
            lemma_last_pos_ensures(name@, '.');
        }
        let ext = name.substring_char(i + 1, nlen);
        let lext = to_lower(ext);
        let mut de = String::new();
        de.append(".");
        de.append(lext.as_str());
        proof {
            reveal_strlit(".");
            assert(de@ =~= spec_dot_ext(path@)->0);
        }
        if in_text_list(de.as_str()) {
            true
        } else if in_binary_list(de.as_str()) {
            false
        } else {
            true
        }
    } else {
        let lname = to_lower(name);
        if is_hook_exec(lname.as_str()) {
            true
        } else {
            in_well_known_list(lname.as_str())
        }
    }
}

/// A path whose dotted, lower-cased extension is on the text allow-list is
/// classified as text.
pub proof fn lemma_allow_list_grants(p: Seq<char>)
    requires
        spec_dot_ext(p) is Some,
        is_text_ext(spec_dot_ext(p)->0),
    ensures
        is_text_spec(p),
{
}

/// A path whose dotted, lower-cased extension is on the binary deny-list is
/// classified as binary: the deny-list is authoritative, and the allow-list
/// is disjoint from it.
pub proof fn lemma_deny_list_refuses(p: Seq<char>)
    requires
        spec_dot_ext(p) is Some,
        is_binary_ext(spec_dot_ext(p)->0),
    ensures
        !is_text_spec(p),
{
    lemma_lists_disjoint(spec_dot_ext(p)->0);
}

/// An extensionless path whose lower-cased file name is a well-known text
/// file name (README, LICENSE, Dockerfile, Makefile, and the like, in any
/// case) is classified as text.
pub proof fn lemma_well_known_name_grants(p: Seq<char>)
    requires
        spec_dot_ext(p) is None,
        is_well_known_name(spec_lower(spec_filename(p))),
    ensures
        is_text_spec(p),
{
}

/// The allow-list and the deny-list are disjoint: no extension is on both.
///
/// The proof spells out the characters of every listed extension, so the
/// prover can compare any pair of them.
#[verifier::rlimit(100)]
pub proof fn lemma_lists_disjoint(e: Seq<char>)
    ensures
        is_text_ext(e) ==> !is_binary_ext(e),
{
    reveal_strlit(".7z");
    assert(".7z"@ =~= seq!['.', '7', 'z']);
    reveal_strlit(".a");
    assert(".a"@ =~= seq!['.', 'a']);
    reveal_strlit(".accdb");
    assert(".accdb"@ =~= seq!['.', 'a', 'c', 'c', 'd', 'b']);
    reveal_strlit(".avi");
    assert(".avi"@ =~= seq!['.', 'a', 'v', 'i']);
    reveal_strlit(".bash");
    assert(".bash"@ =~= seq!['.', 'b', 'a', 's', 'h']);
    reveal_strlit(".bat");
    assert(".bat"@ =~= seq!['.', 'b', 'a', 't']);
    reveal_strlit(".bin");
    assert(".bin"@ =~= seq!['.', 'b', 'i', 'n']);
    reveal_strlit(".bmp");
    assert(".bmp"@ =~= seq!['.', 'b', 'm', 'p']);
    reveal_strlit(".bz2");
    assert(".bz2"@ =~= seq!['.', 'b', 'z', '2']);
    reveal_strlit(".c");
    assert(".c"@ =~= seq!['.', 'c']);
    reveal_strlit(".cc");
    assert(".cc"@ =~= seq!['.', 'c', 'c']);
    reveal_strlit(".cfg");
    assert(".cfg"@ =~= seq!['.', 'c', 'f', 'g']);
    reveal_strlit(".cjs");
    assert(".cjs"@ =~= seq!['.', 'c', 'j', 's']);
    reveal_strlit(".cl");
    assert(".cl"@ =~= seq!['.', 'c', 'l']);
    reveal_strlit(".class");
    assert(".class"@ =~= seq!['.', 'c', 'l', 'a', 's', 's']);
    reveal_strlit(".clj");
    assert(".clj"@ =~= seq!['.', 'c', 'l', 'j']);
    reveal_strlit(".cljc");
    assert(".cljc"@ =~= seq!['.', 'c', 'l', 'j', 'c']);
    reveal_strlit(".cljs");
    assert(".cljs"@ =~= seq!['.', 'c', 'l', 'j', 's']);
    reveal_strlit(".cmd");
    assert(".cmd"@ =~= seq!['.', 'c', 'm', 'd']);
    reveal_strlit(".conf");
    assert(".conf"@ =~= seq!['.', 'c', 'o', 'n', 'f']);
    reveal_strlit(".cpp");
    assert(".cpp"@ =~= seq!['.', 'c', 'p', 'p']);
    reveal_strlit(".cs");
    assert(".cs"@ =~= seq!['.', 'c', 's']);
    reveal_strlit(".css");
    assert(".css"@ =~= seq!['.', 'c', 's', 's']);
    reveal_strlit(".csv");
    assert(".csv"@ =~= seq!['.', 'c', 's', 'v']);
    reveal_strlit(".csx");
    assert(".csx"@ =~= seq!['.', 'c', 's', 'x']);
    reveal_strlit(".cxx");
    assert(".cxx"@ =~= seq!['.', 'c', 'x', 'x']);
    reveal_strlit(".dart");
    assert(".dart"@ =~= seq!['.', 'd', 'a', 'r', 't']);
    reveal_strlit(".dat");
    assert(".dat"@ =~= seq!['.', 'd', 'a', 't']);
    reveal_strlit(".db");
    assert(".db"@ =~= seq!['.', 'd', 'b']);
    reveal_strlit(".dbf");
    assert(".dbf"@ =~= seq!['.', 'd', 'b', 'f']);
    reveal_strlit(".dll");
    assert(".dll"@ =~= seq!['.', 'd', 'l', 'l']);
    reveal_strlit(".doc");
    assert(".doc"@ =~= seq!['.', 'd', 'o', 'c']);
    reveal_strlit(".docx");
    assert(".docx"@ =~= seq!['.', 'd', 'o', 'c', 'x']);
    reveal_strlit(".dylib");
    assert(".dylib"@ =~= seq!['.', 'd', 'y', 'l', 'i', 'b']);
    reveal_strlit(".editorconfig");
    assert(".editorconfig"@ =~= seq!['.', 'e', 'd', 'i', 't', 'o', 'r', 'c', 'o', 'n', 'f', 'i', 'g']);
    reveal_strlit(".edn");
    assert(".edn"@ =~= seq!['.', 'e', 'd', 'n']);
    reveal_strlit(".erl");
    assert(".erl"@ =~= seq!['.', 'e', 'r', 'l']);
    reveal_strlit(".ex");
    assert(".ex"@ =~= seq!['.', 'e', 'x']);
    reveal_strlit(".exe");
    assert(".exe"@ =~= seq!['.', 'e', 'x', 'e']);
    reveal_strlit(".exs");
    assert(".exs"@ =~= seq!['.', 'e', 'x', 's']);
    reveal_strlit(".fish");
    assert(".fish"@ =~= seq!['.', 'f', 'i', 's', 'h']);
    reveal_strlit(".flac");
    assert(".flac"@ =~= seq!['.', 'f', 'l', 'a', 'c']);
    reveal_strlit(".fs");
    assert(".fs"@ =~= seq!['.', 'f', 's']);
    reveal_strlit(".fsx");
    assert(".fsx"@ =~= seq!['.', 'f', 's', 'x']);
    reveal_strlit(".gemspec");
    assert(".gemspec"@ =~= seq!['.', 'g', 'e', 'm', 's', 'p', 'e', 'c']);
    reveal_strlit(".gif");
    assert(".gif"@ =~= seq!['.', 'g', 'i', 'f']);
    reveal_strlit(".gitattributes");
    assert(".gitattributes"@ =~= seq!['.', 'g', 'i', 't', 'a', 't', 't', 'r', 'i', 'b', 'u', 't', 'e', 's']);
    reveal_strlit(".gitignore");
    assert(".gitignore"@ =~= seq!['.', 'g', 'i', 't', 'i', 'g', 'n', 'o', 'r', 'e']);
    reveal_strlit(".gitmodules");
    assert(".gitmodules"@ =~= seq!['.', 'g', 'i', 't', 'm', 'o', 'd', 'u', 'l', 'e', 's']);
    reveal_strlit(".go");
    assert(".go"@ =~= seq!['.', 'g', 'o']);
    reveal_strlit(".gz");
    assert(".gz"@ =~= seq!['.', 'g', 'z']);
    reveal_strlit(".h");
    assert(".h"@ =~= seq!['.', 'h']);
    reveal_strlit(".hh");
    assert(".hh"@ =~= seq!['.', 'h', 'h']);
    reveal_strlit(".hpp");
    assert(".hpp"@ =~= seq!['.', 'h', 'p', 'p']);
    reveal_strlit(".hrl");
    assert(".hrl"@ =~= seq!['.', 'h', 'r', 'l']);
    reveal_strlit(".hs");
    assert(".hs"@ =~= seq!['.', 'h', 's']);
    reveal_strlit(".htm");
    assert(".htm"@ =~= seq!['.', 'h', 't', 'm']);
    reveal_strlit(".html");
    assert(".html"@ =~= seq!['.', 'h', 't', 'm', 'l']);
    reveal_strlit(".hxx");
    assert(".hxx"@ =~= seq!['.', 'h', 'x', 'x']);
    reveal_strlit(".ico");
    assert(".ico"@ =~= seq!['.', 'i', 'c', 'o']);
    reveal_strlit(".ini");
    assert(".ini"@ =~= seq!['.', 'i', 'n', 'i']);
    reveal_strlit(".java");
    assert(".java"@ =~= seq!['.', 'j', 'a', 'v', 'a']);
    reveal_strlit(".jpeg");
    assert(".jpeg"@ =~= seq!['.', 'j', 'p', 'e', 'g']);
    reveal_strlit(".jpg");
    assert(".jpg"@ =~= seq!['.', 'j', 'p', 'g']);
    reveal_strlit(".js");
    assert(".js"@ =~= seq!['.', 'j', 's']);
    reveal_strlit(".json");
    assert(".json"@ =~= seq!['.', 'j', 's', 'o', 'n']);
    reveal_strlit(".jsx");
    assert(".jsx"@ =~= seq!['.', 'j', 's', 'x']);
    reveal_strlit(".kt");
    assert(".kt"@ =~= seq!['.', 'k', 't']);
    reveal_strlit(".kts");
    assert(".kts"@ =~= seq!['.', 'k', 't', 's']);
    reveal_strlit(".less");
    assert(".less"@ =~= seq!['.', 'l', 'e', 's', 's']);
    reveal_strlit(".lhs");
    assert(".lhs"@ =~= seq!['.', 'l', 'h', 's']);
    reveal_strlit(".lib");
    assert(".lib"@ =~= seq!['.', 'l', 'i', 'b']);
    reveal_strlit(".lisp");
    assert(".lisp"@ =~= seq!['.', 'l', 'i', 's', 'p']);
    reveal_strlit(".lock");
    assert(".lock"@ =~= seq!['.', 'l', 'o', 'c', 'k']);
    reveal_strlit(".lua");
    assert(".lua"@ =~= seq!['.', 'l', 'u', 'a']);
    reveal_strlit(".markdown");
    assert(".markdown"@ =~= seq!['.', 'm', 'a', 'r', 'k', 'd', 'o', 'w', 'n']);
    reveal_strlit(".md");
    assert(".md"@ =~= seq!['.', 'm', 'd']);
    reveal_strlit(".mdb");
    assert(".mdb"@ =~= seq!['.', 'm', 'd', 'b']);
    reveal_strlit(".mjs");
    assert(".mjs"@ =~= seq!['.', 'm', 'j', 's']);
    reveal_strlit(".mkv");
    assert(".mkv"@ =~= seq!['.', 'm', 'k', 'v']);
    reveal_strlit(".mod");
    assert(".mod"@ =~= seq!['.', 'm', 'o', 'd']);
    reveal_strlit(".mov");
    assert(".mov"@ =~= seq!['.', 'm', 'o', 'v']);
    reveal_strlit(".mp3");
    assert(".mp3"@ =~= seq!['.', 'm', 'p', '3']);
    reveal_strlit(".mp4");
    assert(".mp4"@ =~= seq!['.', 'm', 'p', '4']);
    reveal_strlit(".o");
    assert(".o"@ =~= seq!['.', 'o']);
    reveal_strlit(".obj");
    assert(".obj"@ =~= seq!['.', 'o', 'b', 'j']);
    reveal_strlit(".ogg");
    assert(".ogg"@ =~= seq!['.', 'o', 'g', 'g']);
    reveal_strlit(".pdf");
    assert(".pdf"@ =~= seq!['.', 'p', 'd', 'f']);
    reveal_strlit(".php");
    assert(".php"@ =~= seq!['.', 'p', 'h', 'p']);
    reveal_strlit(".php5");
    assert(".php5"@ =~= seq!['.', 'p', 'h', 'p', '5']);
    reveal_strlit(".php7");
    assert(".php7"@ =~= seq!['.', 'p', 'h', 'p', '7']);
    reveal_strlit(".phtml");
    assert(".phtml"@ =~= seq!['.', 'p', 'h', 't', 'm', 'l']);
    reveal_strlit(".pl");
    assert(".pl"@ =~= seq!['.', 'p', 'l']);
    reveal_strlit(".pm");
    assert(".pm"@ =~= seq!['.', 'p', 'm']);
    reveal_strlit(".png");
    assert(".png"@ =~= seq!['.', 'p', 'n', 'g']);
    reveal_strlit(".ppt");
    assert(".ppt"@ =~= seq!['.', 'p', 'p', 't']);
    reveal_strlit(".pptx");
    assert(".pptx"@ =~= seq!['.', 'p', 'p', 't', 'x']);
    reveal_strlit(".properties");
    assert(".properties"@ =~= seq!['.', 'p', 'r', 'o', 'p', 'e', 'r', 't', 'i', 'e', 's']);
    reveal_strlit(".ps1");
    assert(".ps1"@ =~= seq!['.', 'p', 's', '1']);
    reveal_strlit(".pxd");
    assert(".pxd"@ =~= seq!['.', 'p', 'x', 'd']);
    reveal_strlit(".py");
    assert(".py"@ =~= seq!['.', 'p', 'y']);
    reveal_strlit(".pyc");
    assert(".pyc"@ =~= seq!['.', 'p', 'y', 'c']);
    reveal_strlit(".pyd");
    assert(".pyd"@ =~= seq!['.', 'p', 'y', 'd']);
    reveal_strlit(".pyi");
    assert(".pyi"@ =~= seq!['.', 'p', 'y', 'i']);
    reveal_strlit(".pyo");
    assert(".pyo"@ =~= seq!['.', 'p', 'y', 'o']);
    reveal_strlit(".pyx");
    assert(".pyx"@ =~= seq!['.', 'p', 'y', 'x']);
    reveal_strlit(".r");
    assert(".r"@ =~= seq!['.', 'r']);
    reveal_strlit(".rake");
    assert(".rake"@ =~= seq!['.', 'r', 'a', 'k', 'e']);
    reveal_strlit(".rar");
    assert(".rar"@ =~= seq!['.', 'r', 'a', 'r']);
    reveal_strlit(".rb");
    assert(".rb"@ =~= seq!['.', 'r', 'b']);
    reveal_strlit(".rmd");
    assert(".rmd"@ =~= seq!['.', 'r', 'm', 'd']);
    reveal_strlit(".rs");
    assert(".rs"@ =~= seq!['.', 'r', 's']);
    reveal_strlit(".sass");
    assert(".sass"@ =~= seq!['.', 's', 'a', 's', 's']);
    reveal_strlit(".sc");
    assert(".sc"@ =~= seq!['.', 's', 'c']);
    reveal_strlit(".scala");
    assert(".scala"@ =~= seq!['.', 's', 'c', 'a', 'l', 'a']);
    reveal_strlit(".scss");
    assert(".scss"@ =~= seq!['.', 's', 'c', 's', 's']);
    reveal_strlit(".sh");
    assert(".sh"@ =~= seq!['.', 's', 'h']);
    reveal_strlit(".so");
    assert(".so"@ =~= seq!['.', 's', 'o']);
    reveal_strlit(".sql");
    assert(".sql"@ =~= seq!['.', 's', 'q', 'l']);
    reveal_strlit(".sqlite");
    assert(".sqlite"@ =~= seq!['.', 's', 'q', 'l', 'i', 't', 'e']);
    reveal_strlit(".svg");
    assert(".svg"@ =~= seq!['.', 's', 'v', 'g']);
    reveal_strlit(".swift");
    assert(".swift"@ =~= seq!['.', 's', 'w', 'i', 'f', 't']);
    reveal_strlit(".tar");
    assert(".tar"@ =~= seq!['.', 't', 'a', 'r']);
    reveal_strlit(".tiff");
    assert(".tiff"@ =~= seq!['.', 't', 'i', 'f', 'f']);
    reveal_strlit(".toml");
    assert(".toml"@ =~= seq!['.', 't', 'o', 'm', 'l']);
    reveal_strlit(".ts");
    assert(".ts"@ =~= seq!['.', 't', 's']);
    reveal_strlit(".tsv");
    assert(".tsv"@ =~= seq!['.', 't', 's', 'v']);
    reveal_strlit(".tsx");
    assert(".tsx"@ =~= seq!['.', 't', 's', 'x']);
    reveal_strlit(".txt");
    assert(".txt"@ =~= seq!['.', 't', 'x', 't']);
    reveal_strlit(".vb");
    assert(".vb"@ =~= seq!['.', 'v', 'b']);
    reveal_strlit(".wasm");
    assert(".wasm"@ =~= seq!['.', 'w', 'a', 's', 'm']);
    reveal_strlit(".wav");
    assert(".wav"@ =~= seq!['.', 'w', 'a', 'v']);
    reveal_strlit(".webp");
    assert(".webp"@ =~= seq!['.', 'w', 'e', 'b', 'p']);
    reveal_strlit(".xls");
    assert(".xls"@ =~= seq!['.', 'x', 'l', 's']);
    reveal_strlit(".xlsx");
    assert(".xlsx"@ =~= seq!['.', 'x', 'l', 's', 'x']);
    reveal_strlit(".xml");
    assert(".xml"@ =~= seq!['.', 'x', 'm', 'l']);
    reveal_strlit(".xz");
    assert(".xz"@ =~= seq!['.', 'x', 'z']);
    reveal_strlit(".yaml");
    assert(".yaml"@ =~= seq!['.', 'y', 'a', 'm', 'l']);
    reveal_strlit(".yml");
    assert(".yml"@ =~= seq!['.', 'y', 'm', 'l']);
    reveal_strlit(".zip");
    assert(".zip"@ =~= seq!['.', 'z', 'i', 'p']);
    reveal_strlit(".zsh");
    assert(".zsh"@ =~= seq!['.', 'z', 's', 'h']);
}



} // verus!
