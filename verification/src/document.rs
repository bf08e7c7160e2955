//! Document type detection. The extractors themselves (PDF, word processor,
//! spreadsheet and plain-text readers) are external collaborators; the rule
//! for which of them a file belongs to lives here.

use crate::strutil::eq_ascii_case_spec;
use crate::strutil::eq_ignore_ascii_case;
use crate::strutil::is_space;
use crate::strutil::is_space_char;
use crate::strutil::prefix_chars;
use vstd::prelude::*;
use vstd::string::StrSliceExecFns;
use vstd::string::StringExecFns;

verus! {

/// Supported document types.
#[derive(Debug, Clone, Copy, PartialEq, Eq, Structural)]
pub enum DocumentType {
    Pdf,
    Docx,
    Xlsx,
    Text,
    Markdown,
    Code,
}

/// Path separators recognized in a file path.
pub open spec fn is_sep_char(c: char) -> bool {
    c == '/' || c == '\\'
}

/// The file-name part of a path: everything after the last separator.
pub open spec fn file_name_of(p: Seq<char>) -> Seq<char>
    decreases p.len(),
{
    if p.len() == 0 {
        p
    } else if is_sep_char(p.last()) {
        Seq::<char>::empty()
    } else {
        file_name_of(p.drop_last()).push(p.last())
    }
}

/// The extension of a file name: what follows its last dot, provided
/// something precedes that dot.
pub open spec fn extension_of_name(f: Seq<char>) -> Option<Seq<char>>
    decreases f.len(),
{
    if f.len() == 0 {
        None
    } else if f.last() == '.' {
        if f.len() == 1 {
            None
        } else {
            Some(Seq::<char>::empty())
        }
    } else {
        match extension_of_name(f.drop_last()) {
            Some(e) => Some(e.push(f.last())),
            None => None,
        }
    }
}

/// The extension of a whole path.
pub open spec fn extension_of(p: Seq<char>) -> Option<Seq<char>> {
    extension_of_name(file_name_of(p))
}

/// Which document type an extension names, compared ignoring ASCII case.
pub open spec fn doc_type_of_extension(e: Seq<char>) -> Option<DocumentType> {
    if eq_ascii_case_spec(e, "pdf"@) {
        Some(DocumentType::Pdf)
    } else if eq_ascii_case_spec(e, "docx"@) {
        Some(DocumentType::Docx)
    } else if eq_ascii_case_spec(e, "xlsx"@) || eq_ascii_case_spec(e, "xls"@)
        || eq_ascii_case_spec(e, "xlsm"@) || eq_ascii_case_spec(e, "xlsb"@) || eq_ascii_case_spec(
        e,
        "ods"@,
    ) {
        Some(DocumentType::Xlsx)
    } else if eq_ascii_case_spec(e, "txt"@) {
        Some(DocumentType::Text)
    } else if eq_ascii_case_spec(e, "md"@) || eq_ascii_case_spec(e, "markdown"@) {
        Some(DocumentType::Markdown)
    } else if eq_ascii_case_spec(e, "rs"@) || eq_ascii_case_spec(e, "py"@) || eq_ascii_case_spec(
        e,
        "js"@,
    ) || eq_ascii_case_spec(e, "ts"@) || eq_ascii_case_spec(e, "jsx"@) || eq_ascii_case_spec(
        e,
        "tsx"@,
    ) || eq_ascii_case_spec(e, "java"@) || eq_ascii_case_spec(e, "c"@) || eq_ascii_case_spec(
        e,
        "cpp"@,
    ) || eq_ascii_case_spec(e, "h"@) || eq_ascii_case_spec(e, "hpp"@) || eq_ascii_case_spec(
        e,
        "go"@,
    ) || eq_ascii_case_spec(e, "rb"@) || eq_ascii_case_spec(e, "php"@) || eq_ascii_case_spec(
        e,
        "swift"@,
    ) || eq_ascii_case_spec(e, "kt"@) || eq_ascii_case_spec(e, "cs"@) || eq_ascii_case_spec(
        e,
        "html"@,
    ) || eq_ascii_case_spec(e, "css"@) || eq_ascii_case_spec(e, "scss"@) || eq_ascii_case_spec(
        e,
        "json"@,
    ) || eq_ascii_case_spec(e, "xml"@) || eq_ascii_case_spec(e, "yaml"@) || eq_ascii_case_spec(
        e,
        "yml"@,
    ) || eq_ascii_case_spec(e, "toml"@) || eq_ascii_case_spec(e, "sh"@) || eq_ascii_case_spec(
        e,
        "bash"@,
    ) || eq_ascii_case_spec(e, "sql"@) || eq_ascii_case_spec(e, "r"@) || eq_ascii_case_spec(
        e,
        "scala"@,
    ) || eq_ascii_case_spec(e, "lua"@) || eq_ascii_case_spec(e, "vim"@) || eq_ascii_case_spec(
        e,
        "dart"@,
    ) {
        Some(DocumentType::Code)
    } else {
        None
    }
}

/// When a path has no dot past index `k` and a dot or nothing at `k`, its
/// extension is decided: the characters after the dot, or nothing at all.
proof fn lemma_extension_at(f: Seq<char>, k: int)
    requires
        0 <= k < f.len(),
        f[k] == '.',
        forall|j: int| k < j < f.len() ==> f[j] != '.',
    ensures
        extension_of_name(f) == if k == 0 {
            Option::<Seq<char>>::None
        } else {
            Option::<Seq<char>>::Some(f.skip(k + 1))
        },
    decreases f.len(),
{
    if k == f.len() - 1 {
        if k == 0 {
        } else {
            assert(f.skip(k + 1) =~= Seq::<char>::empty());
        }
    } else {
        lemma_extension_at(f.drop_last(), k);
        if k > 0 {
            assert(f.drop_last().skip(k + 1).push(f.last()) =~= f.skip(k + 1));
        }
    }
}

/// A file name with no dot has no extension.
proof fn lemma_extension_none(f: Seq<char>)
    requires
        forall|j: int| 0 <= j < f.len() ==> f[j] != '.',
    ensures
        extension_of_name(f) is None,
    decreases f.len(),
{
    if f.len() > 0 {
        lemma_extension_none(f.drop_last());
    }
}

/// A path with no separator past index `i` has its file name decided there.
proof fn lemma_file_name_at(p: Seq<char>, i: int)
    requires
        0 <= i <= p.len(),
        i > 0 ==> is_sep_char(p[i - 1]),
        forall|j: int| i <= j < p.len() ==> !is_sep_char(p[j]),
    ensures
        file_name_of(p) == p.skip(i),
    decreases p.len(),
{
    if p.len() == 0 {
        assert(p.skip(0) =~= p);
    } else if i == p.len() {
        assert(p.skip(i) =~= Seq::<char>::empty());
    } else {
        lemma_file_name_at(p.drop_last(), i);
        assert(p.drop_last().skip(i).push(p.last()) =~= p.skip(i));
    }
}

/// Number of words in a text: maximal runs of non-whitespace characters.
/// `after_space` says whether the position before the remaining text was a
/// boundary (start of text or whitespace).
pub open spec fn word_count_from(s: Seq<char>, after_space: bool) -> int
    decreases s.len(),
{
    if s.len() == 0 {
        0
    } else {
        let starts_word = after_space && !is_space_char(s.first());
        (if starts_word {
            1int
        } else {
            0int
        }) + word_count_from(s.drop_first(), is_space_char(s.first()))
    }
}

/// Newlines in a text.
pub open spec fn count_newlines(s: Seq<char>) -> int
    decreases s.len(),
{
    if s.len() == 0 {
        0
    } else {
        (if s.last() == '\n' {
            1int
        } else {
            0int
        }) + count_newlines(s.drop_last())
    }
}

/// Number of lines in a text: newline-terminated pieces, plus a final
/// unterminated piece when one exists. The empty text has no lines.
pub open spec fn line_count_of(s: Seq<char>) -> int {
    if s.len() == 0 {
        0
    } else if s.last() == '\n' {
        count_newlines(s)
    } else {
        count_newlines(s) + 1
    }
}

/// Newlines number at most the characters.
proof fn lemma_count_newlines_bound(s: Seq<char>)
    ensures
        0 <= count_newlines(s) <= s.len(),
    decreases s.len(),
{
    if s.len() > 0 {
        lemma_count_newlines_bound(s.drop_last());
    }
}

/// Per-document statistics shown in a document summary.
pub struct TextStats {
    /// Characters in the text.
    pub chars: usize,
    /// Maximal runs of non-whitespace characters.
    pub words: usize,
    /// Lines, counting a final unterminated one.
    pub lines: usize,
}

/// Count the characters, words and lines of a document's text.
pub fn text_stats(text: &str) -> (r: TextStats)
    ensures
        r.chars == text@.len(),
        r.words == word_count_from(text@, true),
        r.lines == line_count_of(text@),
{
    let n = text.unicode_len();
    let mut words: usize = 0;
    let mut newlines: usize = 0;
    let mut after_space = true;
    let mut i: usize = 0;
    proof {
        assert(text@.skip(0) =~= text@);
    }
    while i < n
        invariant
            0 <= i <= n == text@.len(),
            words <= i,
            newlines <= i,
            words + word_count_from(text@.skip(i as int), after_space) == word_count_from(
                text@,
                true,
            ),
            newlines == count_newlines(text@.take(i as int)),
        decreases n - i,
    {
        let c = text.get_char(i);
        proof {
            assert(text@.skip(i as int).first() == text@[i as int]);
            assert(text@.skip(i as int).drop_first() =~= text@.skip(i + 1));
            assert(text@.take(i + 1).drop_last() =~= text@.take(i as int));
            assert(text@.take(i + 1).last() == text@[i as int]);
        }
        if after_space && !is_space(c) {
            words = words + 1;
        }
        if c == '\n' {
            newlines = newlines + 1;
        }
        after_space = is_space(c);
        i = i + 1;
    }
    proof {
        assert(text@.take(n as int) =~= text@);
        assert(text@.skip(n as int).len() == 0);
        if n > 0 && text@.last() != '\n' {
            lemma_count_newlines_bound(text@.drop_last());
        }
    }
    let lines = if n == 0 {
        0
    } else if text.get_char(n - 1) == '\n' {
        newlines
    } else {
        newlines + 1
    };
    TextStats { chars: n, words, lines }
}

/// The excerpt a document summary shows: the first 200 characters, with a
/// trailing marker when the text goes on.
pub fn document_excerpt(text: &str) -> (r: String)
    ensures
        text@.len() <= 200 ==> r@ == text@,
        text@.len() > 200 ==> r@ == text@.take(200) + "..."@,
{
    let n = text.unicode_len();
    let head = prefix_chars(text, 200);
    let mut out = String::from_str(head);
    if n > 200 {
        out.append("...");
    } else {
        proof {
            assert(text@.take(text@.len() as int) =~= text@);
        }
    }
    out
}

impl DocumentType {
    /// Detect the document type from a path's file extension.
    pub fn from_extension(path: &str) -> (r: Option<DocumentType>)
        ensures
            r == match extension_of(path@) {
                Some(e) => doc_type_of_extension(e),
                None => None,
            },
    {
        let n = path.unicode_len();

        // Where the file name starts: right after the last separator.
        let mut start: usize = n;
        while start > 0 && path.get_char(start - 1) != '/' && path.get_char(start - 1) != '\\'
            invariant
                0 <= start <= n == path@.len(),
                forall|j: int| start <= j < n ==> !is_sep_char(path@[j]),
            decreases start,
        {
            start = start - 1;
        }
        proof {
            lemma_file_name_at(path@, start as int);
        }
        let ghost fname = path@.skip(start as int);

        // The last dot inside the file name, if any.
        let mut dot: usize = n;
        while dot > start && path.get_char(dot - 1) != '.'
            invariant
                start <= dot <= n == path@.len(),
                forall|j: int| dot <= j < n ==> path@[j] != '.',
            decreases dot,
        {
            dot = dot - 1;
        }
        if dot == start {
            // No dot in the file name at all.
            proof {
                assert(forall|j: int| 0 <= j < fname.len() ==> fname[j] == path@[start + j]);
                lemma_extension_none(fname);
            }
            return None;
        }
        // path[dot - 1] is the last dot; the stem before it must be non-empty.
        proof {
            assert(fname[dot - 1 - start] == '.');
            assert(forall|j: int|
                dot - start <= j < fname.len() ==> fname[j] == path@[start + j] && fname[j] != '.');
            lemma_extension_at(fname, dot - 1 - start);
        }
        if dot - 1 == start {
            return None;
        }
        let ext = path.substring_char(dot, n);
        proof {
            assert(ext@ =~= fname.skip(dot - start));
        }

        if eq_ignore_ascii_case(ext, "pdf") {
            Some(DocumentType::Pdf)
        } else if eq_ignore_ascii_case(ext, "docx") {
            Some(DocumentType::Docx)
        } else if eq_ignore_ascii_case(ext, "xlsx") || eq_ignore_ascii_case(ext, "xls")
            || eq_ignore_ascii_case(ext, "xlsm") || eq_ignore_ascii_case(ext, "xlsb")
            || eq_ignore_ascii_case(ext, "ods") {
            Some(DocumentType::Xlsx)
        } else if eq_ignore_ascii_case(ext, "txt") {
            Some(DocumentType::Text)
        } else if eq_ignore_ascii_case(ext, "md") || eq_ignore_ascii_case(ext, "markdown") {
            Some(DocumentType::Markdown)
        } else if eq_ignore_ascii_case(ext, "rs") || eq_ignore_ascii_case(ext, "py")
            || eq_ignore_ascii_case(ext, "js") || eq_ignore_ascii_case(ext, "ts")
            || eq_ignore_ascii_case(ext, "jsx") || eq_ignore_ascii_case(ext, "tsx")
            || eq_ignore_ascii_case(ext, "java") || eq_ignore_ascii_case(ext, "c")
            || eq_ignore_ascii_case(ext, "cpp") || eq_ignore_ascii_case(ext, "h")
            || eq_ignore_ascii_case(ext, "hpp") || eq_ignore_ascii_case(ext, "go")
            || eq_ignore_ascii_case(ext, "rb") || eq_ignore_ascii_case(ext, "php")
            || eq_ignore_ascii_case(ext, "swift") || eq_ignore_ascii_case(ext, "kt")
            || eq_ignore_ascii_case(ext, "cs") || eq_ignore_ascii_case(ext, "html")
            || eq_ignore_ascii_case(ext, "css") || eq_ignore_ascii_case(ext, "scss")
            || eq_ignore_ascii_case(ext, "json") || eq_ignore_ascii_case(ext, "xml")
            || eq_ignore_ascii_case(ext, "yaml") || eq_ignore_ascii_case(ext, "yml")
            || eq_ignore_ascii_case(ext, "toml") || eq_ignore_ascii_case(ext, "sh")
            || eq_ignore_ascii_case(ext, "bash") || eq_ignore_ascii_case(ext, "sql")
            || eq_ignore_ascii_case(ext, "r") || eq_ignore_ascii_case(ext, "scala")
            || eq_ignore_ascii_case(ext, "lua") || eq_ignore_ascii_case(ext, "vim")
            || eq_ignore_ascii_case(ext, "dart") {
            Some(DocumentType::Code)
        } else {
            None
        }
    }
}

} // verus!
