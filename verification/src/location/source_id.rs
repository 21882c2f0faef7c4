//! Identification of the source a compilation unit comes from.
use vstd::prelude::*;
use crate::text::{cat2, cat3, chars_of};

verus! {

/// The source of a compilation unit; valid for a whole compilation.
#[derive(Debug, PartialEq, Eq, Hash)]
pub enum SourceId {
    /// A file of the file system, by its path.
    FilePath { path: String },
    /// A virtual resource (URI, archive entry, URL).
    VirtualResource { uri: String },
    /// A module held in memory (REPL, eval).
    InMemoryModule { module_name: String },
    /// A source generated by the compiler (macro expansion and the like).
    Generated { description: String },
}

/// Unicode white space, as `char::is_whitespace` has it.
pub open spec fn is_white_space(c: char) -> bool {
    ||| '\t' <= c && c <= '\r'
    ||| c == ' '
    ||| c == '\u{85}'
    ||| c == '\u{A0}'
    ||| c == '\u{1680}'
    ||| '\u{2000}' <= c && c <= '\u{200A}'
    ||| c == '\u{2028}'
    ||| c == '\u{2029}'
    ||| c == '\u{202F}'
    ||| c == '\u{205F}'
    ||| c == '\u{3000}'
}

/// A text that is empty once trimmed: nothing but white space.
pub open spec fn is_blank(s: Seq<char>) -> bool {
    forall|i: int| 0 <= i < s.len() ==> is_white_space(#[trigger] s[i])
}

/// The stable identifier of a source.
pub open spec fn identifier_text(id: SourceId) -> Seq<char> {
    match id {
        SourceId::FilePath { path } => path@,
        SourceId::VirtualResource { uri } => uri@,
        SourceId::InMemoryModule { module_name } => module_name@,
        SourceId::Generated { description } => "<generated:"@ + description@ + ">"@,
    }
}

/// The description of a source for people.
pub open spec fn description_text(id: SourceId) -> Seq<char> {
    match id {
        SourceId::FilePath { path } => "file: "@ + path@,
        SourceId::VirtualResource { uri } => "virtual: "@ + uri@,
        SourceId::InMemoryModule { module_name } => "in-memory module: "@ + module_name@,
        SourceId::Generated { description } => "generated: "@ + description@,
    }
}

/// Whether a character is white space.
pub(crate) fn white_space(ch: char) -> (r: bool)
    ensures
        r == is_white_space(ch),
{
    ('\t' <= ch && ch <= '\r') || ch == ' ' || ch == '\u{85}' || ch == '\u{A0}' || ch == '\u{1680}'
        || ('\u{2000}' <= ch && ch <= '\u{200A}') || ch == '\u{2028}' || ch == '\u{2029}' || ch == '\u{202F}'
        || ch == '\u{205F}' || ch == '\u{3000}'
}

/// Whether a text is nothing but white space.
fn blank(s: &str) -> (r: bool)
    ensures
        r == is_blank(s@),
{
    let c = chars_of(s);
    let mut i: usize = 0;
    while i < c.len()
        invariant
            i <= c@.len(),
            c@ == s@,
            forall|k: int| 0 <= k < i ==> is_white_space(#[trigger] c@[k]),
        decreases c.len() - i,
    {
        let ch = c[i];
        if !white_space(ch) {
            assert(!is_white_space(s@[i as int]));
            return false;
        }
        i = i + 1;
    }
    true
}

impl SourceId {
    /// The source of the file at `path`.
    pub fn file_path(path: String) -> (r: Self)
        ensures
            r == (SourceId::FilePath { path }),
    {
        SourceId::FilePath { path }
    }

    /// The source of the resource at `uri`; a blank URI is refused.
    pub fn virtual_resource(uri: String) -> (r: Result<Self, &'static str>)
        ensures
            is_blank(uri@) ==> (r matches Err(m) && m@ == "uri must not be blank"@),
            !is_blank(uri@) ==> r == Ok::<Self, &'static str>(SourceId::VirtualResource { uri }),
    {
        if blank(uri.as_str()) {
            return Err("uri must not be blank");
        }
        Ok(SourceId::VirtualResource { uri })
    }

    /// The source of the in-memory module `module_name`; a blank name is refused.
    pub fn in_memory_module(module_name: String) -> (r: Result<Self, &'static str>)
        ensures
            is_blank(module_name@) ==> (r matches Err(m) && m@ == "moduleName must not be blank"@),
            !is_blank(module_name@) ==> r == Ok::<Self, &'static str>(SourceId::InMemoryModule { module_name }),
    {
        if blank(module_name.as_str()) {
            return Err("moduleName must not be blank");
        }
        Ok(SourceId::InMemoryModule { module_name })
    }

    /// A generated source described by `description`; a blank description
    /// is refused.
    pub fn generated(description: String) -> (r: Result<Self, &'static str>)
        ensures
            is_blank(description@) ==> (r matches Err(m) && m@ == "description must not be blank"@),
            !is_blank(description@) ==> r == Ok::<Self, &'static str>(SourceId::Generated { description }),
    {
        if blank(description.as_str()) {
            return Err("description must not be blank");
        }
        Ok(SourceId::Generated { description })
    }

    /// The stable textual identifier of the source.
    pub fn identifier(&self) -> (r: String)
        ensures
            r@ == identifier_text(*self),
    {
        match self {
            SourceId::FilePath { path } => path.clone(),
            SourceId::VirtualResource { uri } => uri.clone(),
            SourceId::InMemoryModule { module_name } => module_name.clone(),
            SourceId::Generated { description } => cat3("<generated:", description.as_str(), ">"),
        }
    }

    /// A description of the source for logs and diagnostics.
    pub fn describe(&self) -> (r: String)
        ensures
            r@ == description_text(*self),
    {
        match self {
            SourceId::FilePath { path } => cat2("file: ", path.as_str()),
            SourceId::VirtualResource { uri } => cat2("virtual: ", uri.as_str()),
            SourceId::InMemoryModule { module_name } => cat2("in-memory module: ", module_name.as_str()),
            SourceId::Generated { description } => cat2("generated: ", description.as_str()),
        }
    }
}

} // verus!
