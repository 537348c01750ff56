use vstd::prelude::*;
use vstd::string::{StrSliceExecFns, StringExecFns};

verus! {

/// The output formats that a book can be rendered to.
#[derive(Clone, Copy, Debug, PartialEq, Eq, Structural)]
pub enum Format {
    /// Zip-based e-book, packaged by an archiver.
    Epub,
    /// Typeset document, compiled by a typesetting engine.
    Pdf,
    /// Typesetting source, written directly.
    Tex,
    /// Hypertext, written directly.
    Html,
    /// Office document, packaged by an archiver.
    Odt,
}

/// The name of a format on the command line and in option keys.
pub open spec fn format_name(f: Format) -> Seq<char> {
    match f {
        Format::Epub => "epub"@,
        Format::Pdf => "pdf"@,
        Format::Tex => "tex"@,
        Format::Html => "html"@,
        Format::Odt => "odt"@,
    }
}

/// The format with the given name, if there is one.
pub open spec fn format_named(name: Seq<char>) -> Option<Format> {
    if name == "epub"@ {
        Some(Format::Epub)
    } else if name == "pdf"@ {
        Some(Format::Pdf)
    } else if name == "tex"@ {
        Some(Format::Tex)
    } else if name == "html"@ {
        Some(Format::Html)
    } else if name == "odt"@ {
        Some(Format::Odt)
    } else {
        None
    }
}

/// Formats whose output is made by an external tool in a workspace.
pub open spec fn is_packaged(f: Format) -> bool {
    f is Epub || f is Pdf || f is Odt
}

/// Whether two strings hold the same characters.
pub fn same_text(a: &str, b: &str) -> (r: bool)
    ensures
        r == (a@ == b@),
{
    let n = a.unicode_len();
    if n != b.unicode_len() {
        return false;
    }
    let mut i: usize = 0;
    while i < n
        invariant
            n == a@.len(),
            n == b@.len(),
            i <= n,
            forall|j: int| 0 <= j < i ==> a@[j] == b@[j],
        decreases n - i,
    {
        if a.get_char(i) != b.get_char(i) {
            return false;
        }
        i = i + 1;
    }
    assert(a@ =~= b@);
    true
}

/// Whether `s` begins with `prefix`.
pub fn has_prefix(s: &str, prefix: &str) -> (r: bool)
    ensures
        r == (prefix@.len() <= s@.len() && s@.subrange(0, prefix@.len() as int) == prefix@),
{
    let n = prefix.unicode_len();
    if n > s.unicode_len() {
        return false;
    }
    let mut i: usize = 0;
    while i < n
        invariant
            n == prefix@.len(),
            n <= s@.len(),
            i <= n,
            forall|j: int| 0 <= j < i ==> s@[j] == prefix@[j],
        decreases n - i,
    {
        if s.get_char(i) != prefix.get_char(i) {
            assert(s@.subrange(0, n as int)[i as int] != prefix@[i as int]);
            return false;
        }
        i = i + 1;
    }
    assert(s@.subrange(0, n as int) =~= prefix@);
    true
}

impl Format {
    /// Reads a format name.
    pub fn parse(name: &str) -> (r: Option<Format>)
        ensures
            r == format_named(name@),
    {
        if same_text(name, "epub") {
            Some(Format::Epub)
        } else if same_text(name, "pdf") {
            Some(Format::Pdf)
        } else if same_text(name, "tex") {
            Some(Format::Tex)
        } else if same_text(name, "html") {
            Some(Format::Html)
        } else if same_text(name, "odt") {
            Some(Format::Odt)
        } else {
            None
        }
    }

    /// The name of the format.
    pub fn name(&self) -> (r: String)
        ensures
            r@ == format_name(*self),
    {
        match self {
            Format::Epub => String::from_str("epub"),
            Format::Pdf => String::from_str("pdf"),
            Format::Tex => String::from_str("tex"),
            Format::Html => String::from_str("html"),
            Format::Odt => String::from_str("odt"),
        }
    }

    /// The book option that holds the output path of this format.
    pub fn option_key(&self) -> (r: String)
        ensures
            r@ == "output."@ + format_name(*self),
    {
        let mut key = String::from_str("output.");
        let name = self.name();
        key.append(name.as_str());
        key
    }

    /// Whether the format is made by an external tool in a workspace, rather
    /// than written directly to its destination.
    pub fn needs_workspace(&self) -> (r: bool)
        ensures
            r == is_packaged(*self),
    {
        match self {
            Format::Epub | Format::Pdf | Format::Odt => true,
            Format::Tex | Format::Html => false,
        }
    }
}

/// What the user asked for with the output flag.
pub enum OutputFlag {
    /// No output flag.
    Absent,
    /// `-`: standard output.
    Stdout,
    /// A file path.
    Path(String),
}

/// Where rendered bytes go.
pub enum Destination {
    Stdout,
    File(String),
}

/// Reads the value of the output flag.
pub fn parse_output_flag(value: Option<&str>) -> (r: OutputFlag)
    ensures
        value is None ==> r is Absent,
        value is Some && value->0@ == "-"@ ==> r is Stdout,
        value is Some && value->0@ != "-"@ ==> r is Path && r->Path_0@ == value->0@,
{
    match value {
        None => OutputFlag::Absent,
        Some(v) => {
            if same_text(v, "-") {
                OutputFlag::Stdout
            } else {
                OutputFlag::Path(String::from_str(v))
            }
        },
    }
}

impl OutputFlag {
    /// The path to store in the book's option for the format before the
    /// destination is resolved: only an explicit file path is stored.
    pub fn option_update(&self) -> (r: Option<String>)
        ensures
            self is Path <==> r is Some,
            r is Some ==> r->0@ == self->Path_0@,
    {
        match self {
            OutputFlag::Path(p) => Some(String::from_str(p.as_str())),
            _ => None,
        }
    }
}

/// Resolves where a rendering goes, from the output flag and the path that
/// the book holds for the format once the flag's path has been stored.
///
/// `-` and a book without a path both mean standard output.
pub fn resolve_destination(flag: &OutputFlag, configured: Option<String>) -> (r: Destination)
    ensures
        (flag is Stdout || configured is None) ==> r is Stdout,
        !(flag is Stdout || configured is None) ==> r is File && r->File_0@ == configured->0@,
{
    match flag {
        OutputFlag::Stdout => Destination::Stdout,
        _ => match configured {
            None => Destination::Stdout,
            Some(p) => Destination::File(p),
        },
    }
}

/// How one rendering is carried out: where its bytes go, and whether an
/// external tool makes them in a workspace.
pub struct RenderPlan {
    pub destination: Destination,
    pub packaged: bool,
}

/// Plans the rendering of `format`, given the output flag and the path that
/// the book holds for the format once the flag's path has been stored.
pub fn render_format(format: Format, flag: &OutputFlag, configured: Option<String>) -> (r:
    RenderPlan)
    ensures
        r.packaged == is_packaged(format),
        (flag is Stdout || configured is None) ==> r.destination is Stdout,
        !(flag is Stdout || configured is None) ==> r.destination is File
            && r.destination->File_0@ == configured->0@,
{
    let destination = resolve_destination(flag, configured);
    RenderPlan { destination, packaged: format.needs_workspace() }
}

/// How much the program reports.
#[derive(Clone, Copy, Debug, PartialEq, Eq, Structural)]
pub enum Verbosity {
    Debug,
    Warning,
    Info,
    Quiet,
}

/// The verbosity that the command-line switches select: debug wins over
/// verbose, which wins over quiet.
pub fn verbosity(debug: bool, verbose: bool, quiet: bool) -> (r: Verbosity)
    ensures
        r == (if debug {
            Verbosity::Debug
        } else if verbose {
            Verbosity::Warning
        } else if quiet {
            Verbosity::Quiet
        } else {
            Verbosity::Info
        }),
{
    if debug {
        Verbosity::Debug
    } else if verbose {
        Verbosity::Warning
    } else if quiet {
        Verbosity::Quiet
    } else {
        Verbosity::Info
    }
}

/// The language of messages for a locale such as `fr_FR.UTF-8`: French for
/// a locale that starts with `fr`, English otherwise.
pub fn interface_language(locale: &str) -> (r: String)
    ensures
        r@ == (if locale@.len() >= 2 && locale@.subrange(0, 2) == "fr"@ {
            "fr"@
        } else {
            "en"@
        }),
{
    proof {
        reveal_strlit("fr");
    }
    if has_prefix(locale, "fr") {
        String::from_str("fr")
    } else {
        String::from_str("en")
    }
}

/// How the program ends.
pub struct Termination {
    /// The exit status: 0 on success, 1 on failure.
    pub status: i32,
    /// The message to report as an error, on failure.
    pub error: Option<String>,
}

/// How the program ends after a run that gave `outcome`: success exits
/// with 0 and says nothing; a failure reports its message and exits with 1.
pub fn real_main(outcome: Result<(), String>) -> (t: Termination)
    ensures
        outcome is Ok ==> t.status == 0 && t.error is None,
        outcome is Err ==> t.status == 1 && t.error is Some && t.error->0@ == outcome->Err_0@,
{
    match outcome {
        Ok(()) => Termination { status: 0, error: None },
        Err(m) => Termination { status: 1, error: Some(m) },
    }
}

} // verus!
