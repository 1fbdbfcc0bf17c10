//! The layered configuration: what the user wrote under `output.pdf`, and the
//! fully defaulted configuration it resolves to.
use vstd::prelude::*;

use crate::engine::{engine_named, is_engine_name, lemma_engine_named_name, EngineKind, DEFAULT_ENGINE};

verus! {

/// The font used when the configuration names none.
pub const DEFAULT_FONT: &'static str = "DejaVu Sans";

/// The characters of `DEFAULT_FONT`.
pub open spec fn default_font() -> Seq<char> {
    DEFAULT_FONT@
}

/// The characters of an optional string.
pub open spec fn opt_text(o: Option<String>) -> Option<Seq<char>> {
    match o {
        Some(s) => Some(s@),
        None => None,
    }
}

/// Formatting options of the document.
#[derive(Clone, Debug)]
pub struct PdfFormat {
    pub font: Option<String>,
}

/// The mathematical value of a `PdfFormat`.
pub struct FormatView {
    pub font: Option<Seq<char>>,
}

impl View for PdfFormat {
    type V = FormatView;

    open spec fn view(&self) -> FormatView {
        FormatView { font: opt_text(self.font) }
    }
}

impl Default for PdfFormat {
    /// The built-in formatting options: the default font.
    fn default() -> (r: Self)
        ensures
            r@.font == Some(default_font()),
    {
        PdfFormat { font: Some(String::from_str(DEFAULT_FONT)) }
    }
}

/// The configuration as the user gave it: every field may be absent, and an
/// absent field falls back to its default.
#[derive(Clone, Debug, Default)]
pub struct PdfBuilder {
    pub name: Option<String>,
    pub engine: Option<String>,
    pub format: Option<PdfFormat>,
}

/// The mathematical value of a `PdfBuilder`.
pub struct RawView {
    pub name: Option<Seq<char>>,
    pub engine: Option<Seq<char>>,
    pub format: Option<FormatView>,
}

impl View for PdfBuilder {
    type V = RawView;

    open spec fn view(&self) -> RawView {
        RawView {
            name: opt_text(self.name),
            engine: opt_text(self.engine),
            format: match self.format {
                Some(f) => Some(f@),
                None => None,
            },
        }
    }
}

/// Why a configuration cannot be resolved.
#[derive(Clone, Copy, Debug, PartialEq, Eq, Structural)]
pub enum ConfigError {
    /// No output name was given and the book has no title to derive one from.
    MissingTitle,
}

/// The configuration with every field resolved.
#[derive(Clone, Debug)]
pub struct ResolvedConfig {
    pub output_name: String,
    pub engine: EngineKind,
    pub font: String,
}

/// The mathematical value of a `ResolvedConfig`.
pub struct ResolvedView {
    pub output_name: Seq<char>,
    pub engine: EngineKind,
    pub font: Seq<char>,
}

impl View for ResolvedConfig {
    type V = ResolvedView;

    open spec fn view(&self) -> ResolvedView {
        ResolvedView { output_name: self.output_name@, engine: self.engine, font: self.font@ }
    }
}

/// A configuration is well formed when the engine it names, if any, is one
/// that this library knows.
pub open spec fn well_formed(raw: RawView) -> bool {
    raw.engine is None || is_engine_name(raw.engine.unwrap())
}

/// The configuration that takes part in resolution: a malformed one counts
/// as absent.
pub open spec fn effective(raw: Option<RawView>) -> Option<RawView> {
    match raw {
        Some(r) => if well_formed(r) {
            Some(r)
        } else {
            None
        },
        None => None,
    }
}

/// The font that a configuration gives, if any.
pub open spec fn given_font(raw: Option<RawView>) -> Option<Seq<char>> {
    match raw {
        Some(r) => match r.format {
            Some(f) => f.font,
            None => None,
        },
        None => None,
    }
}

/// The name the output file is derived from: the configured name, else the
/// book's title.
pub open spec fn base_name(raw: Option<RawView>, title: Option<Seq<char>>) -> Option<Seq<char>> {
    match raw {
        Some(r) => if r.name is Some {
            r.name
        } else {
            title
        },
        None => title,
    }
}

/// The configured engine, else the default engine.
pub open spec fn chosen_engine(raw: Option<RawView>) -> EngineKind {
    match raw {
        Some(r) => if r.engine is Some {
            engine_named(r.engine.unwrap()).unwrap()
        } else {
            DEFAULT_ENGINE
        },
        None => DEFAULT_ENGINE,
    }
}

/// The configured font, else the default font.
pub open spec fn chosen_font(raw: Option<RawView>) -> Seq<char> {
    if given_font(raw) is Some {
        given_font(raw).unwrap()
    } else {
        default_font()
    }
}

/// What resolving `raw` against the defaults and the book's `title` gives.
pub open spec fn resolve_spec(raw: Option<RawView>, title: Option<Seq<char>>) -> Result<
    ResolvedView,
    ConfigError,
> {
    let c = effective(raw);
    match base_name(c, title) {
        Some(n) => Ok(
            ResolvedView {
                output_name: pdf_file_name(n),
                engine: chosen_engine(c),
                font: chosen_font(c),
            },
        ),
        None => Err(ConfigError::MissingTitle),
    }
}

/// The characters of an optional string slice.
pub open spec fn opt_str(o: Option<&str>) -> Option<Seq<char>> {
    match o {
        Some(s) => Some(s@),
        None => None,
    }
}

/// The value of an optional configuration.
pub open spec fn opt_raw(o: Option<&PdfBuilder>) -> Option<RawView> {
    match o {
        Some(b) => Some(b@),
        None => None,
    }
}

/// The value of a resolution's outcome.
pub open spec fn result_view(r: Result<ResolvedConfig, ConfigError>) -> Result<
    ResolvedView,
    ConfigError,
> {
    match r {
        Ok(c) => Ok(c@),
        Err(e) => Err(e),
    }
}

impl PdfBuilder {
    /// A configuration with every field absent.
    pub fn new() -> (r: Self)
        ensures
            r@ == (RawView { name: None, engine: None, format: None }),
    {
        PdfBuilder { name: None, engine: None, format: None }
    }

    /// Lays `input` over this configuration: each field that `input` gives
    /// replaces this one's, and the others are kept.
    pub fn with_input_context(&mut self, input: Option<PdfBuilder>)
        ensures
            match input {
                Some(i) => final(self)@ == (RawView {
                    name: if i@.name is Some {
                        i@.name
                    } else {
                        old(self)@.name
                    },
                    engine: if i@.engine is Some {
                        i@.engine
                    } else {
                        old(self)@.engine
                    },
                    format: if i@.format is Some {
                        i@.format
                    } else {
                        old(self)@.format
                    },
                }),
                None => final(self)@ == old(self)@,
            },
    {
        if let Some(i) = input {
            let PdfBuilder { name, engine, format } = i;
            if name.is_some() {
                self.name = name;
            }
            if engine.is_some() {
                self.engine = engine;
            }
            if format.is_some() {
                self.format = format;
            }
        }
    }

    /// Whether the engine this configuration names, if any, is a known one.
    pub fn is_well_formed(&self) -> (r: bool)
        ensures
            r == well_formed(self@),
    {
        match &self.engine {
            Some(e) => EngineKind::from_name(e.as_str()).is_some(),
            None => true,
        }
    }

    /// Resolves this configuration against the defaults and the book's
    /// `title`. A malformed configuration resolves as if it were absent.
    pub fn resolve(&self, title: Option<&str>) -> (r: Result<ResolvedConfig, ConfigError>)
        ensures
            result_view(r) == resolve_spec(Some(self@), opt_str(title)),
    {
        if self.is_well_formed() {
            resolve_given(Some(self), title)
        } else {
            resolve_given(None, title)
        }
    }
}

/// Resolves `raw` against the defaults and the book's `title`; an absent
/// configuration, or a malformed one, resolves to the defaults.
pub fn resolve(raw: Option<&PdfBuilder>, title: Option<&str>) -> (r: Result<
    ResolvedConfig,
    ConfigError,
>)
    ensures
        result_view(r) == resolve_spec(opt_raw(raw), opt_str(title)),
{
    match raw {
        Some(b) => b.resolve(title),
        None => resolve_given(None, title),
    }
}

/// Resolves a configuration already known to be well formed.
fn resolve_given(given: Option<&PdfBuilder>, title: Option<&str>) -> (r: Result<
    ResolvedConfig,
    ConfigError,
>)
    requires
        given is Some ==> well_formed(given.unwrap()@),
    ensures
        result_view(r) == resolve_spec(opt_raw(given), opt_str(title)),
{
    let base: Option<&str> = match given {
        Some(g) => match &g.name {
            Some(n) => Some(n.as_str()),
            None => title,
        },
        None => title,
    };
    let output_name = match base {
        Some(b) => pdf_name(b),
        None => {
            return Err(ConfigError::MissingTitle);
        },
    };
    let engine = match given {
        Some(g) => match &g.engine {
            Some(e) => match EngineKind::from_name(e.as_str()) {
                Some(k) => k,
                None => DEFAULT_ENGINE,
            },
            None => DEFAULT_ENGINE,
        },
        None => DEFAULT_ENGINE,
    };
    let font = match given {
        Some(g) => match &g.format {
            Some(f) => match &f.font {
                Some(s) => s.clone(),
                None => String::from_str(DEFAULT_FONT),
            },
            None => String::from_str(DEFAULT_FONT),
        },
        None => String::from_str(DEFAULT_FONT),
    };
    Ok(ResolvedConfig { output_name, engine, font })
}

/// `d` is the dot that starts the extension of the last path component of `s`:
/// the last dot of that component, and not its first character.
pub open spec fn is_extension_dot(s: Seq<char>, d: int) -> bool {
    &&& 0 < d < s.len()
    &&& s[d] == '.'
    &&& s[d - 1] != '/'
    &&& forall|j: int| d < j < s.len() ==> s[j] != '.' && s[j] != '/'
}

/// `s` without the extension of its last path component.
pub open spec fn file_stem(s: Seq<char>) -> Seq<char> {
    if exists|d: int| is_extension_dot(s, d) {
        s.subrange(0, choose|d: int| is_extension_dot(s, d))
    } else {
        s
    }
}

/// `s` without the path separators at its end.
pub open spec fn trim_slashes(s: Seq<char>) -> Seq<char>
    decreases s.len(),
{
    if s.len() > 0 && s.last() == '/' {
        trim_slashes(s.drop_last())
    } else {
        s
    }
}

/// `s` with the extension of its last path component set to `pdf`; separators
/// at the end of `s` do not count as a component.
pub open spec fn pdf_file_name(s: Seq<char>) -> Seq<char> {
    file_stem(trim_slashes(s)) + ".pdf"@
}

/// Trimming leaves no separator at the end.
proof fn lemma_trim_slashes_last(s: Seq<char>)
    ensures
        trim_slashes(s).len() > 0 ==> trim_slashes(s).last() != '/',
    decreases s.len(),
{
    if s.len() > 0 && s.last() == '/' {
        lemma_trim_slashes_last(s.drop_last());
    }
}

/// A string has at most one extension dot.
proof fn lemma_extension_dot_unique(s: Seq<char>, d1: int, d2: int)
    requires
        is_extension_dot(s, d1),
        is_extension_dot(s, d2),
    ensures
        d1 == d2,
{
    if d1 < d2 {
        assert(s[d2] != '.');
    } else if d2 < d1 {
        assert(s[d1] != '.');
    }
}

/// The name of the output file for the base name `name`: its extension, if
/// it has one, replaced by `.pdf`, else `.pdf` appended.
fn pdf_name(name: &str) -> (r: String)
    ensures
        r@ == pdf_file_name(name@),
{
    let mut end: usize = name.unicode_len();
    assert(name@.subrange(0, end as int) == name@);
    while end > 0 && name.get_char(end - 1) == '/'
        invariant
            end <= name@.len(),
            trim_slashes(name@) == trim_slashes(name@.subrange(0, end as int)),
        decreases end,
    {
        assert(name@.subrange(0, end as int).drop_last() == name@.subrange(0, end - 1));
        end = end - 1;
    }
    assert(trim_slashes(name@.subrange(0, end as int)) == name@.subrange(0, end as int));
    with_pdf_extension(name.substring_char(0, end))
}

/// `name` with the extension of its last path component replaced by `.pdf`,
/// or `.pdf` appended where it has none.
fn with_pdf_extension(name: &str) -> (r: String)
    ensures
        r@ == file_stem(name@) + ".pdf"@,
{
    let n = name.unicode_len();
    let mut i: usize = n;
    let mut dot: Option<usize> = None;
    while i > 0
        invariant
            n == name@.len(),
            i <= n,
            forall|j: int| i <= j < n ==> name@[j] != '.' && name@[j] != '/',
            dot is Some ==> is_extension_dot(name@, dot.unwrap() as int),
            dot is None ==> forall|d: int| #[trigger] is_extension_dot(name@, d) ==> d < i,
        ensures
            dot is Some ==> is_extension_dot(name@, dot.unwrap() as int),
            dot is None ==> forall|d: int| !is_extension_dot(name@, d),
        decreases i,
    {
        let c = name.get_char(i - 1);
        if c == '/' {
            proof {
                assert forall|d: int| !is_extension_dot(name@, d) by {
                    if is_extension_dot(name@, d) && d < i - 1 {
                        assert(name@[i - 1] != '/');
                    }
                }
            }
            break;
        }
        if c == '.' {
            if i - 1 > 0 && name.get_char(i - 2) != '/' {
                dot = Some(i - 1);
            }
            proof {
                assert forall|d: int| #[trigger] is_extension_dot(name@, d) implies dot == Some(
                    d as usize,
                ) by {
                    if d < i - 1 {
                        assert(name@[i - 1] != '.');
                    }
                }
            }
            break;
        }
        i = i - 1;
    }
    let stem = match dot {
        Some(d) => name.substring_char(0, d),
        None => name,
    };
    proof {
        match dot {
            Some(d) => {
                assert(exists|e: int| is_extension_dot(name@, e));
                let e = choose|e: int| is_extension_dot(name@, e);
                lemma_extension_dot_unique(name@, d as int, e);
            },
            None => {
                assert(!exists|e: int| is_extension_dot(name@, e));
            },
        }
    }
    let mut r = String::from_str(stem);
    r.append(".pdf");
    r
}

/// When a well-formed configuration gives every field, each resolved field is
/// the one it gives: the defaults and the book's title play no part.
pub proof fn lemma_given_fields_override_defaults(raw: RawView, title: Option<Seq<char>>)
    requires
        well_formed(raw),
        raw.name is Some,
        raw.engine is Some,
        raw.format is Some,
        raw.format.unwrap().font is Some,
    ensures
        resolve_spec(Some(raw), title) == Ok::<ResolvedView, ConfigError>(
            ResolvedView {
                output_name: pdf_file_name(raw.name.unwrap()),
                engine: engine_named(raw.engine.unwrap()).unwrap(),
                font: raw.format.unwrap().font.unwrap(),
            },
        ),
{
}

/// Resolution goes field by field: in a well-formed configuration each field
/// that is given is taken, and each that is absent gets exactly its default
/// (the output name is then derived from the title). It fails only when
/// neither an output name nor a title is there.
pub proof fn lemma_absent_fields_take_defaults(raw: RawView, title: Option<Seq<char>>)
    requires
        well_formed(raw),
    ensures
        resolve_spec(Some(raw), title) is Err <==> raw.name is None && title is None,
        match resolve_spec(Some(raw), title) {
            Ok(v) => {
                &&& raw.name is Some ==> v.output_name == pdf_file_name(raw.name.unwrap())
                &&& raw.name is None ==> v.output_name == pdf_file_name(title.unwrap())
                &&& raw.engine is Some ==> v.engine == engine_named(raw.engine.unwrap()).unwrap()
                &&& raw.engine is None ==> v.engine == DEFAULT_ENGINE
                &&& given_font(Some(raw)) is Some ==> v.font == given_font(Some(raw)).unwrap()
                &&& given_font(Some(raw)) is None ==> v.font == default_font()
            },
            Err(e) => e == ConfigError::MissingTitle,
        },
{
}

/// A malformed configuration resolves exactly as an absent one does.
pub proof fn lemma_malformed_resolves_as_absent(raw: RawView, title: Option<Seq<char>>)
    requires
        !well_formed(raw),
    ensures
        resolve_spec(Some(raw), title) == resolve_spec(None, title),
{
}

/// Setting the extension twice is setting it once, for a name whose stem is
/// not empty.
pub proof fn lemma_pdf_file_name_idempotent(s: Seq<char>)
    requires
        file_stem(trim_slashes(s)).len() > 0,
    ensures
        pdf_file_name(pdf_file_name(s)) == pdf_file_name(s),
{
    reveal_strlit(".pdf");
    let st = file_stem(trim_slashes(s));
    lemma_trim_slashes_last(s);
    if exists|d: int| is_extension_dot(trim_slashes(s), d) {
        let d = choose|d: int| is_extension_dot(trim_slashes(s), d);
        assert(st.last() == trim_slashes(s)[d - 1]);
    }
    let t = pdf_file_name(s);
    assert(trim_slashes(t) == t);
    let d = st.len() as int;
    assert(t[d - 1] == st[d - 1]);
    assert(is_extension_dot(t, d));
    let e = choose|e: int| is_extension_dot(t, e);
    lemma_extension_dot_unique(t, d, e);
    assert(t.subrange(0, d) == st);
}

/// Resolution is idempotent: a resolved configuration, given back with every
/// field present, resolves to itself, provided the stem of its output name is
/// not empty.
pub proof fn lemma_resolve_idempotent(raw: Option<RawView>, title: Option<Seq<char>>)
    requires
        resolve_spec(raw, title) is Ok,
        file_stem(trim_slashes(base_name(effective(raw), title).unwrap())).len() > 0,
    ensures
        ({
            let v = resolve_spec(raw, title)->Ok_0;
            let again = RawView {
                name: Some(v.output_name),
                engine: Some(v.engine.spec_name()),
                format: Some(FormatView { font: Some(v.font) }),
            };
            resolve_spec(Some(again), title) == Ok::<ResolvedView, ConfigError>(v)
        }),
{
    let v = resolve_spec(raw, title)->Ok_0;
    lemma_pdf_file_name_idempotent(base_name(effective(raw), title).unwrap());
    lemma_engine_named_name(v.engine);
}

} // verus!
