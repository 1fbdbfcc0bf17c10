//! The PDF engines pandoc can drive, and the template variable each of them
//! reads the main font from.
use vstd::prelude::*;

verus! {

/// A PDF engine that pandoc can hand its output to.
#[derive(Clone, Copy, Debug, PartialEq, Eq, Structural)]
pub enum EngineKind {
    Pdflatex,
    Xelatex,
    Lualatex,
    Tectonic,
    Wkhtmltopdf,
    Weasyprint,
    Prince,
}

/// The engine used when the configuration names none.
pub const DEFAULT_ENGINE: EngineKind = EngineKind::Xelatex;

impl EngineKind {
    /// The identifier of the engine, as written in a configuration and passed
    /// to pandoc's `--pdf-engine`.
    pub open spec fn spec_name(self) -> Seq<char> {
        match self {
            EngineKind::Pdflatex => "pdflatex"@,
            EngineKind::Xelatex => "xelatex"@,
            EngineKind::Lualatex => "lualatex"@,
            EngineKind::Tectonic => "tectonic"@,
            EngineKind::Wkhtmltopdf => "wkhtmltopdf"@,
            EngineKind::Weasyprint => "weasyprint"@,
            EngineKind::Prince => "prince"@,
        }
    }

    /// The identifier of the engine.
    pub fn name(&self) -> (r: &'static str)
        ensures
            r@ == self.spec_name(),
    {
        match self {
            EngineKind::Pdflatex => "pdflatex",
            EngineKind::Xelatex => "xelatex",
            EngineKind::Lualatex => "lualatex",
            EngineKind::Tectonic => "tectonic",
            EngineKind::Wkhtmltopdf => "wkhtmltopdf",
            EngineKind::Weasyprint => "weasyprint",
            EngineKind::Prince => "prince",
        }
    }

    /// The engine whose identifier is `s`, if there is one.
    pub fn from_name(s: &str) -> (r: Option<EngineKind>)
        ensures
            r == engine_named(s@),
    {
        let r = if text_eq(s, "pdflatex") {
            Some(EngineKind::Pdflatex)
        } else if text_eq(s, "xelatex") {
            Some(EngineKind::Xelatex)
        } else if text_eq(s, "lualatex") {
            Some(EngineKind::Lualatex)
        } else if text_eq(s, "tectonic") {
            Some(EngineKind::Tectonic)
        } else if text_eq(s, "wkhtmltopdf") {
            Some(EngineKind::Wkhtmltopdf)
        } else if text_eq(s, "weasyprint") {
            Some(EngineKind::Weasyprint)
        } else if text_eq(s, "prince") {
            Some(EngineKind::Prince)
        } else {
            None
        };
        proof {
            match r {
                Some(e) => lemma_engine_named_name(e),
                None => {
                    assert forall|e: EngineKind| e.spec_name() != s@ by {
                        match e {
                            EngineKind::Pdflatex => {},
                            EngineKind::Xelatex => {},
                            EngineKind::Lualatex => {},
                            EngineKind::Tectonic => {},
                            EngineKind::Wkhtmltopdf => {},
                            EngineKind::Weasyprint => {},
                            EngineKind::Prince => {},
                        }
                    }
                },
            }
        }
        r
    }
}

/// Whether `s` is the identifier of some engine.
pub open spec fn is_engine_name(s: Seq<char>) -> bool {
    exists|e: EngineKind| e.spec_name() == s
}

/// The engine identified by `s`; `None` when no engine has that identifier.
pub open spec fn engine_named(s: Seq<char>) -> Option<EngineKind> {
    if is_engine_name(s) {
        Some(choose|e: EngineKind| e.spec_name() == s)
    } else {
        None
    }
}

/// No two engines share an identifier.
pub proof fn lemma_names_distinct()
    ensures
        forall|a: EngineKind, b: EngineKind| a.spec_name() == b.spec_name() ==> a == b,
{
    reveal_strlit("pdflatex");
    reveal_strlit("xelatex");
    reveal_strlit("lualatex");
    reveal_strlit("tectonic");
    reveal_strlit("wkhtmltopdf");
    reveal_strlit("weasyprint");
    reveal_strlit("prince");
    assert forall|a: EngineKind, b: EngineKind| a.spec_name() == b.spec_name() implies a == b by {
        if a != b {
            assert(a.spec_name() != b.spec_name()) by {
                if a.spec_name().len() == b.spec_name().len() {
                    assert(a.spec_name()[0] != b.spec_name()[0] || a.spec_name()[1] != b.spec_name()[1]);
                }
            }
        }
    }
}

/// Naming an engine by its identifier gives that engine back.
pub proof fn lemma_engine_named_name(e: EngineKind)
    ensures
        engine_named(e.spec_name()) == Some(e),
{
    lemma_names_distinct();
}

/// Whether two strings hold the same characters.
fn text_eq(a: &str, b: &str) -> (r: bool)
    ensures
        r == (a@ == b@),
{
    let n = a.unicode_len();
    if n != b.unicode_len() {
        return false;
    }
    let mut i: usize = 0;
    while i < n
        invariant
            n == a@.len(),
            n == b@.len(),
            i <= n,
            a@.subrange(0, i as int) == b@.subrange(0, i as int),
        decreases n - i,
    {
        if a.get_char(i) != b.get_char(i) {
            assert(a@[i as int] != b@[i as int]);
            return false;
        }
        assert(a@.subrange(0, i + 1) == a@.subrange(0, i as int).push(a@[i as int]));
        assert(b@.subrange(0, i + 1) == b@.subrange(0, i as int).push(b@[i as int]));
        i = i + 1;
    }
    assert(a@ == a@.subrange(0, n as int));
    assert(b@ == b@.subrange(0, n as int));
    true
}

/// The template variable that carries the main font for `engine`: pdflatex
/// reads `fontfamily`, the Unicode-aware LaTeX engines read `mainfont`, and the
/// HTML-based engines have no such variable.
pub open spec fn spec_font_variable(engine: EngineKind) -> Option<Seq<char>> {
    match engine {
        EngineKind::Pdflatex => Some("fontfamily"@),
        EngineKind::Xelatex | EngineKind::Lualatex | EngineKind::Tectonic => Some("mainfont"@),
        EngineKind::Wkhtmltopdf | EngineKind::Weasyprint | EngineKind::Prince => None,
    }
}

/// The name of the template variable that selects the main font under
/// `engine`, or `None` where the engine offers no such variable.
pub fn variable_name_for_font(engine: EngineKind) -> (r: Option<&'static str>)
    ensures
        r.is_some() == spec_font_variable(engine).is_some(),
        r.is_some() ==> r.unwrap()@ == spec_font_variable(engine).unwrap(),
{
    match engine {
        EngineKind::Pdflatex => Some("fontfamily"),
        EngineKind::Xelatex | EngineKind::Lualatex | EngineKind::Tectonic => Some("mainfont"),
        EngineKind::Wkhtmltopdf | EngineKind::Weasyprint | EngineKind::Prince => None,
    }
}

} // verus!
