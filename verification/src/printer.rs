//! What the options set on the printer.

use vstd::prelude::*;
use vstd::string::*;
use crate::error::{outcome, parse_failure, Failure, KunaError};
use crate::text::{join3, same_text};

verus! {

/// Where the brace that opens a block goes.
#[derive(Debug, Clone, Copy, PartialEq, Eq, Structural)]
pub enum BraceStyle {
    /// On the same line.
    SameLine,
    /// On the next line.
    NextLine,
    /// Two lines down.
    SkipLine,
}

/// What kind of block a brace style is for.
#[derive(Debug, Clone, Copy, PartialEq, Eq, Structural)]
pub enum BraceCategory {
    /// The body of a function.
    Function,
    /// The blocks of `if` and `else`.
    IfElse,
    /// The bodies of loops.
    Loop,
    /// The body of a `switch`.
    Switch,
}

/// How much of a symbol's namespace is printed.
#[derive(Debug, Clone, Copy, PartialEq, Eq, Structural)]
pub enum NamespaceStrategy {
    /// Just enough to tell the symbol.
    Minimal,
    /// Nothing.
    Never,
    /// All of it.
    All,
}

/// A language that can be printed.
#[derive(Debug)]
pub struct Language {
    /// The name that an option may use for it.
    pub name: String,
    /// The name that the printer goes by.
    pub print_name: String,
    /// It is C.
    pub is_c: bool,
    /// It has a C-style `for` header.
    pub c_for: bool,
    /// Small integers are promoted in arithmetic.
    pub integer_promotion: bool,
}

/// The first language, from `i` on, that an option may call by this name.
pub open spec fn language_from(languages: Seq<Language>, name: Seq<char>, i: int) -> Option<int>
    decreases languages.len() - i,
{
    if i < 0 || i >= languages.len() {
        None
    } else if languages[i].name@ == name {
        Some(i)
    } else {
        language_from(languages, name, i + 1)
    }
}

/// The settings of the printer that a new program starts from, besides the language.
#[derive(Debug, Clone, Copy, PartialEq, Eq, Structural)]
pub struct PrintSettings {
    pub comment_indent: i32,
    pub header_comment: u32,
    pub instruction_comment: u32,
    pub namespaces: NamespaceStrategy,
    pub null_printing: bool,
    pub inplace_ops: bool,
    pub convention_printing: bool,
    pub no_cast_printing: bool,
    pub hide_implied_exts: bool,
    pub brace_function: BraceStyle,
    pub brace_ifelse: BraceStyle,
    pub brace_loop: BraceStyle,
    pub brace_switch: BraceStyle,
    pub indent_increment: i32,
}

/// The printer, as far as options set it.
pub struct Printer {
    /// The name of the language that is printed.
    pub name: String,
    /// The integer format asked for.
    pub integer_format: String,
    /// The rest of what a new program starts from.
    pub settings: PrintSettings,
    /// The line width asked for.
    pub max_line_size: Option<i32>,
    /// The comment style asked for.
    pub comment_style: Option<String>,
    /// The languages that can be printed.
    pub languages: Vec<Language>,
    /// The language of a new program.
    pub initial_name: String,
    /// The integer format of a new program.
    pub initial_format: String,
    /// The settings of a new program.
    pub initial: PrintSettings,
}

/// What contracts say of a [`Printer`].
#[verifier::ext_equal]
pub struct PrintState {
    pub name: Seq<char>,
    pub integer_format: Seq<char>,
    pub settings: PrintSettings,
    pub max_line_size: Option<i32>,
    pub comment_style: Option<Seq<char>>,
    pub languages: Seq<Language>,
    pub initial_name: Seq<char>,
    pub initial_format: Seq<char>,
    pub initial: PrintSettings,
}

/// The text of an optional string.
pub open spec fn optional_text(s: Option<String>) -> Option<Seq<char>> {
    match s {
        Some(t) => Some(t@),
        None => None,
    }
}

impl View for Printer {
    type V = PrintState;

    open spec fn view(&self) -> PrintState {
        PrintState {
            name: self.name@,
            integer_format: self.integer_format@,
            settings: self.settings,
            max_line_size: self.max_line_size,
            comment_style: optional_text(self.comment_style),
            languages: self.languages@,
            initial_name: self.initial_name@,
            initial_format: self.initial_format@,
            initial: self.initial,
        }
    }
}

/// The language that is printed, where it is one that can be.
pub open spec fn printed_language(p: PrintState) -> Option<Language> {
    match language_from(p.languages, p.name, 0) {
        Some(i) => Some(p.languages[i]),
        None => None,
    }
}

/// The settings with one brace style changed.
pub open spec fn with_brace(
    s: PrintSettings,
    category: BraceCategory,
    style: BraceStyle,
) -> PrintSettings {
    match category {
        BraceCategory::Function => PrintSettings { brace_function: style, ..s },
        BraceCategory::IfElse => PrintSettings { brace_ifelse: style, ..s },
        BraceCategory::Loop => PrintSettings { brace_loop: style, ..s },
        BraceCategory::Switch => PrintSettings { brace_switch: style, ..s },
    }
}

/// The printer as a new program finds it. The line width and the comment style are
/// only noted down and stay.
pub open spec fn reset_printer(p: PrintState) -> PrintState {
    PrintState {
        name: p.initial_name,
        integer_format: p.initial_format,
        settings: p.initial,
        ..p
    }
}

impl Printer {
    /// The language that an option calls by this name.
    pub fn find_language(&self, name: &str) -> (r: Option<&Language>)
        ensures
            match r {
                Some(l) => language_from(self@.languages, name@, 0) is Some
                    && self@.languages[language_from(self@.languages, name@, 0)->0] == *l,
                None => language_from(self@.languages, name@, 0) is None,
            },
    {
        let mut i: usize = 0;
        while i < self.languages.len()
            invariant
                i <= self.languages@.len(),
                language_from(self@.languages, name@, 0) == language_from(
                    self@.languages,
                    name@,
                    i as int,
                ),
            decreases self.languages@.len() - i,
        {
            if same_text(self.languages[i].name.as_str(), name) {
                return Some(&self.languages[i]);
            }
            i += 1;
        }
        None
    }

    /// Set where the opening brace of one kind of block goes.
    pub fn set_brace_format(&mut self, category: BraceCategory, style: BraceStyle)
        ensures
            final(self)@ == (PrintState {
                settings: with_brace(old(self)@.settings, category, style),
                ..old(self)@
            }),
    {
        match category {
            BraceCategory::Function => {
                self.settings.brace_function = style;
            },
            BraceCategory::IfElse => {
                self.settings.brace_ifelse = style;
            },
            BraceCategory::Loop => {
                self.settings.brace_loop = style;
            },
            BraceCategory::Switch => {
                self.settings.brace_switch = style;
            },
        }
    }

    /// Put the printer back to what a new program finds.
    pub fn reset(&mut self)
        ensures
            final(self)@ == reset_printer(old(self)@),
    {
        self.name = self.initial_name.clone();
        self.integer_format = self.initial_format.clone();
        self.settings = self.initial;
    }
}

/// The text of a value as a programmer would write it down, with quotes.
pub uninterp spec fn quoted_text(s: Seq<char>) -> Seq<char>;

/// Formats a string slice with its `Debug` form. Claimed of it: the text depends on the
/// characters of the string alone. How single characters are escaped is not stated.
#[verifier::external_body]
fn quoted(s: &str) -> (r: String)
    ensures
        r@ == quoted_text(s@),
{
    format!("{:?}", s)
}

/// The names of the first `n` languages, with `, ` between them.
pub open spec fn language_names(languages: Seq<Language>, n: int) -> Seq<char>
    decreases n,
{
    if n <= 0 {
        seq![]
    } else if n == 1 {
        languages[0].name@
    } else {
        language_names(languages, n - 1) + ", "@ + languages[n - 1].name@
    }
}

fn join_language_names(languages: &Vec<Language>) -> (r: String)
    ensures
        r@ == language_names(languages@, languages@.len() as int),
{
    let mut r = String::new();
    let mut i: usize = 0;
    assert(r@ =~= language_names(languages@, 0));
    while i < languages.len()
        invariant
            i <= languages@.len(),
            r@ == language_names(languages@, i as int),
        decreases languages@.len() - i,
    {
        if i > 0 {
            r.append(", ");
        }
        r.append(languages[i].name.as_str());
        assert(i == 0 ==> r@ =~= languages@[0].name@);
        i += 1;
    }
    r
}

/// What choosing a language comes to; one that cannot be printed is refused.
pub open spec fn language_effect(p: PrintState, name: Seq<char>) -> (
    PrintState,
    Result<(), Failure>,
) {
    match language_from(p.languages, name, 0) {
        Some(i) => (PrintState { name: p.languages[i].print_name@, ..p }, Ok(())),
        None => (
            p,
            Err(
                parse_failure(
                    "unknown output language "@ + quoted_text(name) + " (expected one of: "@
                        + language_names(p.languages, p.languages.len() as int) + ")"@,
                ),
            ),
        ),
    }
}

impl Printer {
    /// Choose the language that is printed; one that cannot be printed is refused.
    pub fn choose_language(&mut self, name: &str) -> (r: Result<(), KunaError>)
        ensures
            (final(self)@, outcome(r)) == language_effect(old(self)@, name@),
    {
        let chosen = match self.find_language(name) {
            Some(l) => l.print_name.clone(),
            None => {
                let shown = quoted(name);
                let mut msg = join3(
                    "unknown output language ",
                    shown.as_str(),
                    " (expected one of: ",
                );
                let names = join_language_names(&self.languages);
                msg.append(names.as_str());
                msg.append(")");
                return Err(KunaError::parse(msg));
            },
        };
        self.name = chosen;
        Ok(())
    }
}

} // verus!
