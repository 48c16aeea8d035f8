//! Extraction of the `add_argument(...)` calls of a Python argparse script.

use vstd::prelude::*;
use crate::text::{
    chars_of, contains_seq, find_from, first_occurrence, lemma_first_occurrence, lowercase_text,
    lowercased, owned_text, same_text, slice_text, text_contains, trim_leading, trim_start_text,
    trim_text, trimmed,
};

verus! {

/// A parameter as it is declared in a script: its name (without the leading
/// dashes), its default value, its type (`String`, `Integer`, `Float`, `Boolean`
/// or `Path`), its help text, and whether it is a switch that takes no value.
#[derive(Debug, Clone)]
pub struct Param {
    pub name: String,
    pub value: String,
    pub param_type: String,
    pub description: String,
    pub is_flag: bool,
}

/// The mathematical content of a [`Param`].
pub struct ParamModel {
    pub name: Seq<char>,
    pub value: Seq<char>,
    pub param_type: Seq<char>,
    pub description: Seq<char>,
    pub is_flag: bool,
}

impl View for Param {
    type V = ParamModel;

    open spec fn view(&self) -> ParamModel {
        ParamModel {
            name: self.name@,
            value: self.value@,
            param_type: self.param_type@,
            description: self.description@,
            is_flag: self.is_flag,
        }
    }
}

/// The text that opens an argument declaration: `add_argument(`.
pub open spec fn call_opening() -> Seq<char> {
    seq!['a', 'd', 'd', '_', 'a', 'r', 'g', 'u', 'm', 'e', 'n', 't', '(']
}

/// Scanning `s` from index `i`, the index of the `)` that closes the call, where
/// `depth` parentheses are open, `in_string` tells whether the scan is inside a
/// string literal opened by `quote`, and `escape` whether the previous character
/// was a backslash (which makes the next character plain).
pub open spec fn closing_paren(
    s: Seq<char>,
    i: int,
    depth: int,
    in_string: bool,
    escape: bool,
    quote: char,
) -> Option<int>
    decreases s.len() - i,
{
    if i < 0 || i >= s.len() {
        None
    } else {
        let c = s[i];
        if escape {
            closing_paren(s, i + 1, depth, in_string, false, quote)
        } else if c == '\\' {
            closing_paren(s, i + 1, depth, in_string, true, quote)
        } else if in_string {
            closing_paren(s, i + 1, depth, c != quote, false, quote)
        } else if c == '"' || c == '\'' {
            closing_paren(s, i + 1, depth, true, false, c)
        } else if c == '(' {
            closing_paren(s, i + 1, depth + 1, false, false, quote)
        } else if c == ')' {
            if depth == 1 {
                Some(i)
            } else {
                closing_paren(s, i + 1, depth - 1, false, false, quote)
            }
        } else {
            closing_paren(s, i + 1, depth, false, false, quote)
        }
    }
}

/// The end of the argument list that starts at index `a`: the index of its
/// closing parenthesis, or `a` itself when the list is never closed.
pub open spec fn argument_list_end(s: Seq<char>, a: int) -> int {
    match closing_paren(s, a, 1, false, false, ' ') {
        Some(e) => e,
        None => a,
    }
}

/// A closing parenthesis found from `i` lies at or after `i` and inside `s`.
pub proof fn lemma_closing_paren_bounds(
    s: Seq<char>,
    i: int,
    depth: int,
    in_string: bool,
    escape: bool,
    quote: char,
)
    ensures
        closing_paren(s, i, depth, in_string, escape, quote) matches Some(e) ==> i <= e < s.len()
            && s[e] == ')',
    decreases s.len() - i,
{
    if i < 0 || i >= s.len() {
    } else {
        let c = s[i];
        if escape {
            lemma_closing_paren_bounds(s, i + 1, depth, in_string, false, quote);
        } else if c == '\\' {
            lemma_closing_paren_bounds(s, i + 1, depth, in_string, true, quote);
        } else if in_string {
            lemma_closing_paren_bounds(s, i + 1, depth, c != quote, false, quote);
        } else if c == '"' || c == '\'' {
            lemma_closing_paren_bounds(s, i + 1, depth, true, false, c);
        } else if c == '(' {
            lemma_closing_paren_bounds(s, i + 1, depth + 1, false, false, quote);
        } else if c == ')' {
            if depth != 1 {
                lemma_closing_paren_bounds(s, i + 1, depth - 1, false, false, quote);
            }
        } else {
            lemma_closing_paren_bounds(s, i + 1, depth, false, false, quote);
        }
    }
}

/// The argument lists of the calls that open at or after `start`, in order: each
/// one starts right after an `add_argument(` and ends before its closing
/// parenthesis (it is empty when the call is never closed), and the search for
/// the next call resumes at that end.
pub open spec fn argument_blocks_from(s: Seq<char>, start: int) -> Seq<Seq<char>>
    decreases s.len() - start,
{
    if start < 0 {
        seq![]
    } else {
        match first_occurrence(s, call_opening(), start) {
            None => seq![],
            Some(idx) => {
                let a = idx + call_opening().len();
                let e = argument_list_end(s, a);
                proof {
                    lemma_first_occurrence(s, call_opening(), start);
                    lemma_closing_paren_bounds(s, a, 1, false, false, ' ');
                }
                seq![s.subrange(a, e)] + argument_blocks_from(s, e)
            }
        }
    }
}

/// The positions `(a, e)` of the argument lists that `argument_blocks_from`
/// takes, in order: each list is `s[a..e]`.
pub open spec fn argument_spans_from(s: Seq<char>, start: int) -> Seq<(int, int)>
    decreases s.len() - start,
{
    if start < 0 {
        seq![]
    } else {
        match first_occurrence(s, call_opening(), start) {
            None => seq![],
            Some(idx) => {
                let a = idx + call_opening().len();
                let e = argument_list_end(s, a);
                proof {
                    lemma_first_occurrence(s, call_opening(), start);
                    lemma_closing_paren_bounds(s, a, 1, false, false, ' ');
                }
                seq![(a, e)] + argument_spans_from(s, e)
            }
        }
    }
}

/// The argument lists of all `add_argument(...)` calls in `s`.
pub open spec fn argument_blocks(s: Seq<char>) -> Seq<Seq<char>> {
    argument_blocks_from(s, 0)
}

/// The index of the parenthesis that closes the argument list starting at `a`.
fn closing_index(s: &Vec<char>, a: usize) -> (r: Option<usize>)
    requires
        1 <= a,
    ensures
        r == (match closing_paren(s@, a as int, 1, false, false, ' ') {
            Some(e) => Some(e as usize),
            None => None::<usize>,
        }),
{
    let n = s.len();
    let mut depth: usize = 1;
    let mut in_string = false;
    let mut escape = false;
    let mut quote = ' ';
    let mut j = a;
    while j < n
        invariant
            n == s@.len(),
            1 <= a,
            a <= j,
            1 <= depth <= j - a + 1,
            closing_paren(s@, a as int, 1, false, false, ' ') == closing_paren(
                s@,
                j as int,
                depth as int,
                in_string,
                escape,
                quote,
            ),
        decreases n - j,
    {
        let c = s[j];
        if escape {
            escape = false;
        } else if c == '\\' {
            escape = true;
        } else if in_string {
            if c == quote {
                in_string = false;
            }
        } else if c == '"' || c == '\'' {
            in_string = true;
            quote = c;
        } else if c == '(' {
            depth = depth + 1;
        } else if c == ')' {
            if depth == 1 {
                return Some(j);
            }
            depth = depth - 1;
        }
        j = j + 1;
    }
    None
}

/// The argument lists of the `add_argument(...)` calls of `code`, in order.
pub fn extract_argument_blocks(code: &str) -> (blocks: Vec<String>)
    ensures
        blocks@.len() == argument_blocks(code@).len(),
        forall|k: int| 0 <= k < blocks@.len() ==> #[trigger] blocks@[k]@ == argument_blocks(code@)[k],
{
    let cs = chars_of(code);
    let target = chars_of("add_argument(");
    proof {
        reveal_strlit("add_argument(");
        assert(target@ =~= call_opening());
    }
    let n = cs.len();
    let mut blocks: Vec<String> = Vec::new();
    let mut start: usize = 0;
    let ghost done: Seq<Seq<char>> = seq![];
    loop
        invariant
            n == cs@.len(),
            cs@ == code@,
            target@ == call_opening(),
            start <= n,
            blocks@.len() == done.len(),
            forall|k: int| 0 <= k < blocks@.len() ==> #[trigger] blocks@[k]@ == done[k],
            done + argument_blocks_from(code@, start as int) == argument_blocks(code@),
        ensures
            blocks@.len() == done.len(),
            forall|k: int| 0 <= k < blocks@.len() ==> #[trigger] blocks@[k]@ == done[k],
            done == argument_blocks(code@),
        decreases n - start,
    {
        match find_from(&cs, &target, start) {
            None => {
                assert(argument_blocks_from(code@, start as int) =~= seq![]);
                assert(done =~= argument_blocks(code@));
                break;
            },
            Some(idx) => {
                proof {
                    lemma_first_occurrence(code@, call_opening(), start as int);
                }
                let a = idx + target.len();
                let e = match closing_index(&cs, a) {
                    Some(e) => e,
                    None => a,
                };
                proof {
                    lemma_closing_paren_bounds(code@, a as int, 1, false, false, ' ');
                }
                let block = slice_text(code, a, e);
                blocks.push(block);
                proof {
                    let b = code@.subrange(a as int, e as int);
                    assert(argument_blocks_from(code@, start as int) == seq![b]
                        + argument_blocks_from(code@, e as int));
                    assert(done.push(b) + argument_blocks_from(code@, e as int) =~= done + (seq![b]
                        + argument_blocks_from(code@, e as int)));
                    done = done.push(b);
                }
                start = e;
            },
        }
    }
    blocks
}

/// The pattern that finds a parameter's name: a quoted `--name`.
pub const NAME_PATTERN: &'static str = r#"['"](--[a-zA-Z0-9_-]+)['"]"#;

/// The pattern that finds a declared `type=`.
pub const TYPE_PATTERN: &'static str = r#"type=([a-zA-Z_]+)"#;

/// The pattern that finds a quoted `action=`.
pub const ACTION_PATTERN: &'static str = r#"action=['"]([^'"]+)['"]"#;

/// The pattern that finds a `default=` value: a list, a quoted text, or anything
/// up to the next comma or parenthesis.
pub const DEFAULT_PATTERN: &'static str = r#"default\s*=\s*(\[[^\]]*\]|'[^']*'|"[^"]*"|[^,\)]*)"#;

/// The pattern that finds a quoted `help=` text.
pub const HELP_PATTERN: &'static str = r#"help\s*=\s*(?:"([^"]*)"|'([^']*)')"#;

/// The pattern that finds `const=True`.
pub const CONST_TRUE_PATTERN: &'static str = r#"const=True"#;

#[verifier::external_type_specification]
#[verifier::external_body]
pub struct ExRegex(regex::Regex);

/// Whether `regex::Regex::new` accepts `pattern`.
pub uninterp spec fn regex_compiles(pattern: Seq<char>) -> bool;

/// What `regex::Regex::captures` finds for `pattern` in `haystack`: nothing when
/// there is no match, else the text of each capture group of the leftmost match,
/// in order (group 0 is the whole match), with `None` for a group that did not
/// take part.
pub uninterp spec fn regex_captures(pattern: Seq<char>, haystack: Seq<char>) -> Option<
    Seq<Option<Seq<char>>>,
>;

/// What `regex::Regex::is_match` tells for `pattern` and `haystack`: whether the
/// pattern matches somewhere in it.
pub uninterp spec fn regex_is_match(pattern: Seq<char>, haystack: Seq<char>) -> bool;

/// The texts of the capture groups of a match, group by group.
pub open spec fn groups_model(g: Seq<Option<String>>) -> Seq<Option<Seq<char>>> {
    g.map_values(
        |o: Option<String>|
            match o {
                Some(t) => Some(t@),
                None => None,
            },
    )
}

/// The model of what a search found.
pub open spec fn captures_model(c: Option<Vec<Option<String>>>) -> Option<Seq<Option<Seq<char>>>> {
    match c {
        Some(g) => Some(groups_model(g@)),
        None => None,
    }
}

/// A compiled regular expression together with the pattern it was compiled from.
pub struct Matcher {
    pattern: String,
    re: regex::Regex,
}

impl Matcher {
    /// The pattern this matcher was compiled from.
    pub closed spec fn pattern(&self) -> Seq<char> {
        self.pattern@
    }

    /// `regex::Regex::new`: compiles `pattern`.
    ///
    /// Trusted: the contract claims that the matcher keeps the pattern it was
    /// compiled from, and names whether compilation succeeds (`regex_compiles`),
    /// a function of the pattern alone.
    #[verifier::external_body]
    pub(crate) fn compile(pattern: &str) -> (r: Option<Matcher>)
        ensures
            r is Some <==> regex_compiles(pattern@),
            r matches Some(m) ==> m.pattern() == pattern@,
    {
        match regex::Regex::new(pattern) {
            Ok(re) => Some(Matcher { pattern: pattern.to_string(), re }),
            Err(_) => None,
        }
    }

    /// `regex::Regex::captures`: the capture groups of the leftmost match in
    /// `haystack`.
    ///
    /// Trusted: the contract names the result (`regex_captures`), a function of
    /// the pattern and the haystack.
    #[verifier::external_body]
    pub(crate) fn captures(&self, haystack: &str) -> (r: Option<Vec<Option<String>>>)
        ensures
            captures_model(r) == regex_captures(self.pattern(), haystack@),
    {
        self.re.captures(haystack).map(
            |c| c.iter().map(|g| g.map(|m| m.as_str().to_string())).collect(),
        )
    }

    /// `regex::Regex::is_match`: whether the pattern matches somewhere in
    /// `haystack`.
    ///
    /// Trusted: the contract names the result (`regex_is_match`), a function of
    /// the pattern and the haystack.
    #[verifier::external_body]
    pub(crate) fn is_match(&self, haystack: &str) -> (r: bool)
        ensures
            r == regex_is_match(self.pattern(), haystack@),
    {
        self.re.is_match(haystack)
    }
}

/// Why the parameters of a script cannot be extracted.
#[derive(Debug, Clone, Copy, PartialEq, Eq, Structural)]
pub enum ExtractError {
    /// One of the search patterns was not accepted by the regex engine.
    PatternRejected,
    /// A pattern matched but its first capture group took no part in the match.
    MissingGroup,
    /// The default value is a lone quote character, which cannot be unquoted.
    LoneQuote,
}

/// The text of capture group `i`, if it took part in the match.
pub open spec fn group_text(g: Seq<Option<Seq<char>>>, i: int) -> Option<Seq<char>> {
    if 0 <= i < g.len() {
        g[i]
    } else {
        None
    }
}

/// The text of the first group of a search: empty when the pattern did not
/// match, an error when it matched without that group.
pub open spec fn first_group(c: Option<Seq<Option<Seq<char>>>>) -> Result<Seq<char>, ExtractError> {
    match c {
        None => Ok(Seq::empty()),
        Some(g) => match group_text(g, 1) {
            Some(t) => Ok(t),
            None => Err(ExtractError::MissingGroup),
        },
    }
}

/// The help text found by a search: the first group, else the second, else
/// empty.
pub open spec fn help_of(c: Option<Seq<Option<Seq<char>>>>) -> Seq<char> {
    match c {
        None => Seq::empty(),
        Some(g) => match group_text(g, 1) {
            Some(t) => t,
            None => match group_text(g, 2) {
                Some(t) => t,
                None => Seq::empty(),
            },
        },
    }
}

/// `v` starts and ends with the same quote character (`"` or `'`).
pub open spec fn is_quoted(v: Seq<char>) -> bool {
    &&& v.len() > 0
    &&& ((v[0] == '"' && v.last() == '"') || (v[0] == '\'' && v.last() == '\''))
}

/// `v` without its enclosing quotes, if it has them.
pub open spec fn unquoted(v: Seq<char>) -> Result<Seq<char>, ExtractError> {
    if is_quoted(v) {
        if v.len() < 2 {
            Err(ExtractError::LoneQuote)
        } else {
            Ok(v.subrange(1, v.len() - 1))
        }
    } else {
        Ok(v)
    }
}

/// The default value found by a search: empty when there is none, else the
/// first group without surrounding whitespace and quotes.
pub open spec fn default_of(c: Option<Seq<Option<Seq<char>>>>) -> Result<Seq<char>, ExtractError> {
    match c {
        None => Ok(Seq::empty()),
        Some(g) => match group_text(g, 1) {
            Some(t) => unquoted(trimmed(t)),
            None => Err(ExtractError::MissingGroup),
        },
    }
}

/// The parameter type that a declared Python type stands for.
pub open spec fn type_of_python(t: Seq<char>) -> Seq<char> {
    if t == "int"@ {
        "Integer"@
    } else if t == "float"@ {
        "Float"@
    } else if t == "bool"@ {
        "Boolean"@
    } else {
        "String"@
    }
}

/// The type found by a search: `String` when there is none.
pub open spec fn declared_type(c: Option<Seq<Option<Seq<char>>>>) -> Result<Seq<char>, ExtractError> {
    match c {
        None => Ok("String"@),
        Some(g) => match group_text(g, 1) {
            Some(t) => Ok(type_of_python(t)),
            None => Err(ExtractError::MissingGroup),
        },
    }
}

/// A text parameter is taken for a path when its help text speaks of a path or
/// a directory, or its name of a directory, weights or a project.
pub open spec fn looks_like_path(name: Seq<char>, description: Seq<char>) -> bool {
    let d = lowercased(description);
    ||| contains_seq(d, "path"@)
    ||| contains_seq(d, "dir"@)
    ||| contains_seq(d, "directory"@)
    ||| contains_seq(name, "dir"@)
    ||| contains_seq(name, "weights"@)
    ||| contains_seq(name, "project"@)
}

/// A flag (`store_true`) parameter's value: `false` unless one is given other
/// than `False` or `None`.
pub open spec fn flag_value(v: Seq<char>) -> Seq<char> {
    if v.len() == 0 || v == "False"@ || v == "None"@ {
        "false"@
    } else {
        v
    }
}

/// The parameter that one argument list declares, given what each pattern found
/// in it: none when it has no name; a flag when its action is `store_true` or
/// it has `const=True`; else a parameter of its declared type, a text one being
/// taken for a path when it looks like one.
#[verifier::opaque]
pub open spec fn block_param(
    name: Option<Seq<Option<Seq<char>>>>,
    help: Option<Seq<Option<Seq<char>>>>,
    default: Option<Seq<Option<Seq<char>>>>,
    action: Option<Seq<Option<Seq<char>>>>,
    declared: Option<Seq<Option<Seq<char>>>>,
    const_true: bool,
) -> Result<Option<ParamModel>, ExtractError> {
    match first_group(name) {
        Err(e) => Err(e),
        Ok(raw) => {
            let n = trim_leading(raw, "--"@);
            if n.len() == 0 {
                Ok(None)
            } else {
                let desc = help_of(help);
                match default_of(default) {
                    Err(e) => Err(e),
                    Ok(v) => match first_group(action) {
                        Err(e) => Err(e),
                        Ok(act) => {
                            if act == "store_true"@ || const_true {
                                Ok(
                                    Some(
                                        ParamModel {
                                            name: n,
                                            value: flag_value(v),
                                            param_type: "Boolean"@,
                                            description: desc,
                                            is_flag: true,
                                        },
                                    ),
                                )
                            } else {
                                match declared_type(declared) {
                                    Err(e) => Err(e),
                                    Ok(t) => {
                                        let t2 = if t == "String"@ && looks_like_path(n, desc) {
                                            "Path"@
                                        } else {
                                            t
                                        };
                                        Ok(
                                            Some(
                                                ParamModel {
                                                    name: n,
                                                    value: v,
                                                    param_type: t2,
                                                    description: desc,
                                                    is_flag: false,
                                                },
                                            ),
                                        )
                                    },
                                }
                            }
                        },
                    },
                }
            }
        },
    }
}

/// The model of an optional parameter.
pub open spec fn param_option_model(p: Option<Param>) -> Option<ParamModel> {
    match p {
        Some(p) => Some(p@),
        None => None,
    }
}

/// The text of group `i` of a search, if the search matched and the group took
/// part.
fn group_at(c: &Option<Vec<Option<String>>>, i: usize) -> (r: Option<String>)
    ensures
        match captures_model(*c) {
            None => r is None,
            Some(g) => match group_text(g, i as int) {
                Some(t) => r matches Some(s) && s@ == t,
                None => r is None,
            },
        },
{
    match c {
        None => None,
        Some(g) => {
            if i < g.len() {
                match &g[i] {
                    Some(t) => Some(owned_text(t.as_str())),
                    None => None,
                }
            } else {
                None
            }
        },
    }
}

/// `v` without its enclosing quotes, if it has them.
fn unquote(v: String) -> (r: Result<String, ExtractError>)
    ensures
        match unquoted(v@) {
            Ok(u) => r matches Ok(s) && s@ == u,
            Err(e) => r == Err::<String, ExtractError>(e),
        },
{
    let cs = chars_of(v.as_str());
    let n = cs.len();
    if n > 0 && ((cs[0] == '"' && cs[n - 1] == '"') || (cs[0] == '\'' && cs[n - 1] == '\'')) {
        if n < 2 {
            Err(ExtractError::LoneQuote)
        } else {
            Ok(slice_text(v.as_str(), 1, n - 1))
        }
    } else {
        Ok(v)
    }
}

/// The parameter that one argument list declares, given what each pattern found
/// in it (`const_true` tells whether `const=True` was found).
pub fn param_from_matches(
    name: &Option<Vec<Option<String>>>,
    help: &Option<Vec<Option<String>>>,
    default: &Option<Vec<Option<String>>>,
    action: &Option<Vec<Option<String>>>,
    declared: &Option<Vec<Option<String>>>,
    const_true: bool,
) -> (r: Result<Option<Param>, ExtractError>)
    ensures
        match block_param(
            captures_model(*name),
            captures_model(*help),
            captures_model(*default),
            captures_model(*action),
            captures_model(*declared),
            const_true,
        ) {
            Ok(p) => r matches Ok(q) && param_option_model(q) == p,
            Err(e) => r == Err::<Option<Param>, ExtractError>(e),
        },
{
    proof {
        reveal_strlit("--");
        reveal(block_param);
    }
    let raw = if name.is_some() {
        match group_at(name, 1) {
            Some(t) => t,
            None => {
                return Err(ExtractError::MissingGroup);
            },
        }
    } else {
        String::new()
    };
    assert("--"@.len() > 0);
    let n = trim_start_text(raw.as_str(), "--");
    if n.as_str().is_empty() {
        return Ok(None);
    }
    let description = match group_at(help, 1) {
        Some(t) => t,
        None => match group_at(help, 2) {
            Some(t) => t,
            None => String::new(),
        },
    };
    let value = if default.is_some() {
        match group_at(default, 1) {
            Some(t) => {
                let trimmed_value = trim_text(t.as_str());
                match unquote(trimmed_value) {
                    Ok(u) => u,
                    Err(e) => {
                        return Err(e);
                    },
                }
            },
            None => {
                return Err(ExtractError::MissingGroup);
            },
        }
    } else {
        String::new()
    };
    let act = if action.is_some() {
        match group_at(action, 1) {
            Some(t) => t,
            None => {
                return Err(ExtractError::MissingGroup);
            },
        }
    } else {
        String::new()
    };
    if same_text(act.as_str(), "store_true") || const_true {
        let flag = if value.as_str().is_empty() || same_text(value.as_str(), "False") || same_text(
            value.as_str(),
            "None",
        ) {
            owned_text("false")
        } else {
            value
        };
        return Ok(
            Some(
                Param {
                    name: n,
                    value: flag,
                    param_type: owned_text("Boolean"),
                    description,
                    is_flag: true,
                },
            ),
        );
    }
    let t = if declared.is_some() {
        match group_at(declared, 1) {
            Some(t) => {
                if same_text(t.as_str(), "int") {
                    owned_text("Integer")
                } else if same_text(t.as_str(), "float") {
                    owned_text("Float")
                } else if same_text(t.as_str(), "bool") {
                    owned_text("Boolean")
                } else {
                    owned_text("String")
                }
            },
            None => {
                return Err(ExtractError::MissingGroup);
            },
        }
    } else {
        owned_text("String")
    };
    let param_type = if same_text(t.as_str(), "String") {
        let lower = lowercase_text(description.as_str());
        if text_contains(lower.as_str(), "path") || text_contains(lower.as_str(), "dir")
            || text_contains(lower.as_str(), "directory") || text_contains(n.as_str(), "dir")
            || text_contains(n.as_str(), "weights") || text_contains(n.as_str(), "project") {
            owned_text("Path")
        } else {
            t
        }
    } else {
        t
    };
    Ok(Some(Param { name: n, value, param_type, description, is_flag: false }))
}

/// The six compiled search patterns.
pub struct Patterns {
    pub name: Matcher,
    pub declared: Matcher,
    pub action: Matcher,
    pub default: Matcher,
    pub help: Matcher,
    pub const_true: Matcher,
}

/// All six search patterns compile.
pub open spec fn patterns_compile() -> bool {
    &&& regex_compiles(NAME_PATTERN@)
    &&& regex_compiles(TYPE_PATTERN@)
    &&& regex_compiles(ACTION_PATTERN@)
    &&& regex_compiles(DEFAULT_PATTERN@)
    &&& regex_compiles(HELP_PATTERN@)
    &&& regex_compiles(CONST_TRUE_PATTERN@)
}

impl Patterns {
    /// The patterns hold the six search patterns, each in its place.
    pub open spec fn wf(&self) -> bool {
        &&& self.name.pattern() == NAME_PATTERN@
        &&& self.declared.pattern() == TYPE_PATTERN@
        &&& self.action.pattern() == ACTION_PATTERN@
        &&& self.default.pattern() == DEFAULT_PATTERN@
        &&& self.help.pattern() == HELP_PATTERN@
        &&& self.const_true.pattern() == CONST_TRUE_PATTERN@
    }

    /// Compiles the six search patterns.
    pub fn compile() -> (r: Option<Patterns>)
        ensures
            r is Some <==> patterns_compile(),
            r matches Some(p) ==> p.wf(),
    {
        let name = Matcher::compile(NAME_PATTERN);
        let declared = Matcher::compile(TYPE_PATTERN);
        let action = Matcher::compile(ACTION_PATTERN);
        let default = Matcher::compile(DEFAULT_PATTERN);
        let help = Matcher::compile(HELP_PATTERN);
        let const_true = Matcher::compile(CONST_TRUE_PATTERN);
        match (name, declared, action, default, help, const_true) {
            (Some(name), Some(declared), Some(action), Some(default), Some(help), Some(const_true)) => {
                Some(Patterns { name, declared, action, default, help, const_true })
            },
            _ => None,
        }
    }
}

/// The parameter that the argument list `b` declares.
pub open spec fn param_of_block(b: Seq<char>) -> Result<Option<ParamModel>, ExtractError> {
    block_param(
        regex_captures(NAME_PATTERN@, b),
        regex_captures(HELP_PATTERN@, b),
        regex_captures(DEFAULT_PATTERN@, b),
        regex_captures(ACTION_PATTERN@, b),
        regex_captures(TYPE_PATTERN@, b),
        regex_is_match(CONST_TRUE_PATTERN@, b),
    )
}

/// The parameters that a sequence of argument lists declares, in order; an
/// error when one of them cannot be read.
pub open spec fn params_of_blocks(bs: Seq<Seq<char>>) -> Result<Seq<ParamModel>, ExtractError>
    decreases bs.len(),
{
    if bs.len() == 0 {
        Ok(seq![])
    } else {
        match params_of_blocks(bs.drop_last()) {
            Err(e) => Err(e),
            Ok(ps) => match param_of_block(bs.last()) {
                Err(e) => Err(e),
                Ok(None) => Ok(ps),
                Ok(Some(p)) => Ok(ps.push(p)),
            },
        }
    }
}

/// Once the parameters of a prefix of the argument lists cannot be read, those
/// of the whole sequence cannot either, for the same reason.
pub proof fn lemma_blocks_error_persists(bs: Seq<Seq<char>>, k: int)
    requires
        0 <= k <= bs.len(),
        params_of_blocks(bs.take(k)) is Err,
    ensures
        params_of_blocks(bs) == params_of_blocks(bs.take(k)),
    decreases bs.len() - k,
{
    if k == bs.len() {
        assert(bs.take(k) =~= bs);
    } else {
        assert(bs.drop_last().take(k) =~= bs.take(k));
        lemma_blocks_error_persists(bs.drop_last(), k);
    }
}

/// The parameters that the script `code` declares.
pub open spec fn params_of_script(code: Seq<char>) -> Result<Seq<ParamModel>, ExtractError> {
    if !patterns_compile() {
        Err(ExtractError::PatternRejected)
    } else {
        params_of_blocks(argument_blocks(code))
    }
}

/// The models of a sequence of parameters.
pub open spec fn params_model(ps: Seq<Param>) -> Seq<ParamModel> {
    ps.map_values(|p: Param| p@)
}

/// The parameters that the `add_argument(...)` calls of the script `code`
/// declare, in order.
pub fn extract_params(code: &str) -> (r: Result<Vec<Param>, ExtractError>)
    ensures
        match params_of_script(code@) {
            Ok(ps) => r matches Ok(v) && params_model(v@) == ps,
            Err(e) => r == Err::<Vec<Param>, ExtractError>(e),
        },
{
    let blocks = extract_argument_blocks(code);
    let patterns = match Patterns::compile() {
        Some(p) => p,
        None => {
            return Err(ExtractError::PatternRejected);
        },
    };
    let ghost bs = argument_blocks(code@);
    let mut params: Vec<Param> = Vec::new();
    let mut i: usize = 0;
    assert(bs.take(0) =~= seq![]);
    assert(params_model(params@) =~= seq![]);
    while i < blocks.len()
        invariant
            patterns.wf(),
            patterns_compile(),
            bs == argument_blocks(code@),
            blocks@.len() == bs.len(),
            forall|k: int| 0 <= k < blocks@.len() ==> #[trigger] blocks@[k]@ == bs[k],
            i <= blocks@.len(),
            params_of_blocks(bs.take(i as int)) == Ok::<Seq<ParamModel>, ExtractError>(
                params_model(params@),
            ),
        decreases blocks@.len() - i,
    {
        let b = blocks[i].as_str();
        let name = patterns.name.captures(b);
        let help = patterns.help.captures(b);
        let default = patterns.default.captures(b);
        let action = patterns.action.captures(b);
        let declared = patterns.declared.captures(b);
        let const_true = patterns.const_true.is_match(b);
        proof {
            assert(bs.take(i + 1).drop_last() =~= bs.take(i as int));
            assert(bs.take(i + 1).last() == bs[i as int]);
        }
        assert(b@ == bs[i as int]);
        assert(param_of_block(bs[i as int]) == block_param(
            captures_model(name),
            captures_model(help),
            captures_model(default),
            captures_model(action),
            captures_model(declared),
            const_true,
        ));
        let ghost prev = params_of_blocks(bs.take(i as int));
        let ghost old_params = params@;
        assert(params_of_blocks(bs.take(i + 1)) == match prev {
            Err(e) => Err(e),
            Ok(ps) => match param_of_block(bs[i as int]) {
                Err(e) => Err(e),
                Ok(None) => Ok(ps),
                Ok(Some(p)) => Ok(ps.push(p)),
            },
        });
        match param_from_matches(&name, &help, &default, &action, &declared, const_true) {
            Err(e) => {
                proof {
                    lemma_blocks_error_persists(bs, i + 1);
                }
                return Err(e);
            },
            Ok(None) => {},
            Ok(Some(p)) => {
                let ghost pm = p@;
                params.push(p);
                assert(params_model(params@) =~= params_model(old_params).push(pm));
            },
        }
        i = i + 1;
    }
    assert(bs.take(bs.len() as int) =~= bs);
    Ok(params)
}

} // verus!
