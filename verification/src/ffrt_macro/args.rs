use crate::text::{
    decimal_text, eq_ignore_ascii_case, eq_ignore_ascii_case_spec, parse_u64, parse_u64_spec,
    text_eq, IntParseError,
};
use vstd::prelude::*;

verus! {

/// One token of the macro's argument list, as the Rust lexer gave it.
pub enum ArgToken {
    /// An identifier that is not a reserved word.
    Ident(String),
    /// A reserved word, such as `fn` or `true`.
    Keyword(String),
    /// A punctuation character.
    Punct(char),
    /// A string literal, by its value.
    Str(String),
    /// An integer literal, by its decimal digits.
    Int(String),
    /// Any other literal.
    OtherLiteral,
    /// A delimited group.
    Group,
}

/// Where an error of the macro points.
#[derive(Debug, Clone, Copy, PartialEq, Eq, Structural)]
pub enum ErrorSite {
    /// The argument token at this index.
    Token(usize),
    /// The end of the argument list.
    EndOfInput,
    /// The place the macro was invoked.
    CallSite,
    /// The function the macro is attached to.
    Function,
    /// The return type of that function.
    ReturnType,
}

/// An error of the macro: where it points and what it says.
pub struct MacroError {
    pub site: ErrorSite,
    pub message: String,
}

/// An error by its site and its text.
pub struct ErrorView {
    pub site: ErrorSite,
    pub message: Seq<char>,
}

impl View for MacroError {
    type V = ErrorView;

    open spec fn view(&self) -> ErrorView {
        ErrorView { site: self.site, message: self.message@ }
    }
}

/// The arguments of the macro, each kept as written.
pub struct MacroArgs {
    qos: Option<String>,
    priority: Option<String>,
    name: Option<String>,
    delay: Option<u64>,
    stack_size: Option<u64>,
}

/// The arguments by the text of each.
pub struct ArgsView {
    pub qos: Option<Seq<char>>,
    pub priority: Option<Seq<char>>,
    pub name: Option<Seq<char>>,
    pub delay: Option<u64>,
    pub stack_size: Option<u64>,
}

/// An optional text by its characters.
pub open spec fn text_of(s: Option<String>) -> Option<Seq<char>> {
    match s {
        Some(t) => Some(t@),
        None => None,
    }
}

/// An optional borrowed text by its characters.
pub open spec fn ref_text(s: Option<&String>) -> Option<Seq<char>> {
    match s {
        Some(t) => Some(t@),
        None => None,
    }
}

impl View for MacroArgs {
    type V = ArgsView;

    closed spec fn view(&self) -> ArgsView {
        ArgsView {
            qos: text_of(self.qos),
            priority: text_of(self.priority),
            name: text_of(self.name),
            delay: self.delay,
            stack_size: self.stack_size,
        }
    }
}

impl ArgsView {
    /// No argument given.
    pub open spec fn empty() -> ArgsView {
        ArgsView { qos: None, priority: None, name: None, delay: None, stack_size: None }
    }

    /// Whether any argument is given.
    pub open spec fn has_any(self) -> bool {
        self.qos is Some || self.priority is Some || self.name is Some || self.delay is Some
            || self.stack_size is Some
    }
}

/// The argument keys the macro knows.
pub enum ArgKey {
    Qos,
    Priority,
    Name,
    Delay,
    StackSize,
}

/// The key a name denotes, if any.
pub open spec fn key_of(k: Seq<char>) -> Option<ArgKey> {
    if k == "qos"@ {
        Some(ArgKey::Qos)
    } else if k == "priority"@ {
        Some(ArgKey::Priority)
    } else if k == "name"@ {
        Some(ArgKey::Name)
    } else if k == "delay"@ {
        Some(ArgKey::Delay)
    } else if k == "stack_size"@ {
        Some(ArgKey::StackSize)
    } else {
        None
    }
}

/// Whether a QoS value names a level, in any letter case.
pub open spec fn valid_qos_text(v: Seq<char>) -> bool {
    ||| eq_ignore_ascii_case_spec(v, "inherit"@)
    ||| eq_ignore_ascii_case_spec(v, "background"@)
    ||| eq_ignore_ascii_case_spec(v, "utility"@)
    ||| eq_ignore_ascii_case_spec(v, "default"@)
    ||| eq_ignore_ascii_case_spec(v, "userinitiated"@)
}

/// Whether a priority value names a priority, in any letter case.
pub open spec fn valid_priority_text(v: Seq<char>) -> bool {
    ||| eq_ignore_ascii_case_spec(v, "immediate"@)
    ||| eq_ignore_ascii_case_spec(v, "high"@)
    ||| eq_ignore_ascii_case_spec(v, "low"@)
    ||| eq_ignore_ascii_case_spec(v, "idle"@)
}

/// Where an error at token position `i` points.
pub open spec fn site_at(toks: Seq<ArgToken>, i: int) -> ErrorSite {
    if i < toks.len() {
        ErrorSite::Token(i as usize)
    } else {
        ErrorSite::EndOfInput
    }
}

/// The text of a "expected ..." error at token position `i`.
pub open spec fn expected_text(toks: Seq<ArgToken>, i: int, what: Seq<char>) -> Seq<char> {
    if i < toks.len() {
        what
    } else {
        "unexpected end of input, "@ + what
    }
}

/// An error by site and text.
pub open spec fn err(site: ErrorSite, message: Seq<char>) -> ErrorView {
    ErrorView { site, message }
}

/// Reading a string literal at position `j`: its value and the next position.
pub open spec fn str_value(toks: Seq<ArgToken>, j: int) -> Result<(Seq<char>, int), ErrorView> {
    if j < toks.len() && toks[j] is Str {
        Ok((toks[j]->Str_0@, j + 1))
    } else {
        Err(err(site_at(toks, j), expected_text(toks, j, "expected string literal"@)))
    }
}

/// The digits of an integer literal at position `j`, a minus sign before it
/// joining in, and the next position.
pub open spec fn int_digits(toks: Seq<ArgToken>, j: int) -> Option<(Seq<char>, int)> {
    if j < toks.len() && toks[j] is Int {
        Some((toks[j]->Int_0@, j + 1))
    } else if j + 1 < toks.len() && toks[j] == ArgToken::Punct('-') && toks[j + 1] is Int {
        Some((seq!['-'] + toks[j + 1]->Int_0@, j + 2))
    } else {
        None
    }
}

/// The text of an error of reading an integer.
pub open spec fn int_error_text(e: IntParseError) -> Seq<char> {
    match e {
        IntParseError::Empty => "cannot parse integer from empty string"@,
        IntParseError::InvalidDigit => "invalid digit found in string"@,
        IntParseError::TooLarge => "number too large to fit in target type"@,
    }
}

/// Reading a `u64` literal at position `j`: its value and the next position.
pub open spec fn u64_value(toks: Seq<ArgToken>, j: int) -> Result<(u64, int), ErrorView> {
    match int_digits(toks, j) {
        Some((d, next)) => match parse_u64_spec(d) {
            Ok(v) => Ok((v, next)),
            Err(e) => Err(err(ErrorSite::Token(j as usize), int_error_text(e))),
        },
        None => Err(err(site_at(toks, j), expected_text(toks, j, "expected integer literal"@))),
    }
}

/// Reading the value of `key` at position `j` into the arguments read so far.
pub open spec fn key_value(toks: Seq<ArgToken>, j: int, key: ArgKey, acc: ArgsView) -> Result<
    (ArgsView, int),
    ErrorView,
> {
    match key {
        ArgKey::Qos => match str_value(toks, j) {
            Ok((v, next)) => if valid_qos_text(v) {
                Ok((ArgsView { qos: Some(v), ..acc }, next))
            } else {
                Err(
                    err(
                        ErrorSite::Token(j as usize),
                        "qos value must be one of: Inherit, Background, Utility, Default, UserInitiated"@,
                    ),
                )
            },
            Err(e) => Err(e),
        },
        ArgKey::Priority => match str_value(toks, j) {
            Ok((v, next)) => if valid_priority_text(v) {
                Ok((ArgsView { priority: Some(v), ..acc }, next))
            } else {
                Err(
                    err(
                        ErrorSite::Token(j as usize),
                        "priority value must be one of: Immediate, High, Low, Idle"@,
                    ),
                )
            },
            Err(e) => Err(e),
        },
        ArgKey::Name => match str_value(toks, j) {
            Ok((v, next)) => Ok((ArgsView { name: Some(v), ..acc }, next)),
            Err(e) => Err(e),
        },
        ArgKey::Delay => match u64_value(toks, j) {
            Ok((v, next)) => Ok((ArgsView { delay: Some(v), ..acc }, next)),
            Err(e) => Err(e),
        },
        ArgKey::StackSize => match u64_value(toks, j) {
            Ok((v, next)) => Ok((ArgsView { stack_size: Some(v), ..acc }, next)),
            Err(e) => Err(e),
        },
    }
}

/// The position after an optional comma at `j`.
pub open spec fn skip_comma(toks: Seq<ArgToken>, j: int) -> int {
    if j < toks.len() && toks[j] == ArgToken::Punct(',') {
        j + 1
    } else {
        j
    }
}

/// Reading `key = value` pairs from position `i`, each optionally followed
/// by a comma, into the arguments read so far; a later pair overrides an
/// earlier one with the same key.
pub open spec fn parse_from(toks: Seq<ArgToken>, i: int, acc: ArgsView) -> Result<
    ArgsView,
    ErrorView,
>
    decreases toks.len() - i,
{
    if i < 0 || i >= toks.len() {
        Ok(acc)
    } else {
        match toks[i] {
            ArgToken::Ident(k) => if !(i + 1 < toks.len() && toks[i + 1] == ArgToken::Punct('=')) {
                Err(err(site_at(toks, i + 1), "expected `=`"@))
            } else {
                match key_of(k@) {
                    None => Err(err(ErrorSite::Token(i as usize), "unknown attribute: "@ + k@)),
                    Some(key) => match key_value(toks, i + 2, key, acc) {
                        Ok((next_acc, next)) => if next > i {
                            parse_from(toks, skip_comma(toks, next), next_acc)
                        } else {
                            Ok(next_acc)
                        },
                        Err(e) => Err(e),
                    },
                }
            },
            ArgToken::Keyword(k) => Err(
                err(
                    ErrorSite::Token(i as usize),
                    "expected identifier, found keyword `"@ + k@ + "`"@,
                ),
            ),
            _ => Err(err(ErrorSite::Token(i as usize), "expected identifier"@)),
        }
    }
}

/// Reading the whole argument list.
pub open spec fn parse_args_spec(toks: Seq<ArgToken>) -> Result<ArgsView, ErrorView> {
    parse_from(toks, 0, ArgsView::empty())
}

/// The QoS and priority values held are ones the parser accepts.
pub open spec fn values_checked(a: ArgsView) -> bool {
    &&& a.qos matches Some(q) ==> valid_qos_text(q)
    &&& a.priority matches Some(p) ==> valid_priority_text(p)
}

proof fn lemma_parse_from_checked(toks: Seq<ArgToken>, i: int, acc: ArgsView)
    requires
        values_checked(acc),
    ensures
        parse_from(toks, i, acc) matches Ok(a) ==> values_checked(a),
    decreases toks.len() - i,
{
    if 0 <= i < toks.len() {
        if let ArgToken::Ident(k) = toks[i] {
            if let Some(key) = key_of(k@) {
                if let Ok((next_acc, next)) = key_value(toks, i + 2, key, acc) {
                    if next > i {
                        lemma_parse_from_checked(toks, skip_comma(toks, next), next_acc);
                    }
                }
            }
        }
    }
}

/// Every argument list the parser accepts holds a QoS value and a priority
/// value only when they name a level and a priority, in some letter case.
pub proof fn lemma_parsed_values_checked(toks: Seq<ArgToken>)
    ensures
        parse_args_spec(toks) matches Ok(a) ==> values_checked(a),
{
    lemma_parse_from_checked(toks, 0, ArgsView::empty());
}

fn error_at(site: ErrorSite, message: &str) -> (e: MacroError)
    ensures
        e@ == err(site, message@),
{
    MacroError { site, message: String::from_str(message) }
}

fn expected_error(toks: &Vec<ArgToken>, j: usize, what: &str) -> (e: MacroError)
    ensures
        e@ == err(site_at(toks@, j as int), expected_text(toks@, j as int, what@)),
{
    if j < toks.len() {
        error_at(ErrorSite::Token(j), what)
    } else {
        let mut m = String::from_str("unexpected end of input, ");
        m.append(what);
        MacroError { site: ErrorSite::EndOfInput, message: m }
    }
}

fn read_str(toks: &Vec<ArgToken>, j: usize) -> (r: Result<(String, usize), MacroError>)
    ensures
        match (r, str_value(toks@, j as int)) {
            (Ok((v, next)), Ok((sv, snext))) => v@ == sv && next == snext,
            (Err(e), Err(se)) => e@ == se,
            _ => false,
        },
{
    if j < toks.len() {
        match &toks[j] {
            ArgToken::Str(v) => {
                return Ok((v.clone(), j + 1));
            },
            _ => {},
        }
    }
    Err(expected_error(toks, j, "expected string literal"))
}

fn int_error_message(e: IntParseError) -> (s: String)
    ensures
        s@ == int_error_text(e),
{
    e.to_string()
}

fn read_u64(toks: &Vec<ArgToken>, j: usize) -> (r: Result<(u64, usize), MacroError>)
    requires
        j <= toks.len() + 2,
    ensures
        match (r, u64_value(toks@, j as int)) {
            (Ok((v, next)), Ok((sv, snext))) => v == sv && next == snext,
            (Err(e), Err(se)) => e@ == se,
            _ => false,
        },
{
    let mut digits = String::new();
    let mut next: usize = j;
    let mut found = false;
    if j < toks.len() {
        match &toks[j] {
            ArgToken::Int(d) => {
                digits = d.clone();
                next = j + 1;
                found = true;
            },
            _ => {},
        }
    }
    if !found && j < toks.len() && toks.len() - j > 1 {
        match (&toks[j], &toks[j + 1]) {
            (ArgToken::Punct(c), ArgToken::Int(d)) => {
                if *c == '-' {
                    proof {
                        reveal_strlit("-");
                    }
                    digits = String::from_str("-");
                    digits.append(d.as_str());
                    next = j + 2;
                    found = true;
                }
            },
            _ => {},
        }
    }
    proof {
        if found {
            let sd = int_digits(toks@, j as int);
            assert(sd is Some);
            let p = sd->0;
            assert(digits@ == p.0);
            assert(next == p.1);
        } else {
            assert(int_digits(toks@, j as int) is None);
        }
    }
    if !found {
        return Err(expected_error(toks, j, "expected integer literal"));
    }
    match parse_u64(digits.as_str()) {
        Ok(v) => Ok((v, next)),
        Err(e) => Err(MacroError { site: ErrorSite::Token(j), message: int_error_message(e) }),
    }
}

/// Whether a QoS value names a level, in any letter case.
pub fn is_valid_qos_text(v: &str) -> (r: bool)
    ensures
        r == valid_qos_text(v@),
{
    eq_ignore_ascii_case(v, "inherit") || eq_ignore_ascii_case(v, "background")
        || eq_ignore_ascii_case(v, "utility") || eq_ignore_ascii_case(v, "default")
        || eq_ignore_ascii_case(v, "userinitiated")
}

/// Whether a priority value names a priority, in any letter case.
pub fn is_valid_priority_text(v: &str) -> (r: bool)
    ensures
        r == valid_priority_text(v@),
{
    eq_ignore_ascii_case(v, "immediate") || eq_ignore_ascii_case(v, "high")
        || eq_ignore_ascii_case(v, "low") || eq_ignore_ascii_case(v, "idle")
}

fn classify_key(k: &str) -> (r: Option<ArgKey>)
    ensures
        r == key_of(k@),
{
    if text_eq(k, "qos") {
        Some(ArgKey::Qos)
    } else if text_eq(k, "priority") {
        Some(ArgKey::Priority)
    } else if text_eq(k, "name") {
        Some(ArgKey::Name)
    } else if text_eq(k, "delay") {
        Some(ArgKey::Delay)
    } else if text_eq(k, "stack_size") {
        Some(ArgKey::StackSize)
    } else {
        None
    }
}

impl Default for MacroArgs {
    fn default() -> (a: MacroArgs)
        ensures
            a@ == ArgsView::empty(),
    {
        MacroArgs { qos: None, priority: None, name: None, delay: None, stack_size: None }
    }
}

impl MacroArgs {
    /// Reads the argument list of the macro: `key = value` pairs, each
    /// optionally followed by a comma. The keys are `qos` and `priority`
    /// (string literals naming a level in any letter case), `name` (a string
    /// literal), and `delay` and `stack_size` (integer literals that fit a `u64`).
    pub fn parse(toks: &Vec<ArgToken>) -> (r: Result<MacroArgs, MacroError>)
        ensures
            match (r, parse_args_spec(toks@)) {
                (Ok(a), Ok(sa)) => a@ == sa,
                (Err(e), Err(se)) => e@ == se,
                _ => false,
            },
    {
        let mut args = MacroArgs::default();
        let mut i: usize = 0;
        while i < toks.len()
            invariant
                i <= toks@.len(),
                parse_args_spec(toks@) == parse_from(toks@, i as int, args@),
            decreases toks@.len() - i,
        {
            let ghost acc = args@;
            let key: &String = match &toks[i] {
                ArgToken::Ident(k) => k,
                ArgToken::Keyword(k) => {
                    let mut m = String::from_str("expected identifier, found keyword `");
                    m.append(k.as_str());
                    m.append("`");
                    return Err(MacroError { site: ErrorSite::Token(i), message: m });
                },
                _ => {
                    return Err(error_at(ErrorSite::Token(i), "expected identifier"));
                },
            };
            let eq_follows = i + 1 < toks.len() && match &toks[i + 1] {
                ArgToken::Punct(c) => *c == '=',
                _ => false,
            };
            if !eq_follows {
                proof {
                    assert(!(i + 1 < toks@.len() && toks@[i + 1] == ArgToken::Punct('=')));
                }
                if i + 1 < toks.len() {
                    return Err(error_at(ErrorSite::Token(i + 1), "expected `=`"));
                } else {
                    return Err(error_at(ErrorSite::EndOfInput, "expected `=`"));
                }
            }
            let kind = classify_key(key.as_str());
            let next: usize;
            match kind {
                None => {
                    let mut m = String::from_str("unknown attribute: ");
                    m.append(key.as_str());
                    return Err(MacroError { site: ErrorSite::Token(i), message: m });
                },
                Some(ArgKey::Qos) => {
                    match read_str(toks, i + 2) {
                        Ok((v, n)) => {
                            if !is_valid_qos_text(v.as_str()) {
                                return Err(
                                    error_at(
                                        ErrorSite::Token(i + 2),
                                        "qos value must be one of: Inherit, Background, Utility, Default, UserInitiated",
                                    ),
                                );
                            }
                            args.qos = Some(v);
                            next = n;
                        },
                        Err(e) => {
                            return Err(e);
                        },
                    }
                },
                Some(ArgKey::Priority) => {
                    match read_str(toks, i + 2) {
                        Ok((v, n)) => {
                            if !is_valid_priority_text(v.as_str()) {
                                return Err(
                                    error_at(
                                        ErrorSite::Token(i + 2),
                                        "priority value must be one of: Immediate, High, Low, Idle",
                                    ),
                                );
                            }
                            args.priority = Some(v);
                            next = n;
                        },
                        Err(e) => {
                            return Err(e);
                        },
                    }
                },
                Some(ArgKey::Name) => {
                    match read_str(toks, i + 2) {
                        Ok((v, n)) => {
                            args.name = Some(v);
                            next = n;
                        },
                        Err(e) => {
                            return Err(e);
                        },
                    }
                },
                Some(ArgKey::Delay) => {
                    match read_u64(toks, i + 2) {
                        Ok((v, n)) => {
                            args.delay = Some(v);
                            next = n;
                        },
                        Err(e) => {
                            return Err(e);
                        },
                    }
                },
                Some(ArgKey::StackSize) => {
                    match read_u64(toks, i + 2) {
                        Ok((v, n)) => {
                            args.stack_size = Some(v);
                            next = n;
                        },
                        Err(e) => {
                            return Err(e);
                        },
                    }
                },
            }
            let after = if next < toks.len() && match &toks[next] {
                ArgToken::Punct(c) => *c == ',',
                _ => false,
            } {
                next + 1
            } else {
                next
            };
            proof {
                assert(key_value(toks@, i + 2, key_of(key@)->0, acc) == Ok::<(ArgsView, int), ErrorView>((args@, next as int)));
                assert(after == skip_comma(toks@, next as int));
            }
            i = after;
        }
        Ok(args)
    }

    /// The QoS value as written, if given.
    pub fn qos(&self) -> (r: Option<&String>)
        ensures
            ref_text(r) == self@.qos,
    {
        self.qos.as_ref()
    }

    /// The priority value as written, if given.
    pub fn priority(&self) -> (r: Option<&String>)
        ensures
            ref_text(r) == self@.priority,
    {
        self.priority.as_ref()
    }

    /// The task name, if given.
    pub fn name(&self) -> (r: Option<&String>)
        ensures
            ref_text(r) == self@.name,
    {
        self.name.as_ref()
    }

    /// The delay, if given.
    pub fn delay(&self) -> (r: Option<u64>)
        ensures
            r == self@.delay,
    {
        self.delay
    }

    /// The stack size, if given.
    pub fn stack_size(&self) -> (r: Option<u64>)
        ensures
            r == self@.stack_size,
    {
        self.stack_size
    }

    /// Whether any argument was given.
    pub fn has_any_attr(&self) -> (r: bool)
        ensures
            r == self@.has_any(),
    {
        self.qos.is_some() || self.priority.is_some() || self.name.is_some()
            || self.delay.is_some() || self.stack_size.is_some()
    }
}

} // verus!
