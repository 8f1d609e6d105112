//! Identifiers used as layer names, process types and buildpack ids.
//!
//! An identifier is a non-empty string over ASCII letters, ASCII digits and
//! the characters `.`, `_` and `-`.
use vstd::prelude::*;

verus! {

broadcast use vstd::string::axiom_spec_iter;

/// Whether `c` may appear in an identifier.
pub open spec fn is_identifier_char(c: char) -> bool {
    ('a' <= c && c <= 'z') || ('A' <= c && c <= 'Z') || ('0' <= c && c <= '9') || c == '.'
        || c == '_' || c == '-'
}

/// Whether `s` is a well-formed identifier.
pub open spec fn is_identifier(s: Seq<char>) -> bool {
    s.len() > 0 && forall|i: int| 0 <= i < s.len() ==> #[trigger] is_identifier_char(s[i])
}

/// Checks one character against the identifier alphabet.
pub fn identifier_char(c: char) -> (r: bool)
    ensures
        r == is_identifier_char(c),
{
    ('a' <= c && c <= 'z') || ('A' <= c && c <= 'Z') || ('0' <= c && c <= '9') || c == '.'
        || c == '_' || c == '-'
}

/// Checks a whole string against the identifier grammar.
pub fn validate_identifier(s: &str) -> (r: bool)
    ensures
        r == is_identifier(s@),
{
    let mut all_valid = true;
    for c in it: s.chars()
        invariant
            all_valid <==> forall|i: int| 0 <= i < it.index() ==> #[trigger] is_identifier_char(it.seq()[i]),
    {
        all_valid = all_valid && identifier_char(c);
    }
    !s.is_empty() && all_valid
}

/// What parsing `s` as an identifier gives: the string itself when it is
/// well-formed, otherwise an error that names it.
pub open spec fn parse_spec(s: Seq<char>) -> Result<Seq<char>, Seq<char>> {
    if is_identifier(s) {
        Ok(s)
    } else {
        Err(s)
    }
}

/// The type of a process in a launch descriptor.
#[derive(Debug, Eq, Hash)]
pub struct ProcessType {
    value: String,
}

/// A string that is not a valid process type.
#[derive(Debug, Clone, PartialEq, Eq)]
pub enum ProcessTypeError {
    InvalidValue(String),
}

impl View for ProcessType {
    type V = Seq<char>;

    closed spec fn view(&self) -> Seq<char> {
        self.value@
    }
}

impl ProcessType {
    #[verifier::type_invariant]
    spec fn wf(self) -> bool {
        is_identifier(self.value@)
    }

    /// Validates `s` and wraps it; the error carries `s` unchanged.
    pub fn parse(s: &str) -> (r: Result<ProcessType, ProcessTypeError>)
        ensures
            match r {
                Ok(t) => parse_spec(s@) == Ok::<Seq<char>, Seq<char>>(t@),
                Err(ProcessTypeError::InvalidValue(v)) => parse_spec(s@) == Err::<Seq<char>, Seq<char>>(v@),
            },
    {
        if validate_identifier(s) {
            Ok(ProcessType { value: s.to_owned() })
        } else {
            Err(ProcessTypeError::InvalidValue(s.to_owned()))
        }
    }

    /// Wraps a string known to be an identifier where it is written; an
    /// invalid literal is a verification failure, not a runtime one.
    pub fn from_literal(s: &str) -> (r: ProcessType)
        requires
            is_identifier(s@),
        ensures
            r@ == s@,
    {
        ProcessType { value: s.to_owned() }
    }

    pub fn as_str(&self) -> (r: &str)
        ensures
            r@ == self@,
            is_identifier(r@),
    {
        proof {
            use_type_invariant(self);
        }
        self.value.as_str()
    }
}

impl Clone for ProcessType {
    fn clone(&self) -> (r: ProcessType)
        ensures
            r@ == self@,
    {
        proof {
            use_type_invariant(self);
        }
        ProcessType { value: self.value.clone() }
    }
}

impl PartialEq for ProcessType {
    fn eq(&self, o: &ProcessType) -> (r: bool) {
        self.value == o.value
    }
}

impl vstd::std_specs::cmp::PartialEqSpecImpl for ProcessType {
    open spec fn obeys_eq_spec() -> bool {
        true
    }

    open spec fn eq_spec(&self, o: &ProcessType) -> bool {
        self@ == o@
    }
}

impl std::str::FromStr for ProcessType {
    type Err = ProcessTypeError;

    fn from_str(s: &str) -> Result<ProcessType, ProcessTypeError> {
        ProcessType::parse(s)
    }
}

/// The name of a layer, also the name of its directory and sidecar file.
#[derive(Debug, Eq, Hash)]
pub struct LayerName {
    value: String,
}

/// A string that is not a valid layer name.
#[derive(Debug, Clone, PartialEq, Eq)]
pub enum LayerNameError {
    InvalidValue(String),
}

impl View for LayerName {
    type V = Seq<char>;

    closed spec fn view(&self) -> Seq<char> {
        self.value@
    }
}

impl LayerName {
    #[verifier::type_invariant]
    spec fn wf(self) -> bool {
        is_identifier(self.value@)
    }

    /// Validates `s` and wraps it; the error carries `s` unchanged.
    pub fn parse(s: &str) -> (r: Result<LayerName, LayerNameError>)
        ensures
            match r {
                Ok(t) => parse_spec(s@) == Ok::<Seq<char>, Seq<char>>(t@),
                Err(LayerNameError::InvalidValue(v)) => parse_spec(s@) == Err::<Seq<char>, Seq<char>>(v@),
            },
    {
        if validate_identifier(s) {
            Ok(LayerName { value: s.to_owned() })
        } else {
            Err(LayerNameError::InvalidValue(s.to_owned()))
        }
    }

    /// Wraps a string known to be an identifier where it is written.
    pub fn from_literal(s: &str) -> (r: LayerName)
        requires
            is_identifier(s@),
        ensures
            r@ == s@,
    {
        LayerName { value: s.to_owned() }
    }

    pub fn as_str(&self) -> (r: &str)
        ensures
            r@ == self@,
            is_identifier(r@),
    {
        proof {
            use_type_invariant(self);
        }
        self.value.as_str()
    }
}

impl Clone for LayerName {
    fn clone(&self) -> (r: LayerName)
        ensures
            r@ == self@,
    {
        proof {
            use_type_invariant(self);
        }
        LayerName { value: self.value.clone() }
    }
}

impl PartialEq for LayerName {
    fn eq(&self, o: &LayerName) -> (r: bool) {
        self.value == o.value
    }
}

impl vstd::std_specs::cmp::PartialEqSpecImpl for LayerName {
    open spec fn obeys_eq_spec() -> bool {
        true
    }

    open spec fn eq_spec(&self, o: &LayerName) -> bool {
        self@ == o@
    }
}

impl std::str::FromStr for LayerName {
    type Err = LayerNameError;

    fn from_str(s: &str) -> Result<LayerName, LayerNameError> {
        LayerName::parse(s)
    }
}

/// Every well-formed identifier parses, and parsing gives back the very
/// same string. The empty string and every string holding a `/`, a `:` or
/// whitespace are refused, with an error that carries the string unchanged.
pub proof fn lemma_parse_round_trip(s: Seq<char>)
    ensures
        is_identifier(s) ==> parse_spec(s) == Ok::<Seq<char>, Seq<char>>(s),
        s.len() == 0 ==> parse_spec(s) == Err::<Seq<char>, Seq<char>>(s),
        (exists|i: int|
            0 <= i < s.len() && (#[trigger] s[i] == '/' || s[i] == ':' || s[i] == ' ' || s[i]
                == '\t' || s[i] == '\n' || s[i] == '\r')) ==> parse_spec(s) == Err::<
            Seq<char>,
            Seq<char>,
        >(s),
{
    if exists|i: int|
        0 <= i < s.len() && (#[trigger] s[i] == '/' || s[i] == ':' || s[i] == ' ' || s[i] == '\t'
            || s[i] == '\n' || s[i] == '\r') {
        let i = choose|i: int|
            0 <= i < s.len() && (#[trigger] s[i] == '/' || s[i] == ':' || s[i] == ' ' || s[i]
                == '\t' || s[i] == '\n' || s[i] == '\r');
        assert(!is_identifier_char(s[i]));
    }
}

} // verus!
