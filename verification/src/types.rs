use vstd::prelude::*;
use vstd::slice::slice_subrange;
use vstd::std_specs::convert::TryFromSpecImpl;
use crate::error::{RecordErrorView, RecordParseError, RoleParseError};
pub use crate::roles::{
    CRole, HttpRole, LrdRole, PhpRole, CmakeRole, NumpyRole, JavaRole, ZeekRole, CppRole,
    JsRole, MathRole, SipRole, SyntaxRole, PyRole, ConfigRole, LsRole, OcvRole, RubyRole,
    CommandsRole, StconfRole, RstRole,
};
use crate::roles::{
    lemma_c_role_reads_back, lemma_http_role_reads_back, lemma_lrd_role_reads_back,
    lemma_php_role_reads_back, lemma_cmake_role_reads_back, lemma_numpy_role_reads_back,
    lemma_java_role_reads_back, lemma_zeek_role_reads_back, lemma_cpp_role_reads_back,
    lemma_js_role_reads_back, lemma_math_role_reads_back, lemma_sip_role_reads_back,
    lemma_syntax_role_reads_back, lemma_py_role_reads_back, lemma_config_role_reads_back,
    lemma_ls_role_reads_back, lemma_ocv_role_reads_back, lemma_ruby_role_reads_back,
    lemma_commands_role_reads_back, lemma_stconf_role_reads_back, lemma_rst_role_reads_back,
};
use crate::record::{
    find_record, is_first_record, is_record_at, lemma_run_end, record_tail, run_end, CharClass,
};
use crate::text::{
    chars_are, chars_of, find_char, is_white_space, lemma_next_index_of, next_index_of, range_is, replace_char,
    replaced, string_of, string_of_range,
};

verus! {

/// A result seen through the views of its two sides.
pub open spec fn outcome<T: View, E: View>(r: Result<T, E>) -> Result<T::V, E::V> {
    match r {
        Ok(t) => Ok(t@),
        Err(e) => Err(e@),
    }
}

/// A role text of a strict domain gives the type text when it names a role,
/// and `InvalidRole` when it does not.
pub open spec fn known_role(known: bool, s: Seq<char>) -> Result<Seq<char>, RecordErrorView> {
    if known {
        Ok(s)
    } else {
        Err(RecordErrorView::InvalidRole)
    }
}

/// The type of an inventory entry: a domain together with a role of that
/// domain. The `std` domain takes any role text.
#[derive(Debug, PartialEq)]
pub enum SphinxType {
    Std(String),
    C(CRole),
    Python(PyRole),
    Cpp(CppRole),
    JavaScript(JsRole),
    Java(JavaRole),
    Mathematics(MathRole),
    Zeek(ZeekRole),
    ReStructuredText(RstRole),
    Lrd(LrdRole),
    Http(HttpRole),
    StConf(StconfRole),
    Syntax(SyntaxRole),
    Sip(SipRole),
    Config(ConfigRole),
    Ocv(OcvRole),
    Ruby(RubyRole),
    Ls(LsRole),
    Commands(CommandsRole),
    Numpy(NumpyRole),
    Php(PhpRole),
    Cmake(CmakeRole),
}

impl SphinxType {
    /// The text of this type's domain.
    pub open spec fn domain_name(self) -> Seq<char> {
        match self {
            SphinxType::Std(_) => "std"@,
            SphinxType::C(_) => "c"@,
            SphinxType::Python(_) => "py"@,
            SphinxType::Cpp(_) => "cpp"@,
            SphinxType::JavaScript(_) => "js"@,
            SphinxType::Java(_) => "java"@,
            SphinxType::Mathematics(_) => "math"@,
            SphinxType::Zeek(_) => "zeek"@,
            SphinxType::ReStructuredText(_) => "rst"@,
            SphinxType::Lrd(_) => "lrd"@,
            SphinxType::Http(_) => "http"@,
            SphinxType::StConf(_) => "stconf"@,
            SphinxType::Syntax(_) => "syntax"@,
            SphinxType::Sip(_) => "sip"@,
            SphinxType::Config(_) => "config"@,
            SphinxType::Ocv(_) => "ocv"@,
            SphinxType::Ruby(_) => "rb"@,
            SphinxType::Ls(_) => "ls"@,
            SphinxType::Commands(_) => "commands"@,
            SphinxType::Numpy(_) => "np"@,
            SphinxType::Php(_) => "php"@,
            SphinxType::Cmake(_) => "cmake"@,
        }
    }

    /// The text of this type's role.
    pub open spec fn role_name(self) -> Seq<char> {
        match self {
            SphinxType::Std(x) => x@,
            SphinxType::C(x) => x.spec_name(),
            SphinxType::Python(x) => x.spec_name(),
            SphinxType::Cpp(x) => x.spec_name(),
            SphinxType::JavaScript(x) => x.spec_name(),
            SphinxType::Java(x) => x.spec_name(),
            SphinxType::Mathematics(x) => x.spec_name(),
            SphinxType::Zeek(x) => x.spec_name(),
            SphinxType::ReStructuredText(x) => x.spec_name(),
            SphinxType::Lrd(x) => x.spec_name(),
            SphinxType::Http(x) => x.spec_name(),
            SphinxType::StConf(x) => x.spec_name(),
            SphinxType::Syntax(x) => x.spec_name(),
            SphinxType::Sip(x) => x.spec_name(),
            SphinxType::Config(x) => x.spec_name(),
            SphinxType::Ocv(x) => x.spec_name(),
            SphinxType::Ruby(x) => x.spec_name(),
            SphinxType::Ls(x) => x.spec_name(),
            SphinxType::Commands(x) => x.spec_name(),
            SphinxType::Numpy(x) => x.spec_name(),
            SphinxType::Php(x) => x.spec_name(),
            SphinxType::Cmake(x) => x.spec_name(),
        }
    }
}

/// What reading the type text `s` gives: `s` itself when it denotes a type,
/// else the error. The domain is the text before the first `:`, the role the
/// text after it.
pub open spec fn parse_type_spec(s: Seq<char>) -> Result<Seq<char>, RecordErrorView> {
    let k = next_index_of(s, ':', 0);
    if k >= s.len() {
        Err(RecordErrorView::MalformedDomainField(s))
    } else {
        let domain = s.take(k);
        let role = s.skip(k + 1);
        if domain == "std"@ {
            Ok(s)
        } else if domain == "c"@ {
            known_role(CRole::from_name(role) is Some, s)
        } else if domain == "cpp"@ {
            known_role(CppRole::from_name(role) is Some, s)
        } else if domain == "py"@ {
            known_role(PyRole::from_name(role) is Some, s)
        } else if domain == "js"@ {
            known_role(JsRole::from_name(role) is Some, s)
        } else if domain == "java"@ {
            known_role(JavaRole::from_name(role) is Some, s)
        } else if domain == "math"@ {
            known_role(MathRole::from_name(role) is Some, s)
        } else if domain == "zeek"@ {
            known_role(ZeekRole::from_name(role) is Some, s)
        } else if domain == "rst"@ {
            if RstRole::from_name(role) is Some {
                Ok(s)
            } else {
                Err(RecordErrorView::InvalidDomain(role))
            }
        } else if domain == "lrd"@ {
            known_role(LrdRole::from_name(role) is Some, s)
        } else if domain == "http"@ {
            known_role(HttpRole::from_name(role) is Some, s)
        } else if domain == "stconf"@ {
            known_role(StconfRole::from_name(role) is Some, s)
        } else if domain == "syntax"@ {
            known_role(SyntaxRole::from_name(role) is Some, s)
        } else if domain == "sip"@ {
            known_role(SipRole::from_name(role) is Some, s)
        } else if domain == "config"@ {
            known_role(ConfigRole::from_name(role) is Some, s)
        } else if domain == "ocv"@ {
            known_role(OcvRole::from_name(role) is Some, s)
        } else if domain == "rb"@ {
            known_role(RubyRole::from_name(role) is Some, s)
        } else if domain == "ls"@ {
            known_role(LsRole::from_name(role) is Some, s)
        } else if domain == "commands"@ {
            known_role(CommandsRole::from_name(role) is Some, s)
        } else if domain == "np"@ {
            known_role(NumpyRole::from_name(role) is Some, s)
        } else if domain == "php"@ {
            known_role(PhpRole::from_name(role) is Some, s)
        } else if domain == "cmake"@ {
            known_role(CmakeRole::from_name(role) is Some, s)
        } else {
            Err(RecordErrorView::InvalidDomain(domain))
        }
    }
}

/// Reads a type from the characters `s`.
pub fn parse_type_chars(s: &[char]) -> (r: Result<SphinxType, RecordParseError>)
    ensures
        outcome(r) == parse_type_spec(s@),
{
    let n = s.len();
    let k = find_char(s, ':', 0);
    proof {
        lemma_next_index_of(s@, ':', 0);
    }
    if k >= n {
        return Err(RecordParseError::MalformedDomainField(string_of(s)));
    }
    let role = slice_subrange(s, k + 1, n);
    proof {
        assert(s@ =~= s@.take(k as int) + seq![':'] + s@.skip(k + 1));
        assert(role@ =~= s@.skip(k + 1));
    }
    if range_is(s, 0, k, "std") {
        return Ok(SphinxType::Std(string_of(role)));
    }
    if range_is(s, 0, k, "c") {
        return match CRole::from_chars(role) {
            Some(x) => Ok(SphinxType::C(x)),
            None => Err(RecordParseError::InvalidRole(RoleParseError::VariantNotFound)),
        };
    }
    if range_is(s, 0, k, "cpp") {
        return match CppRole::from_chars(role) {
            Some(x) => Ok(SphinxType::Cpp(x)),
            None => Err(RecordParseError::InvalidRole(RoleParseError::VariantNotFound)),
        };
    }
    if range_is(s, 0, k, "py") {
        return match PyRole::from_chars(role) {
            Some(x) => Ok(SphinxType::Python(x)),
            None => Err(RecordParseError::InvalidRole(RoleParseError::VariantNotFound)),
        };
    }
    if range_is(s, 0, k, "js") {
        return match JsRole::from_chars(role) {
            Some(x) => Ok(SphinxType::JavaScript(x)),
            None => Err(RecordParseError::InvalidRole(RoleParseError::VariantNotFound)),
        };
    }
    if range_is(s, 0, k, "java") {
        return match JavaRole::from_chars(role) {
            Some(x) => Ok(SphinxType::Java(x)),
            None => Err(RecordParseError::InvalidRole(RoleParseError::VariantNotFound)),
        };
    }
    if range_is(s, 0, k, "math") {
        return match MathRole::from_chars(role) {
            Some(x) => Ok(SphinxType::Mathematics(x)),
            None => Err(RecordParseError::InvalidRole(RoleParseError::VariantNotFound)),
        };
    }
    if range_is(s, 0, k, "zeek") {
        return match ZeekRole::from_chars(role) {
            Some(x) => Ok(SphinxType::Zeek(x)),
            None => Err(RecordParseError::InvalidRole(RoleParseError::VariantNotFound)),
        };
    }
    if range_is(s, 0, k, "rst") {
        return match RstRole::from_chars(role) {
            Some(x) => Ok(SphinxType::ReStructuredText(x)),
            None => Err(RecordParseError::InvalidDomain(string_of(role))),
        };
    }
    if range_is(s, 0, k, "lrd") {
        return match LrdRole::from_chars(role) {
            Some(x) => Ok(SphinxType::Lrd(x)),
            None => Err(RecordParseError::InvalidRole(RoleParseError::VariantNotFound)),
        };
    }
    if range_is(s, 0, k, "http") {
        return match HttpRole::from_chars(role) {
            Some(x) => Ok(SphinxType::Http(x)),
            None => Err(RecordParseError::InvalidRole(RoleParseError::VariantNotFound)),
        };
    }
    if range_is(s, 0, k, "stconf") {
        return match StconfRole::from_chars(role) {
            Some(x) => Ok(SphinxType::StConf(x)),
            None => Err(RecordParseError::InvalidRole(RoleParseError::VariantNotFound)),
        };
    }
    if range_is(s, 0, k, "syntax") {
        return match SyntaxRole::from_chars(role) {
            Some(x) => Ok(SphinxType::Syntax(x)),
            None => Err(RecordParseError::InvalidRole(RoleParseError::VariantNotFound)),
        };
    }
    if range_is(s, 0, k, "sip") {
        return match SipRole::from_chars(role) {
            Some(x) => Ok(SphinxType::Sip(x)),
            None => Err(RecordParseError::InvalidRole(RoleParseError::VariantNotFound)),
        };
    }
    if range_is(s, 0, k, "config") {
        return match ConfigRole::from_chars(role) {
            Some(x) => Ok(SphinxType::Config(x)),
            None => Err(RecordParseError::InvalidRole(RoleParseError::VariantNotFound)),
        };
    }
    if range_is(s, 0, k, "ocv") {
        return match OcvRole::from_chars(role) {
            Some(x) => Ok(SphinxType::Ocv(x)),
            None => Err(RecordParseError::InvalidRole(RoleParseError::VariantNotFound)),
        };
    }
    if range_is(s, 0, k, "rb") {
        return match RubyRole::from_chars(role) {
            Some(x) => Ok(SphinxType::Ruby(x)),
            None => Err(RecordParseError::InvalidRole(RoleParseError::VariantNotFound)),
        };
    }
    if range_is(s, 0, k, "ls") {
        return match LsRole::from_chars(role) {
            Some(x) => Ok(SphinxType::Ls(x)),
            None => Err(RecordParseError::InvalidRole(RoleParseError::VariantNotFound)),
        };
    }
    if range_is(s, 0, k, "commands") {
        return match CommandsRole::from_chars(role) {
            Some(x) => Ok(SphinxType::Commands(x)),
            None => Err(RecordParseError::InvalidRole(RoleParseError::VariantNotFound)),
        };
    }
    if range_is(s, 0, k, "np") {
        return match NumpyRole::from_chars(role) {
            Some(x) => Ok(SphinxType::Numpy(x)),
            None => Err(RecordParseError::InvalidRole(RoleParseError::VariantNotFound)),
        };
    }
    if range_is(s, 0, k, "php") {
        return match PhpRole::from_chars(role) {
            Some(x) => Ok(SphinxType::Php(x)),
            None => Err(RecordParseError::InvalidRole(RoleParseError::VariantNotFound)),
        };
    }
    if range_is(s, 0, k, "cmake") {
        return match CmakeRole::from_chars(role) {
            Some(x) => Ok(SphinxType::Cmake(x)),
            None => Err(RecordParseError::InvalidRole(RoleParseError::VariantNotFound)),
        };
    }
    Err(RecordParseError::InvalidDomain(string_of_range(s, 0, k)))
}

impl View for SphinxType {
    type V = Seq<char>;

    /// The text `domain:role` that denotes the type in an inventory.
    open spec fn view(&self) -> Seq<char> {
        self.domain_name() + seq![':'] + self.role_name()
    }
}

impl<'a> TryFrom<&'a str> for SphinxType {
    type Error = RecordParseError;

    fn try_from(value: &'a str) -> (r: Result<SphinxType, RecordParseError>)
        ensures
            outcome(r) == parse_type_spec(value@),
    {
        let cs = chars_of(value);
        parse_type_chars(cs.as_slice())
    }
}

/// The value read holds `String`s, which a spec function cannot build from
/// their text; `try_from` states its result over views instead, so the
/// trait's generic statement is not claimed.
impl<'a> TryFromSpecImpl<&'a str> for SphinxType {
    open spec fn obeys_try_from_spec() -> bool {
        false
    }

    open spec fn try_from_spec(v: &'a str) -> Result<SphinxType, RecordParseError> {
        arbitrary()
    }
}

/// How prominently an entry is listed in search results.
#[derive(Debug, Clone, Copy, PartialEq, Eq, Structural)]
pub enum SphinxPriority {
    Omit,
    Standard,
    High,
    Low,
}

/// The priority that the text `s` denotes, if any.
pub open spec fn parse_priority_spec(s: Seq<char>) -> Option<SphinxPriority> {
    if s == "-1"@ {
        Some(SphinxPriority::Omit)
    } else if s == "1"@ {
        Some(SphinxPriority::Standard)
    } else if s == "0"@ {
        Some(SphinxPriority::High)
    } else if s == "2"@ {
        Some(SphinxPriority::Low)
    } else {
        None
    }
}

impl SphinxPriority {
    /// The priority that the characters `s` denote, if any.
    pub fn from_chars(s: &[char]) -> (r: Option<SphinxPriority>)
        ensures
            r == parse_priority_spec(s@),
    {
        if chars_are(s, "-1") {
            Some(SphinxPriority::Omit)
        } else if chars_are(s, "1") {
            Some(SphinxPriority::Standard)
        } else if chars_are(s, "0") {
            Some(SphinxPriority::High)
        } else if chars_are(s, "2") {
            Some(SphinxPriority::Low)
        } else {
            None
        }
    }
}

impl<'a> TryFrom<&'a str> for SphinxPriority {
    type Error = RecordParseError;

    fn try_from(value: &'a str) -> (r: Result<SphinxPriority, RecordParseError>)
        ensures
            match r {
                Ok(p) => parse_priority_spec(value@) == Some(p),
                Err(e) => parse_priority_spec(value@) is None && e@ == RecordErrorView::InvalidRowPriority(
                    value@,
                ),
            },
    {
        let cs = chars_of(value);
        match SphinxPriority::from_chars(cs.as_slice()) {
            Some(p) => Ok(p),
            None => Err(RecordParseError::InvalidRowPriority(string_of(cs.as_slice()))),
        }
    }
}

/// `try_from` states its result with `parse_priority_spec` and the error's
/// view; the error holds a `String`, which a spec function cannot build from
/// its text, so the trait's generic statement is not claimed.
impl<'a> TryFromSpecImpl<&'a str> for SphinxPriority {
    open spec fn obeys_try_from_spec() -> bool {
        false
    }

    open spec fn try_from_spec(v: &'a str) -> Result<SphinxPriority, RecordParseError> {
        arbitrary()
    }
}

/// The text under which an entry is shown.
pub type Dispname = String;

/// One entry of an inventory: an object of some project's documentation.
#[derive(Debug)]
pub struct ExternalSphinxRef {
    pub name: String,
    pub sphinx_type: SphinxType,
    pub priority: SphinxPriority,
    pub location: String,
    pub dispname: String,
}

/// `ExternalSphinxRef` with its texts as character sequences and its type as
/// the type's text.
pub struct SphinxRefView {
    pub name: Seq<char>,
    pub sphinx_type: Seq<char>,
    pub priority: SphinxPriority,
    pub location: Seq<char>,
    pub dispname: Seq<char>,
}

impl View for ExternalSphinxRef {
    type V = SphinxRefView;

    open spec fn view(&self) -> SphinxRefView {
        SphinxRefView {
            name: self.name@,
            sphinx_type: self.sphinx_type@,
            priority: self.priority,
            location: self.location@,
            dispname: self.dispname@,
        }
    }
}

/// What reading the record line `line` gives. The fields are cut as
/// `is_first_record` and `record_tail` say. A type text without `:` is
/// refused; then the type is read, then the priority. Each `$` of the
/// location stands for the name, and a display name of `-` for the name.
pub open spec fn parse_record_spec(line: Seq<char>) -> Result<SphinxRefView, RecordErrorView> {
    if exists|st: int, e: int| is_first_record(line, st, e) {
        let (st, e) = choose|st: int, e: int| is_first_record(line, st, e);
        let f = record_tail(line, e).unwrap();
        let name = line.subrange(st, e);
        let ty = line.subrange(f.sphinx_type.0, f.sphinx_type.1);
        let prio = line.subrange(f.priority.0, f.priority.1);
        let loc = line.subrange(f.location.0, f.location.1);
        let disp = line.subrange(f.dispname.0, f.dispname.1);
        if !ty.contains(':') {
            Err(RecordErrorView::MalformedType(ty))
        } else {
            match parse_type_spec(ty) {
                Err(err) => Err(err),
                Ok(_) => match parse_priority_spec(prio) {
                    None => Err(RecordErrorView::InvalidRowPriority(prio)),
                    Some(p) => Ok(
                        SphinxRefView {
                            name,
                            sphinx_type: ty,
                            priority: p,
                            location: replace_char(loc, '$', name),
                            dispname: if disp == "-"@ {
                                name
                            } else {
                                disp
                            },
                        },
                    ),
                },
            }
        }
    } else {
        Err(RecordErrorView::MalformedRecord(line))
    }
}

proof fn lemma_first_record_unique(s: Seq<char>, a: int, b: int, c: int, d: int)
    requires
        is_first_record(s, a, b),
        is_first_record(s, c, d),
    ensures
        a == c && b == d,
{
    assert(is_record_at(s, c, d));
    assert(is_record_at(s, a, b));
}

/// Reads one record line given as characters.
pub fn parse_record_chars(line: &[char]) -> (r: Result<ExternalSphinxRef, RecordParseError>)
    ensures
        outcome(r) == parse_record_spec(line@),
{
    match find_record(line) {
        None => Err(RecordParseError::MalformedRecord(string_of(line))),
        Some((st, e, f)) => {
            proof {
                let (a, b) = choose|a: int, b: int| is_first_record(line@, a, b);
                lemma_first_record_unique(line@, a, b, st as int, e as int);
            }
            let ty = slice_subrange(line, f.type_start, f.type_end);
            let colon = find_char(ty, ':', 0);
            proof {
                lemma_next_index_of(ty@, ':', 0);
            }
            if colon >= ty.len() {
                return Err(RecordParseError::MalformedType(string_of(ty)));
            }
            assert(ty@.contains(':')) by {
                assert(ty@[colon as int] == ':');
            }
            let name = slice_subrange(line, st, e);
            let dispname = if range_is(line, f.dispname_start, f.dispname_end, "-") {
                string_of(name)
            } else {
                string_of_range(line, f.dispname_start, f.dispname_end)
            };
            let location = replaced(slice_subrange(line, f.location_start, f.location_end), '$', name);
            let sphinx_type = match parse_type_chars(ty) {
                Ok(t) => t,
                Err(err) => return Err(err),
            };
            let prio = slice_subrange(line, f.priority_start, f.priority_end);
            let priority = match SphinxPriority::from_chars(prio) {
                Some(p) => p,
                None => return Err(RecordParseError::InvalidRowPriority(string_of(prio))),
            };
            Ok(ExternalSphinxRef { name: string_of(name), sphinx_type, priority, location, dispname })
        },
    }
}

impl<'a> TryFrom<&'a str> for ExternalSphinxRef {
    type Error = RecordParseError;

    fn try_from(value: &'a str) -> (r: Result<ExternalSphinxRef, RecordParseError>)
        ensures
            outcome(r) == parse_record_spec(value@),
    {
        let cs = chars_of(value);
        parse_record_chars(cs.as_slice())
    }
}

/// The value read holds `String`s, which a spec function cannot build from
/// their text; `try_from` states its result over views instead, so the
/// trait's generic statement is not claimed.
impl<'a> TryFromSpecImpl<&'a str> for ExternalSphinxRef {
    open spec fn obeys_try_from_spec() -> bool {
        false
    }

    open spec fn try_from_spec(v: &'a str) -> Result<ExternalSphinxRef, RecordParseError> {
        arbitrary()
    }
}

proof fn lemma_first_index_at<T>(s: Seq<T>, x: T, i: int, m: int)
    requires
        0 <= i <= m < s.len(),
        s[m] == x,
        forall|k: int| i <= k < m ==> s[k] != x,
    ensures
        next_index_of(s, x, i) == m,
    decreases m - i,
{
    if i < m {
        lemma_first_index_at(s, x, i + 1, m);
    }
}

/// The domain texts are told apart by their first characters and lengths.
proof fn lemma_domain_texts()
    ensures
        "std"@.len() == 3 && "std"@[0] == 's' && "std"@[1] == 't',
        "c"@.len() == 1 && "c"@[0] == 'c',
        "cpp"@.len() == 3 && "cpp"@[0] == 'c' && "cpp"@[1] == 'p',
        "py"@.len() == 2 && "py"@[0] == 'p' && "py"@[1] == 'y',
        "js"@.len() == 2 && "js"@[0] == 'j' && "js"@[1] == 's',
        "java"@.len() == 4 && "java"@[0] == 'j' && "java"@[1] == 'a',
        "math"@.len() == 4 && "math"@[0] == 'm' && "math"@[1] == 'a',
        "zeek"@.len() == 4 && "zeek"@[0] == 'z' && "zeek"@[1] == 'e',
        "rst"@.len() == 3 && "rst"@[0] == 'r' && "rst"@[1] == 's',
        "lrd"@.len() == 3 && "lrd"@[0] == 'l' && "lrd"@[1] == 'r',
        "http"@.len() == 4 && "http"@[0] == 'h' && "http"@[1] == 't',
        "stconf"@.len() == 6 && "stconf"@[0] == 's' && "stconf"@[1] == 't',
        "syntax"@.len() == 6 && "syntax"@[0] == 's' && "syntax"@[1] == 'y',
        "sip"@.len() == 3 && "sip"@[0] == 's' && "sip"@[1] == 'i',
        "config"@.len() == 6 && "config"@[0] == 'c' && "config"@[1] == 'o',
        "ocv"@.len() == 3 && "ocv"@[0] == 'o' && "ocv"@[1] == 'c',
        "rb"@.len() == 2 && "rb"@[0] == 'r' && "rb"@[1] == 'b',
        "ls"@.len() == 2 && "ls"@[0] == 'l' && "ls"@[1] == 's',
        "commands"@.len() == 8 && "commands"@[0] == 'c' && "commands"@[1] == 'o',
        "np"@.len() == 2 && "np"@[0] == 'n' && "np"@[1] == 'p',
        "php"@.len() == 3 && "php"@[0] == 'p' && "php"@[1] == 'h',
        "cmake"@.len() == 5 && "cmake"@[0] == 'c' && "cmake"@[1] == 'm',
{
    reveal_strlit("std");
    reveal_strlit("c");
    reveal_strlit("cpp");
    reveal_strlit("py");
    reveal_strlit("js");
    reveal_strlit("java");
    reveal_strlit("math");
    reveal_strlit("zeek");
    reveal_strlit("rst");
    reveal_strlit("lrd");
    reveal_strlit("http");
    reveal_strlit("stconf");
    reveal_strlit("syntax");
    reveal_strlit("sip");
    reveal_strlit("config");
    reveal_strlit("ocv");
    reveal_strlit("rb");
    reveal_strlit("ls");
    reveal_strlit("commands");
    reveal_strlit("np");
    reveal_strlit("php");
    reveal_strlit("cmake");
}

/// The text of a domain holds no `:`.
proof fn lemma_domain_has_no_colon(t: SphinxType)
    ensures
        forall|k: int| 0 <= k < t.domain_name().len() ==> #[trigger] t.domain_name()[k] != ':',
{
    reveal_strlit("std");
    reveal_strlit("c");
    reveal_strlit("cpp");
    reveal_strlit("py");
    reveal_strlit("js");
    reveal_strlit("java");
    reveal_strlit("math");
    reveal_strlit("zeek");
    reveal_strlit("rst");
    reveal_strlit("lrd");
    reveal_strlit("http");
    reveal_strlit("stconf");
    reveal_strlit("syntax");
    reveal_strlit("sip");
    reveal_strlit("config");
    reveal_strlit("ocv");
    reveal_strlit("rb");
    reveal_strlit("ls");
    reveal_strlit("commands");
    reveal_strlit("np");
    reveal_strlit("php");
    reveal_strlit("cmake");
    match t {
        SphinxType::Std(_) => {
            assert forall|k: int| 0 <= k < 3 implies #[trigger] "std"@[k] != ':' by {
                assert(k == 0 || k == 1 || k == 2);
            }
        },
        SphinxType::C(_) => {
            assert forall|k: int| 0 <= k < 1 implies #[trigger] "c"@[k] != ':' by {
                assert(k == 0);
            }
        },
        SphinxType::Cpp(_) => {
            assert forall|k: int| 0 <= k < 3 implies #[trigger] "cpp"@[k] != ':' by {
                assert(k == 0 || k == 1 || k == 2);
            }
        },
        SphinxType::Python(_) => {
            assert forall|k: int| 0 <= k < 2 implies #[trigger] "py"@[k] != ':' by {
                assert(k == 0 || k == 1);
            }
        },
        SphinxType::JavaScript(_) => {
            assert forall|k: int| 0 <= k < 2 implies #[trigger] "js"@[k] != ':' by {
                assert(k == 0 || k == 1);
            }
        },
        SphinxType::Java(_) => {
            assert forall|k: int| 0 <= k < 4 implies #[trigger] "java"@[k] != ':' by {
                assert(k == 0 || k == 1 || k == 2 || k == 3);
            }
        },
        SphinxType::Mathematics(_) => {
            assert forall|k: int| 0 <= k < 4 implies #[trigger] "math"@[k] != ':' by {
                assert(k == 0 || k == 1 || k == 2 || k == 3);
            }
        },
        SphinxType::Zeek(_) => {
            assert forall|k: int| 0 <= k < 4 implies #[trigger] "zeek"@[k] != ':' by {
                assert(k == 0 || k == 1 || k == 2 || k == 3);
            }
        },
        SphinxType::ReStructuredText(_) => {
            assert forall|k: int| 0 <= k < 3 implies #[trigger] "rst"@[k] != ':' by {
                assert(k == 0 || k == 1 || k == 2);
            }
        },
        SphinxType::Lrd(_) => {
            assert forall|k: int| 0 <= k < 3 implies #[trigger] "lrd"@[k] != ':' by {
                assert(k == 0 || k == 1 || k == 2);
            }
        },
        SphinxType::Http(_) => {
            assert forall|k: int| 0 <= k < 4 implies #[trigger] "http"@[k] != ':' by {
                assert(k == 0 || k == 1 || k == 2 || k == 3);
            }
        },
        SphinxType::StConf(_) => {
            assert forall|k: int| 0 <= k < 6 implies #[trigger] "stconf"@[k] != ':' by {
                assert(k == 0 || k == 1 || k == 2 || k == 3 || k == 4 || k == 5);
            }
        },
        SphinxType::Syntax(_) => {
            assert forall|k: int| 0 <= k < 6 implies #[trigger] "syntax"@[k] != ':' by {
                assert(k == 0 || k == 1 || k == 2 || k == 3 || k == 4 || k == 5);
            }
        },
        SphinxType::Sip(_) => {
            assert forall|k: int| 0 <= k < 3 implies #[trigger] "sip"@[k] != ':' by {
                assert(k == 0 || k == 1 || k == 2);
            }
        },
        SphinxType::Config(_) => {
            assert forall|k: int| 0 <= k < 6 implies #[trigger] "config"@[k] != ':' by {
                assert(k == 0 || k == 1 || k == 2 || k == 3 || k == 4 || k == 5);
            }
        },
        SphinxType::Ocv(_) => {
            assert forall|k: int| 0 <= k < 3 implies #[trigger] "ocv"@[k] != ':' by {
                assert(k == 0 || k == 1 || k == 2);
            }
        },
        SphinxType::Ruby(_) => {
            assert forall|k: int| 0 <= k < 2 implies #[trigger] "rb"@[k] != ':' by {
                assert(k == 0 || k == 1);
            }
        },
        SphinxType::Ls(_) => {
            assert forall|k: int| 0 <= k < 2 implies #[trigger] "ls"@[k] != ':' by {
                assert(k == 0 || k == 1);
            }
        },
        SphinxType::Commands(_) => {
            assert forall|k: int| 0 <= k < 8 implies #[trigger] "commands"@[k] != ':' by {
                assert(k == 0 || k == 1 || k == 2 || k == 3 || k == 4 || k == 5 || k == 6 || k == 7);
            }
        },
        SphinxType::Numpy(_) => {
            assert forall|k: int| 0 <= k < 2 implies #[trigger] "np"@[k] != ':' by {
                assert(k == 0 || k == 1);
            }
        },
        SphinxType::Php(_) => {
            assert forall|k: int| 0 <= k < 3 implies #[trigger] "php"@[k] != ':' by {
                assert(k == 0 || k == 1 || k == 2);
            }
        },
        SphinxType::Cmake(_) => {
            assert forall|k: int| 0 <= k < 5 implies #[trigger] "cmake"@[k] != ':' by {
                assert(k == 0 || k == 1 || k == 2 || k == 3 || k == 4);
            }
        },
    }
}

/// The text of a type cut at its first `:` gives back its domain and role.
proof fn lemma_type_text_cut(t: SphinxType)
    ensures
        next_index_of(t@, ':', 0) == t.domain_name().len(),
        t@.take(t.domain_name().len() as int) == t.domain_name(),
        t@.skip(t.domain_name().len() as int + 1) == t.role_name(),
{
    lemma_domain_has_no_colon(t);
    let d = t.domain_name();
    let s = t@;
    assert forall|k: int| 0 <= k < d.len() implies s[k] != ':' by {
        assert(s[k] == d[k]);
    }
    lemma_first_index_at(s, ':', 0, d.len() as int);
    assert(s.take(d.len() as int) =~= d);
    assert(s.skip(d.len() as int + 1) =~= t.role_name());
}

/// Every type reads back from its own text.
pub proof fn lemma_type_text_reads_back(t: SphinxType)
    ensures
        parse_type_spec(t@) == Ok::<Seq<char>, RecordErrorView>(t@),
{
    lemma_type_text_cut(t);
    lemma_domain_texts();
    match t {
        SphinxType::Std(_) => {},
        SphinxType::C(x) => lemma_c_role_reads_back(x),
        SphinxType::Cpp(x) => lemma_cpp_role_reads_back(x),
        SphinxType::Python(x) => lemma_py_role_reads_back(x),
        SphinxType::JavaScript(x) => lemma_js_role_reads_back(x),
        SphinxType::Java(x) => lemma_java_role_reads_back(x),
        SphinxType::Mathematics(x) => lemma_math_role_reads_back(x),
        SphinxType::Zeek(x) => lemma_zeek_role_reads_back(x),
        SphinxType::ReStructuredText(x) => lemma_rst_role_reads_back(x),
        SphinxType::Lrd(x) => lemma_lrd_role_reads_back(x),
        SphinxType::Http(x) => lemma_http_role_reads_back(x),
        SphinxType::StConf(x) => lemma_stconf_role_reads_back(x),
        SphinxType::Syntax(x) => lemma_syntax_role_reads_back(x),
        SphinxType::Sip(x) => lemma_sip_role_reads_back(x),
        SphinxType::Config(x) => lemma_config_role_reads_back(x),
        SphinxType::Ocv(x) => lemma_ocv_role_reads_back(x),
        SphinxType::Ruby(x) => lemma_ruby_role_reads_back(x),
        SphinxType::Ls(x) => lemma_ls_role_reads_back(x),
        SphinxType::Commands(x) => lemma_commands_role_reads_back(x),
        SphinxType::Numpy(x) => lemma_numpy_role_reads_back(x),
        SphinxType::Php(x) => lemma_php_role_reads_back(x),
        SphinxType::Cmake(x) => lemma_cmake_role_reads_back(x),
    }
}

/// A type's text determines the type; for `std`, the role's text.
pub proof fn lemma_type_text_determines_type(a: SphinxType, b: SphinxType)
    requires
        a@ == b@,
    ensures
        match (a, b) {
            (SphinxType::Std(x), SphinxType::Std(y)) => x@ == y@,
            _ => a == b,
        },
{
    lemma_type_text_cut(a);
    lemma_type_text_cut(b);
    lemma_domain_texts();
    assert(a.domain_name() == b.domain_name());
    assert(a.role_name() == b.role_name());
    match (a, b) {
        (SphinxType::Std(_), SphinxType::Std(_)) => {},
        (SphinxType::C(x), SphinxType::C(y)) => {
            lemma_c_role_reads_back(x);
            lemma_c_role_reads_back(y);
        },
        (SphinxType::Cpp(x), SphinxType::Cpp(y)) => {
            lemma_cpp_role_reads_back(x);
            lemma_cpp_role_reads_back(y);
        },
        (SphinxType::Python(x), SphinxType::Python(y)) => {
            lemma_py_role_reads_back(x);
            lemma_py_role_reads_back(y);
        },
        (SphinxType::JavaScript(x), SphinxType::JavaScript(y)) => {
            lemma_js_role_reads_back(x);
            lemma_js_role_reads_back(y);
        },
        (SphinxType::Java(x), SphinxType::Java(y)) => {
            lemma_java_role_reads_back(x);
            lemma_java_role_reads_back(y);
        },
        (SphinxType::Mathematics(x), SphinxType::Mathematics(y)) => {
            lemma_math_role_reads_back(x);
            lemma_math_role_reads_back(y);
        },
        (SphinxType::Zeek(x), SphinxType::Zeek(y)) => {
            lemma_zeek_role_reads_back(x);
            lemma_zeek_role_reads_back(y);
        },
        (SphinxType::ReStructuredText(x), SphinxType::ReStructuredText(y)) => {
            lemma_rst_role_reads_back(x);
            lemma_rst_role_reads_back(y);
        },
        (SphinxType::Lrd(x), SphinxType::Lrd(y)) => {
            lemma_lrd_role_reads_back(x);
            lemma_lrd_role_reads_back(y);
        },
        (SphinxType::Http(x), SphinxType::Http(y)) => {
            lemma_http_role_reads_back(x);
            lemma_http_role_reads_back(y);
        },
        (SphinxType::StConf(x), SphinxType::StConf(y)) => {
            lemma_stconf_role_reads_back(x);
            lemma_stconf_role_reads_back(y);
        },
        (SphinxType::Syntax(x), SphinxType::Syntax(y)) => {
            lemma_syntax_role_reads_back(x);
            lemma_syntax_role_reads_back(y);
        },
        (SphinxType::Sip(x), SphinxType::Sip(y)) => {
            lemma_sip_role_reads_back(x);
            lemma_sip_role_reads_back(y);
        },
        (SphinxType::Config(x), SphinxType::Config(y)) => {
            lemma_config_role_reads_back(x);
            lemma_config_role_reads_back(y);
        },
        (SphinxType::Ocv(x), SphinxType::Ocv(y)) => {
            lemma_ocv_role_reads_back(x);
            lemma_ocv_role_reads_back(y);
        },
        (SphinxType::Ruby(x), SphinxType::Ruby(y)) => {
            lemma_ruby_role_reads_back(x);
            lemma_ruby_role_reads_back(y);
        },
        (SphinxType::Ls(x), SphinxType::Ls(y)) => {
            lemma_ls_role_reads_back(x);
            lemma_ls_role_reads_back(y);
        },
        (SphinxType::Commands(x), SphinxType::Commands(y)) => {
            lemma_commands_role_reads_back(x);
            lemma_commands_role_reads_back(y);
        },
        (SphinxType::Numpy(x), SphinxType::Numpy(y)) => {
            lemma_numpy_role_reads_back(x);
            lemma_numpy_role_reads_back(y);
        },
        (SphinxType::Php(x), SphinxType::Php(y)) => {
            lemma_php_role_reads_back(x);
            lemma_php_role_reads_back(y);
        },
        (SphinxType::Cmake(x), SphinxType::Cmake(y)) => {
            lemma_cmake_role_reads_back(x);
            lemma_cmake_role_reads_back(y);
        },
        _ => {},
    }
}


/// The fields of a record lie in order on the line: each field after the
/// name starts right after white space, and the display field runs to the
/// end of its line.
proof fn lemma_record_tail_shape(s: Seq<char>, e: int)
    requires
        0 <= e <= s.len(),
        record_tail(s, e) is Some,
    ensures
        ({
            let f = record_tail(s, e).unwrap();
            &&& e < f.dispname.0 <= s.len()
            &&& is_white_space(s[f.dispname.0 - 1])
            &&& f.dispname.1 == next_index_of(s, '\n', f.dispname.0)
            &&& e < s.len() && is_white_space(s[e])
            &&& e < f.sphinx_type.0 < f.sphinx_type.1 <= s.len()
            &&& forall|k: int| f.sphinx_type.0 <= k < f.sphinx_type.1 ==> !is_white_space(#[trigger] s[k])
            &&& 0 < f.location.0 <= f.location.1 <= s.len()
            &&& is_white_space(s[f.location.0 - 1])
            &&& forall|k: int| f.location.0 <= k < f.location.1 ==> !is_white_space(#[trigger] s[k])
        }),
{
    let b = run_end(s, e, CharClass::Blank);
    lemma_run_end(s, e, CharClass::Blank);
    let c = run_end(s, b, CharClass::NonBlank);
    lemma_run_end(s, b, CharClass::NonBlank);
    let d = run_end(s, c, CharClass::Blank);
    lemma_run_end(s, c, CharClass::Blank);
    let g = if 0 <= d < s.len() && s[d] == '-' { d + 1 } else { d };
    let h = run_end(s, g, CharClass::Digit);
    lemma_run_end(s, g, CharClass::Digit);
    let i = run_end(s, h, CharClass::Blank);
    lemma_run_end(s, h, CharClass::Blank);
    let j = run_end(s, i, CharClass::NonBlank);
    lemma_run_end(s, i, CharClass::NonBlank);
    let k = run_end(s, j, CharClass::Blank);
    lemma_run_end(s, j, CharClass::Blank);
    assert(CharClass::Blank.holds(s[e]));
    assert forall|x: int| b <= x < c implies !is_white_space(#[trigger] s[x]) by {
        assert(CharClass::NonBlank.holds(s[x]));
    }
    if i - h >= 2 {
        assert(CharClass::Blank.holds(s[i - 1]));
        assert(CharClass::Blank.holds(s[h]));
    } else {
        assert(CharClass::Blank.holds(s[k - 1]));
        assert(CharClass::Blank.holds(s[i - 1]));
        assert forall|x: int| i <= x < j implies !is_white_space(#[trigger] s[x]) by {
            assert(CharClass::NonBlank.holds(s[x]));
        }
    }
}

/// The display name of an entry is never cut short: unless its field is
/// `-` (and then it is the name), it is all of the line from the start of
/// its field, which follows white space, to the end of the line.
pub proof fn lemma_dispname_runs_to_line_end(line: Seq<char>)
    ensures
        parse_record_spec(line) matches Ok(v) ==> exists|k: int|
            {
                &&& 0 < k <= line.len()
                &&& is_white_space(line[k - 1])
                &&& {
                    let field = #[trigger] line.subrange(k, next_index_of(line, '\n', k));
                    ||| (field != "-"@ && v.dispname == field)
                    ||| (field == "-"@ && v.dispname == v.name)
                }
            },
{
    if parse_record_spec(line) is Ok {
        let (st, e) = choose|st: int, e: int| is_first_record(line, st, e);
        let f = record_tail(line, e).unwrap();
        lemma_record_tail_shape(line, e);
        let k = f.dispname.0;
        assert(line.subrange(k, next_index_of(line, '\n', k)) == line.subrange(f.dispname.0, f.dispname.1));
    }
}


/// The name, type and location of an entry come from its line: the name is
/// a non-empty piece of one line followed by white space; the type is a
/// non-empty text without white space that holds a `:` and reads as a type;
/// the location is a piece of the line without white space that follows
/// white space, with each `$` in it replaced by the name.
pub proof fn lemma_record_fields_come_from_the_line(line: Seq<char>)
    ensures
        parse_record_spec(line) matches Ok(v) ==> {
            &&& v.name.len() > 0
            &&& !v.name.contains('\n')
            &&& exists|st: int|
                0 <= st && st + v.name.len() < line.len() && #[trigger] line.subrange(
                    st,
                    st + v.name.len(),
                ) == v.name && is_white_space(line[st + v.name.len()])
            &&& v.sphinx_type.len() > 0
            &&& v.sphinx_type.contains(':')
            &&& parse_type_spec(v.sphinx_type) == Ok::<Seq<char>, RecordErrorView>(v.sphinx_type)
            &&& forall|k: int| 0 <= k < v.sphinx_type.len() ==> !is_white_space(#[trigger] v.sphinx_type[k])
            &&& exists|lo: int, hi: int|
                {
                    &&& 0 < lo <= hi <= line.len()
                    &&& is_white_space(line[lo - 1])
                    &&& forall|k: int| lo <= k < hi ==> !is_white_space(#[trigger] line[k])
                    &&& v.location == replace_char(#[trigger] line.subrange(lo, hi), '$', v.name)
                }
        },
{
    if parse_record_spec(line) is Ok {
        let v = parse_record_spec(line)->Ok_0;
        let (st, e) = choose|st: int, e: int| is_first_record(line, st, e);
        let f = record_tail(line, e).unwrap();
        lemma_record_tail_shape(line, e);
        let name = line.subrange(st, e);
        assert(v.name == name);
        assert(line.subrange(st, st + v.name.len()) == v.name);
        assert(!v.name.contains('\n')) by {
            if v.name.contains('\n') {
                let k = choose|k: int| 0 <= k < v.name.len() && v.name[k] == '\n';
                assert(line[st + k] == '\n');
            }
        }
        let ty = line.subrange(f.sphinx_type.0, f.sphinx_type.1);
        assert(v.sphinx_type == ty);
        assert forall|k: int| 0 <= k < ty.len() implies !is_white_space(#[trigger] ty[k]) by {
            assert(ty[k] == line[f.sphinx_type.0 + k]);
        }
        let loc = line.subrange(f.location.0, f.location.1);
        assert(v.location == replace_char(loc, '$', v.name));
    }
}


/// Exactly the four texts `-1`, `0`, `1`, `2` are priorities, no two of them
/// the same one, and the one negative text is the one that omits the entry.
pub proof fn lemma_priority_texts(t: Seq<char>, u: Seq<char>)
    ensures
        parse_priority_spec(t) is Some <==> (t == "-1"@ || t == "0"@ || t == "1"@ || t == "2"@),
        parse_priority_spec(t) is Some && parse_priority_spec(t) == parse_priority_spec(u) ==> t == u,
        parse_priority_spec(t) == Some(SphinxPriority::Omit) <==> (parse_priority_spec(t) is Some
            && t[0] == '-'),
{
    reveal_strlit("-1");
    reveal_strlit("0");
    reveal_strlit("1");
    reveal_strlit("2");
    assert("-1"@.len() == 2 && "-1"@[0] == '-' && "0"@.len() == 1 && "0"@[0] == '0' && "1"@.len()
        == 1 && "1"@[0] == '1' && "2"@.len() == 1 && "2"@[0] == '2');
}

} // verus!
