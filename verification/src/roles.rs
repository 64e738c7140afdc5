use vstd::prelude::*;
use crate::error::{RecordErrorView, RecordParseError, RoleParseError};
use crate::text::{chars_are, chars_of, string_of};

verus! {

/// The roles of the `c` domain.
#[derive(Debug, Clone, Copy, PartialEq, Eq, Structural)]
pub enum CRole {
    Enum,
    Enumerator,
    Function,
    FunctionParam,
    Variable,
    Define,
    Namespace,
    Typedef,
    Enumvalue,
    Macro,
    Member,
    Type,
    Var,
    Struct,
    Union,
}

impl CRole {
    /// The text that denotes this role in an inventory.
    pub open spec fn spec_name(self) -> Seq<char> {
        match self {
            CRole::Enum => "enum"@,
            CRole::Enumerator => "enumerator"@,
            CRole::Function => "function"@,
            CRole::FunctionParam => "functionParam"@,
            CRole::Variable => "variable"@,
            CRole::Define => "define"@,
            CRole::Namespace => "namespace"@,
            CRole::Typedef => "typedef"@,
            CRole::Enumvalue => "enumvalue"@,
            CRole::Macro => "macro"@,
            CRole::Member => "member"@,
            CRole::Type => "type"@,
            CRole::Var => "var"@,
            CRole::Struct => "struct"@,
            CRole::Union => "union"@,
        }
    }

    /// The role that the text `s` denotes, if any.
    pub open spec fn from_name(s: Seq<char>) -> Option<CRole> {
        if s == "enum"@ {
            Some(CRole::Enum)
        } else if s == "enumerator"@ {
            Some(CRole::Enumerator)
        } else if s == "function"@ {
            Some(CRole::Function)
        } else if s == "functionParam"@ {
            Some(CRole::FunctionParam)
        } else if s == "variable"@ {
            Some(CRole::Variable)
        } else if s == "define"@ {
            Some(CRole::Define)
        } else if s == "namespace"@ {
            Some(CRole::Namespace)
        } else if s == "typedef"@ {
            Some(CRole::Typedef)
        } else if s == "enumvalue"@ {
            Some(CRole::Enumvalue)
        } else if s == "macro"@ {
            Some(CRole::Macro)
        } else if s == "member"@ {
            Some(CRole::Member)
        } else if s == "type"@ {
            Some(CRole::Type)
        } else if s == "var"@ {
            Some(CRole::Var)
        } else if s == "struct"@ {
            Some(CRole::Struct)
        } else if s == "union"@ {
            Some(CRole::Union)
        } else {
            None
        }
    }

    /// The role that the characters `s` denote, if any.
    pub fn from_chars(s: &[char]) -> (r: Option<CRole>)
        ensures
            r == CRole::from_name(s@),
            r matches Some(x) ==> x.spec_name() == s@,
    {
        if chars_are(s, "enum") {
            Some(CRole::Enum)
        } else if chars_are(s, "enumerator") {
            Some(CRole::Enumerator)
        } else if chars_are(s, "function") {
            Some(CRole::Function)
        } else if chars_are(s, "functionParam") {
            Some(CRole::FunctionParam)
        } else if chars_are(s, "variable") {
            Some(CRole::Variable)
        } else if chars_are(s, "define") {
            Some(CRole::Define)
        } else if chars_are(s, "namespace") {
            Some(CRole::Namespace)
        } else if chars_are(s, "typedef") {
            Some(CRole::Typedef)
        } else if chars_are(s, "enumvalue") {
            Some(CRole::Enumvalue)
        } else if chars_are(s, "macro") {
            Some(CRole::Macro)
        } else if chars_are(s, "member") {
            Some(CRole::Member)
        } else if chars_are(s, "type") {
            Some(CRole::Type)
        } else if chars_are(s, "var") {
            Some(CRole::Var)
        } else if chars_are(s, "struct") {
            Some(CRole::Struct)
        } else if chars_are(s, "union") {
            Some(CRole::Union)
        } else {
            None
        }
    }
}

impl core::str::FromStr for CRole {
    type Err = RoleParseError;

    /// Reads a role from its text; the text must match exactly.
    fn from_str(s: &str) -> (r: Result<CRole, RoleParseError>)
        ensures
            match r {
                Ok(x) => CRole::from_name(s@) == Some(x),
                Err(e) => CRole::from_name(s@) is None && e == RoleParseError::VariantNotFound,
            },
    {
        let cs = chars_of(s);
        match CRole::from_chars(cs.as_slice()) {
            Some(x) => Ok(x),
            None => Err(RoleParseError::VariantNotFound),
        }
    }
}

/// The roles of the `http` domain.
#[derive(Debug, Clone, Copy, PartialEq, Eq, Structural)]
pub enum HttpRole {
    Get,
    Post,
    Head,
    Copy,
    Put,
    Delete,
    Patch,
    Any,
}

impl HttpRole {
    /// The text that denotes this role in an inventory.
    pub open spec fn spec_name(self) -> Seq<char> {
        match self {
            HttpRole::Get => "get"@,
            HttpRole::Post => "post"@,
            HttpRole::Head => "head"@,
            HttpRole::Copy => "copy"@,
            HttpRole::Put => "put"@,
            HttpRole::Delete => "delete"@,
            HttpRole::Patch => "patch"@,
            HttpRole::Any => "any"@,
        }
    }

    /// The role that the text `s` denotes, if any.
    pub open spec fn from_name(s: Seq<char>) -> Option<HttpRole> {
        if s == "get"@ {
            Some(HttpRole::Get)
        } else if s == "post"@ {
            Some(HttpRole::Post)
        } else if s == "head"@ {
            Some(HttpRole::Head)
        } else if s == "copy"@ {
            Some(HttpRole::Copy)
        } else if s == "put"@ {
            Some(HttpRole::Put)
        } else if s == "delete"@ {
            Some(HttpRole::Delete)
        } else if s == "patch"@ {
            Some(HttpRole::Patch)
        } else if s == "any"@ {
            Some(HttpRole::Any)
        } else {
            None
        }
    }

    /// The role that the characters `s` denote, if any.
    pub fn from_chars(s: &[char]) -> (r: Option<HttpRole>)
        ensures
            r == HttpRole::from_name(s@),
            r matches Some(x) ==> x.spec_name() == s@,
    {
        if chars_are(s, "get") {
            Some(HttpRole::Get)
        } else if chars_are(s, "post") {
            Some(HttpRole::Post)
        } else if chars_are(s, "head") {
            Some(HttpRole::Head)
        } else if chars_are(s, "copy") {
            Some(HttpRole::Copy)
        } else if chars_are(s, "put") {
            Some(HttpRole::Put)
        } else if chars_are(s, "delete") {
            Some(HttpRole::Delete)
        } else if chars_are(s, "patch") {
            Some(HttpRole::Patch)
        } else if chars_are(s, "any") {
            Some(HttpRole::Any)
        } else {
            None
        }
    }
}

impl core::str::FromStr for HttpRole {
    type Err = RoleParseError;

    /// Reads a role from its text; the text must match exactly.
    fn from_str(s: &str) -> (r: Result<HttpRole, RoleParseError>)
        ensures
            match r {
                Ok(x) => HttpRole::from_name(s@) == Some(x),
                Err(e) => HttpRole::from_name(s@) is None && e == RoleParseError::VariantNotFound,
            },
    {
        let cs = chars_of(s);
        match HttpRole::from_chars(cs.as_slice()) {
            Some(x) => Ok(x),
            None => Err(RoleParseError::VariantNotFound),
        }
    }
}

/// The roles of the `lrd` domain.
#[derive(Debug, Clone, Copy, PartialEq, Eq, Structural)]
pub enum LrdRole {
    Label,
    Doc,
}

impl LrdRole {
    /// The text that denotes this role in an inventory.
    pub open spec fn spec_name(self) -> Seq<char> {
        match self {
            LrdRole::Label => "label"@,
            LrdRole::Doc => "doc"@,
        }
    }

    /// The role that the text `s` denotes, if any.
    pub open spec fn from_name(s: Seq<char>) -> Option<LrdRole> {
        if s == "label"@ {
            Some(LrdRole::Label)
        } else if s == "doc"@ {
            Some(LrdRole::Doc)
        } else {
            None
        }
    }

    /// The role that the characters `s` denote, if any.
    pub fn from_chars(s: &[char]) -> (r: Option<LrdRole>)
        ensures
            r == LrdRole::from_name(s@),
            r matches Some(x) ==> x.spec_name() == s@,
    {
        if chars_are(s, "label") {
            Some(LrdRole::Label)
        } else if chars_are(s, "doc") {
            Some(LrdRole::Doc)
        } else {
            None
        }
    }
}

impl core::str::FromStr for LrdRole {
    type Err = RoleParseError;

    /// Reads a role from its text; the text must match exactly.
    fn from_str(s: &str) -> (r: Result<LrdRole, RoleParseError>)
        ensures
            match r {
                Ok(x) => LrdRole::from_name(s@) == Some(x),
                Err(e) => LrdRole::from_name(s@) is None && e == RoleParseError::VariantNotFound,
            },
    {
        let cs = chars_of(s);
        match LrdRole::from_chars(cs.as_slice()) {
            Some(x) => Ok(x),
            None => Err(RoleParseError::VariantNotFound),
        }
    }
}

/// The roles of the `php` domain.
#[derive(Debug, Clone, Copy, PartialEq, Eq, Structural)]
pub enum PhpRole {
    Function,
    Method,
    Const,
    Interface,
    Staticmethod,
    Namespace,
    Trait,
    Class,
}

impl PhpRole {
    /// The text that denotes this role in an inventory.
    pub open spec fn spec_name(self) -> Seq<char> {
        match self {
            PhpRole::Function => "function"@,
            PhpRole::Method => "method"@,
            PhpRole::Const => "const"@,
            PhpRole::Interface => "interface"@,
            PhpRole::Staticmethod => "staticmethod"@,
            PhpRole::Namespace => "namespace"@,
            PhpRole::Trait => "trait"@,
            PhpRole::Class => "class"@,
        }
    }

    /// The role that the text `s` denotes, if any.
    pub open spec fn from_name(s: Seq<char>) -> Option<PhpRole> {
        if s == "function"@ {
            Some(PhpRole::Function)
        } else if s == "method"@ {
            Some(PhpRole::Method)
        } else if s == "const"@ {
            Some(PhpRole::Const)
        } else if s == "interface"@ {
            Some(PhpRole::Interface)
        } else if s == "staticmethod"@ {
            Some(PhpRole::Staticmethod)
        } else if s == "namespace"@ {
            Some(PhpRole::Namespace)
        } else if s == "trait"@ {
            Some(PhpRole::Trait)
        } else if s == "class"@ {
            Some(PhpRole::Class)
        } else {
            None
        }
    }

    /// The role that the characters `s` denote, if any.
    pub fn from_chars(s: &[char]) -> (r: Option<PhpRole>)
        ensures
            r == PhpRole::from_name(s@),
            r matches Some(x) ==> x.spec_name() == s@,
    {
        if chars_are(s, "function") {
            Some(PhpRole::Function)
        } else if chars_are(s, "method") {
            Some(PhpRole::Method)
        } else if chars_are(s, "const") {
            Some(PhpRole::Const)
        } else if chars_are(s, "interface") {
            Some(PhpRole::Interface)
        } else if chars_are(s, "staticmethod") {
            Some(PhpRole::Staticmethod)
        } else if chars_are(s, "namespace") {
            Some(PhpRole::Namespace)
        } else if chars_are(s, "trait") {
            Some(PhpRole::Trait)
        } else if chars_are(s, "class") {
            Some(PhpRole::Class)
        } else {
            None
        }
    }
}

impl core::str::FromStr for PhpRole {
    type Err = RoleParseError;

    /// Reads a role from its text; the text must match exactly.
    fn from_str(s: &str) -> (r: Result<PhpRole, RoleParseError>)
        ensures
            match r {
                Ok(x) => PhpRole::from_name(s@) == Some(x),
                Err(e) => PhpRole::from_name(s@) is None && e == RoleParseError::VariantNotFound,
            },
    {
        let cs = chars_of(s);
        match PhpRole::from_chars(cs.as_slice()) {
            Some(x) => Ok(x),
            None => Err(RoleParseError::VariantNotFound),
        }
    }
}

/// The roles of the `cmake` domain.
#[derive(Debug, Clone, Copy, PartialEq, Eq, Structural)]
pub enum CmakeRole {
    Variable,
    Module,
    Manual,
    PropCache,
    Guide,
    Genex,
    Generator,
    CpackGen,
    Command,
    Envvar,
    PropTgt,
    PropTest,
    PropSf,
    PropInst,
    PropGbl,
    PropDir,
    Policy,
}

impl CmakeRole {
    /// The text that denotes this role in an inventory.
    pub open spec fn spec_name(self) -> Seq<char> {
        match self {
            CmakeRole::Variable => "variable"@,
            CmakeRole::Module => "module"@,
            CmakeRole::Manual => "manual"@,
            CmakeRole::PropCache => "prop_cache"@,
            CmakeRole::Guide => "guide"@,
            CmakeRole::Genex => "genex"@,
            CmakeRole::Generator => "generator"@,
            CmakeRole::CpackGen => "cpack_gen"@,
            CmakeRole::Command => "command"@,
            CmakeRole::Envvar => "envvar"@,
            CmakeRole::PropTgt => "prop_tgt"@,
            CmakeRole::PropTest => "prop_test"@,
            CmakeRole::PropSf => "prop_sf"@,
            CmakeRole::PropInst => "prop_inst"@,
            CmakeRole::PropGbl => "prop_gbl"@,
            CmakeRole::PropDir => "prop_dir"@,
            CmakeRole::Policy => "policy"@,
        }
    }

    /// The role that the text `s` denotes, if any.
    pub open spec fn from_name(s: Seq<char>) -> Option<CmakeRole> {
        if s == "variable"@ {
            Some(CmakeRole::Variable)
        } else if s == "module"@ {
            Some(CmakeRole::Module)
        } else if s == "manual"@ {
            Some(CmakeRole::Manual)
        } else if s == "prop_cache"@ {
            Some(CmakeRole::PropCache)
        } else if s == "guide"@ {
            Some(CmakeRole::Guide)
        } else if s == "genex"@ {
            Some(CmakeRole::Genex)
        } else if s == "generator"@ {
            Some(CmakeRole::Generator)
        } else if s == "cpack_gen"@ {
            Some(CmakeRole::CpackGen)
        } else if s == "command"@ {
            Some(CmakeRole::Command)
        } else if s == "envvar"@ {
            Some(CmakeRole::Envvar)
        } else if s == "prop_tgt"@ {
            Some(CmakeRole::PropTgt)
        } else if s == "prop_test"@ {
            Some(CmakeRole::PropTest)
        } else if s == "prop_sf"@ {
            Some(CmakeRole::PropSf)
        } else if s == "prop_inst"@ {
            Some(CmakeRole::PropInst)
        } else if s == "prop_gbl"@ {
            Some(CmakeRole::PropGbl)
        } else if s == "prop_dir"@ {
            Some(CmakeRole::PropDir)
        } else if s == "policy"@ {
            Some(CmakeRole::Policy)
        } else {
            None
        }
    }

    /// The role that the characters `s` denote, if any.
    pub fn from_chars(s: &[char]) -> (r: Option<CmakeRole>)
        ensures
            r == CmakeRole::from_name(s@),
            r matches Some(x) ==> x.spec_name() == s@,
    {
        if chars_are(s, "variable") {
            Some(CmakeRole::Variable)
        } else if chars_are(s, "module") {
            Some(CmakeRole::Module)
        } else if chars_are(s, "manual") {
            Some(CmakeRole::Manual)
        } else if chars_are(s, "prop_cache") {
            Some(CmakeRole::PropCache)
        } else if chars_are(s, "guide") {
            Some(CmakeRole::Guide)
        } else if chars_are(s, "genex") {
            Some(CmakeRole::Genex)
        } else if chars_are(s, "generator") {
            Some(CmakeRole::Generator)
        } else if chars_are(s, "cpack_gen") {
            Some(CmakeRole::CpackGen)
        } else if chars_are(s, "command") {
            Some(CmakeRole::Command)
        } else if chars_are(s, "envvar") {
            Some(CmakeRole::Envvar)
        } else if chars_are(s, "prop_tgt") {
            Some(CmakeRole::PropTgt)
        } else if chars_are(s, "prop_test") {
            Some(CmakeRole::PropTest)
        } else if chars_are(s, "prop_sf") {
            Some(CmakeRole::PropSf)
        } else if chars_are(s, "prop_inst") {
            Some(CmakeRole::PropInst)
        } else if chars_are(s, "prop_gbl") {
            Some(CmakeRole::PropGbl)
        } else if chars_are(s, "prop_dir") {
            Some(CmakeRole::PropDir)
        } else if chars_are(s, "policy") {
            Some(CmakeRole::Policy)
        } else {
            None
        }
    }
}

impl core::str::FromStr for CmakeRole {
    type Err = RoleParseError;

    /// Reads a role from its text; the text must match exactly.
    fn from_str(s: &str) -> (r: Result<CmakeRole, RoleParseError>)
        ensures
            match r {
                Ok(x) => CmakeRole::from_name(s@) == Some(x),
                Err(e) => CmakeRole::from_name(s@) is None && e == RoleParseError::VariantNotFound,
            },
    {
        let cs = chars_of(s);
        match CmakeRole::from_chars(cs.as_slice()) {
            Some(x) => Ok(x),
            None => Err(RoleParseError::VariantNotFound),
        }
    }
}

/// The roles of the `np` domain.
#[derive(Debug, Clone, Copy, PartialEq, Eq, Structural)]
pub enum NumpyRole {
    Class,
    Data,
    Function,
    Module,
    Method,
    Attribute,
}

impl NumpyRole {
    /// The text that denotes this role in an inventory.
    pub open spec fn spec_name(self) -> Seq<char> {
        match self {
            NumpyRole::Class => "class"@,
            NumpyRole::Data => "data"@,
            NumpyRole::Function => "function"@,
            NumpyRole::Module => "module"@,
            NumpyRole::Method => "method"@,
            NumpyRole::Attribute => "attribute"@,
        }
    }

    /// The role that the text `s` denotes, if any.
    pub open spec fn from_name(s: Seq<char>) -> Option<NumpyRole> {
        if s == "class"@ {
            Some(NumpyRole::Class)
        } else if s == "data"@ {
            Some(NumpyRole::Data)
        } else if s == "function"@ {
            Some(NumpyRole::Function)
        } else if s == "module"@ {
            Some(NumpyRole::Module)
        } else if s == "method"@ {
            Some(NumpyRole::Method)
        } else if s == "attribute"@ {
            Some(NumpyRole::Attribute)
        } else {
            None
        }
    }

    /// The role that the characters `s` denote, if any.
    pub fn from_chars(s: &[char]) -> (r: Option<NumpyRole>)
        ensures
            r == NumpyRole::from_name(s@),
            r matches Some(x) ==> x.spec_name() == s@,
    {
        if chars_are(s, "class") {
            Some(NumpyRole::Class)
        } else if chars_are(s, "data") {
            Some(NumpyRole::Data)
        } else if chars_are(s, "function") {
            Some(NumpyRole::Function)
        } else if chars_are(s, "module") {
            Some(NumpyRole::Module)
        } else if chars_are(s, "method") {
            Some(NumpyRole::Method)
        } else if chars_are(s, "attribute") {
            Some(NumpyRole::Attribute)
        } else {
            None
        }
    }
}

impl core::str::FromStr for NumpyRole {
    type Err = RoleParseError;

    /// Reads a role from its text; the text must match exactly.
    fn from_str(s: &str) -> (r: Result<NumpyRole, RoleParseError>)
        ensures
            match r {
                Ok(x) => NumpyRole::from_name(s@) == Some(x),
                Err(e) => NumpyRole::from_name(s@) is None && e == RoleParseError::VariantNotFound,
            },
    {
        let cs = chars_of(s);
        match NumpyRole::from_chars(cs.as_slice()) {
            Some(x) => Ok(x),
            None => Err(RoleParseError::VariantNotFound),
        }
    }
}

/// The roles of the `java` domain.
#[derive(Debug, Clone, Copy, PartialEq, Eq, Structural)]
pub enum JavaRole {
    Type,
}

impl JavaRole {
    /// The text that denotes this role in an inventory.
    pub open spec fn spec_name(self) -> Seq<char> {
        match self {
            JavaRole::Type => "type"@,
        }
    }

    /// The role that the text `s` denotes, if any.
    pub open spec fn from_name(s: Seq<char>) -> Option<JavaRole> {
        if s == "type"@ {
            Some(JavaRole::Type)
        } else {
            None
        }
    }

    /// The role that the characters `s` denote, if any.
    pub fn from_chars(s: &[char]) -> (r: Option<JavaRole>)
        ensures
            r == JavaRole::from_name(s@),
            r matches Some(x) ==> x.spec_name() == s@,
    {
        if chars_are(s, "type") {
            Some(JavaRole::Type)
        } else {
            None
        }
    }
}

impl core::str::FromStr for JavaRole {
    type Err = RoleParseError;

    /// Reads a role from its text; the text must match exactly.
    fn from_str(s: &str) -> (r: Result<JavaRole, RoleParseError>)
        ensures
            match r {
                Ok(x) => JavaRole::from_name(s@) == Some(x),
                Err(e) => JavaRole::from_name(s@) is None && e == RoleParseError::VariantNotFound,
            },
    {
        let cs = chars_of(s);
        match JavaRole::from_chars(cs.as_slice()) {
            Some(x) => Ok(x),
            None => Err(RoleParseError::VariantNotFound),
        }
    }
}

/// The roles of the `zeek` domain.
#[derive(Debug, Clone, Copy, PartialEq, Eq, Structural)]
pub enum ZeekRole {
    Id,
    Keyword,
    Attr,
    Type,
    Field,
    Enum,
    Namespace,
}

impl ZeekRole {
    /// The text that denotes this role in an inventory.
    pub open spec fn spec_name(self) -> Seq<char> {
        match self {
            ZeekRole::Id => "id"@,
            ZeekRole::Keyword => "keyword"@,
            ZeekRole::Attr => "attr"@,
            ZeekRole::Type => "type"@,
            ZeekRole::Field => "field"@,
            ZeekRole::Enum => "enum"@,
            ZeekRole::Namespace => "namespace"@,
        }
    }

    /// The role that the text `s` denotes, if any.
    pub open spec fn from_name(s: Seq<char>) -> Option<ZeekRole> {
        if s == "id"@ {
            Some(ZeekRole::Id)
        } else if s == "keyword"@ {
            Some(ZeekRole::Keyword)
        } else if s == "attr"@ {
            Some(ZeekRole::Attr)
        } else if s == "type"@ {
            Some(ZeekRole::Type)
        } else if s == "field"@ {
            Some(ZeekRole::Field)
        } else if s == "enum"@ {
            Some(ZeekRole::Enum)
        } else if s == "namespace"@ {
            Some(ZeekRole::Namespace)
        } else {
            None
        }
    }

    /// The role that the characters `s` denote, if any.
    pub fn from_chars(s: &[char]) -> (r: Option<ZeekRole>)
        ensures
            r == ZeekRole::from_name(s@),
            r matches Some(x) ==> x.spec_name() == s@,
    {
        if chars_are(s, "id") {
            Some(ZeekRole::Id)
        } else if chars_are(s, "keyword") {
            Some(ZeekRole::Keyword)
        } else if chars_are(s, "attr") {
            Some(ZeekRole::Attr)
        } else if chars_are(s, "type") {
            Some(ZeekRole::Type)
        } else if chars_are(s, "field") {
            Some(ZeekRole::Field)
        } else if chars_are(s, "enum") {
            Some(ZeekRole::Enum)
        } else if chars_are(s, "namespace") {
            Some(ZeekRole::Namespace)
        } else {
            None
        }
    }
}

impl core::str::FromStr for ZeekRole {
    type Err = RoleParseError;

    /// Reads a role from its text; the text must match exactly.
    fn from_str(s: &str) -> (r: Result<ZeekRole, RoleParseError>)
        ensures
            match r {
                Ok(x) => ZeekRole::from_name(s@) == Some(x),
                Err(e) => ZeekRole::from_name(s@) is None && e == RoleParseError::VariantNotFound,
            },
    {
        let cs = chars_of(s);
        match ZeekRole::from_chars(cs.as_slice()) {
            Some(x) => Ok(x),
            None => Err(RoleParseError::VariantNotFound),
        }
    }
}

/// The roles of the `cpp` domain.
#[derive(Debug, Clone, Copy, PartialEq, Eq, Structural)]
pub enum CppRole {
    Class,
    Union,
    Concept,
    Function,
    Type,
    Enumerator,
    Enum,
    FunctionParam,
    Member,
    TemplateParam,
}

impl CppRole {
    /// The text that denotes this role in an inventory.
    pub open spec fn spec_name(self) -> Seq<char> {
        match self {
            CppRole::Class => "class"@,
            CppRole::Union => "union"@,
            CppRole::Concept => "concept"@,
            CppRole::Function => "function"@,
            CppRole::Type => "type"@,
            CppRole::Enumerator => "enumerator"@,
            CppRole::Enum => "enum"@,
            CppRole::FunctionParam => "functionParam"@,
            CppRole::Member => "member"@,
            CppRole::TemplateParam => "templateParam"@,
        }
    }

    /// The role that the text `s` denotes, if any.
    pub open spec fn from_name(s: Seq<char>) -> Option<CppRole> {
        if s == "class"@ {
            Some(CppRole::Class)
        } else if s == "union"@ {
            Some(CppRole::Union)
        } else if s == "concept"@ {
            Some(CppRole::Concept)
        } else if s == "function"@ {
            Some(CppRole::Function)
        } else if s == "type"@ {
            Some(CppRole::Type)
        } else if s == "enumerator"@ {
            Some(CppRole::Enumerator)
        } else if s == "enum"@ {
            Some(CppRole::Enum)
        } else if s == "functionParam"@ {
            Some(CppRole::FunctionParam)
        } else if s == "member"@ {
            Some(CppRole::Member)
        } else if s == "templateParam"@ {
            Some(CppRole::TemplateParam)
        } else {
            None
        }
    }

    /// The role that the characters `s` denote, if any.
    pub fn from_chars(s: &[char]) -> (r: Option<CppRole>)
        ensures
            r == CppRole::from_name(s@),
            r matches Some(x) ==> x.spec_name() == s@,
    {
        if chars_are(s, "class") {
            Some(CppRole::Class)
        } else if chars_are(s, "union") {
            Some(CppRole::Union)
        } else if chars_are(s, "concept") {
            Some(CppRole::Concept)
        } else if chars_are(s, "function") {
            Some(CppRole::Function)
        } else if chars_are(s, "type") {
            Some(CppRole::Type)
        } else if chars_are(s, "enumerator") {
            Some(CppRole::Enumerator)
        } else if chars_are(s, "enum") {
            Some(CppRole::Enum)
        } else if chars_are(s, "functionParam") {
            Some(CppRole::FunctionParam)
        } else if chars_are(s, "member") {
            Some(CppRole::Member)
        } else if chars_are(s, "templateParam") {
            Some(CppRole::TemplateParam)
        } else {
            None
        }
    }
}

impl core::str::FromStr for CppRole {
    type Err = RoleParseError;

    /// Reads a role from its text; the text must match exactly.
    fn from_str(s: &str) -> (r: Result<CppRole, RoleParseError>)
        ensures
            match r {
                Ok(x) => CppRole::from_name(s@) == Some(x),
                Err(e) => CppRole::from_name(s@) is None && e == RoleParseError::VariantNotFound,
            },
    {
        let cs = chars_of(s);
        match CppRole::from_chars(cs.as_slice()) {
            Some(x) => Ok(x),
            None => Err(RoleParseError::VariantNotFound),
        }
    }
}

/// The roles of the `js` domain.
#[derive(Debug, Clone, Copy, PartialEq, Eq, Structural)]
pub enum JsRole {
    Module,
    Function,
    Method,
    Attribute,
    Class,
    Data,
}

impl JsRole {
    /// The text that denotes this role in an inventory.
    pub open spec fn spec_name(self) -> Seq<char> {
        match self {
            JsRole::Module => "module"@,
            JsRole::Function => "function"@,
            JsRole::Method => "method"@,
            JsRole::Attribute => "attribute"@,
            JsRole::Class => "class"@,
            JsRole::Data => "data"@,
        }
    }

    /// The role that the text `s` denotes, if any.
    pub open spec fn from_name(s: Seq<char>) -> Option<JsRole> {
        if s == "module"@ {
            Some(JsRole::Module)
        } else if s == "function"@ {
            Some(JsRole::Function)
        } else if s == "method"@ {
            Some(JsRole::Method)
        } else if s == "attribute"@ {
            Some(JsRole::Attribute)
        } else if s == "class"@ {
            Some(JsRole::Class)
        } else if s == "data"@ {
            Some(JsRole::Data)
        } else {
            None
        }
    }

    /// The role that the characters `s` denote, if any.
    pub fn from_chars(s: &[char]) -> (r: Option<JsRole>)
        ensures
            r == JsRole::from_name(s@),
            r matches Some(x) ==> x.spec_name() == s@,
    {
        if chars_are(s, "module") {
            Some(JsRole::Module)
        } else if chars_are(s, "function") {
            Some(JsRole::Function)
        } else if chars_are(s, "method") {
            Some(JsRole::Method)
        } else if chars_are(s, "attribute") {
            Some(JsRole::Attribute)
        } else if chars_are(s, "class") {
            Some(JsRole::Class)
        } else if chars_are(s, "data") {
            Some(JsRole::Data)
        } else {
            None
        }
    }
}

impl core::str::FromStr for JsRole {
    type Err = RoleParseError;

    /// Reads a role from its text; the text must match exactly.
    fn from_str(s: &str) -> (r: Result<JsRole, RoleParseError>)
        ensures
            match r {
                Ok(x) => JsRole::from_name(s@) == Some(x),
                Err(e) => JsRole::from_name(s@) is None && e == RoleParseError::VariantNotFound,
            },
    {
        let cs = chars_of(s);
        match JsRole::from_chars(cs.as_slice()) {
            Some(x) => Ok(x),
            None => Err(RoleParseError::VariantNotFound),
        }
    }
}

/// The roles of the `math` domain.
#[derive(Debug, Clone, Copy, PartialEq, Eq, Structural)]
pub enum MathRole {
    Numref,
}

impl MathRole {
    /// The text that denotes this role in an inventory.
    pub open spec fn spec_name(self) -> Seq<char> {
        match self {
            MathRole::Numref => "numref"@,
        }
    }

    /// The role that the text `s` denotes, if any.
    pub open spec fn from_name(s: Seq<char>) -> Option<MathRole> {
        if s == "numref"@ {
            Some(MathRole::Numref)
        } else {
            None
        }
    }

    /// The role that the characters `s` denote, if any.
    pub fn from_chars(s: &[char]) -> (r: Option<MathRole>)
        ensures
            r == MathRole::from_name(s@),
            r matches Some(x) ==> x.spec_name() == s@,
    {
        if chars_are(s, "numref") {
            Some(MathRole::Numref)
        } else {
            None
        }
    }
}

impl core::str::FromStr for MathRole {
    type Err = RoleParseError;

    /// Reads a role from its text; the text must match exactly.
    fn from_str(s: &str) -> (r: Result<MathRole, RoleParseError>)
        ensures
            match r {
                Ok(x) => MathRole::from_name(s@) == Some(x),
                Err(e) => MathRole::from_name(s@) is None && e == RoleParseError::VariantNotFound,
            },
    {
        let cs = chars_of(s);
        match MathRole::from_chars(cs.as_slice()) {
            Some(x) => Ok(x),
            None => Err(RoleParseError::VariantNotFound),
        }
    }
}

/// The roles of the `sip` domain.
#[derive(Debug, Clone, Copy, PartialEq, Eq, Structural)]
pub enum SipRole {
    Class,
    Method,
    Member,
    Enum,
    Signal,
    Attribute,
    Module,
}

impl SipRole {
    /// The text that denotes this role in an inventory.
    pub open spec fn spec_name(self) -> Seq<char> {
        match self {
            SipRole::Class => "class"@,
            SipRole::Method => "method"@,
            SipRole::Member => "member"@,
            SipRole::Enum => "enum"@,
            SipRole::Signal => "signal"@,
            SipRole::Attribute => "attribute"@,
            SipRole::Module => "module"@,
        }
    }

    /// The role that the text `s` denotes, if any.
    pub open spec fn from_name(s: Seq<char>) -> Option<SipRole> {
        if s == "class"@ {
            Some(SipRole::Class)
        } else if s == "method"@ {
            Some(SipRole::Method)
        } else if s == "member"@ {
            Some(SipRole::Member)
        } else if s == "enum"@ {
            Some(SipRole::Enum)
        } else if s == "signal"@ {
            Some(SipRole::Signal)
        } else if s == "attribute"@ {
            Some(SipRole::Attribute)
        } else if s == "module"@ {
            Some(SipRole::Module)
        } else {
            None
        }
    }

    /// The role that the characters `s` denote, if any.
    pub fn from_chars(s: &[char]) -> (r: Option<SipRole>)
        ensures
            r == SipRole::from_name(s@),
            r matches Some(x) ==> x.spec_name() == s@,
    {
        if chars_are(s, "class") {
            Some(SipRole::Class)
        } else if chars_are(s, "method") {
            Some(SipRole::Method)
        } else if chars_are(s, "member") {
            Some(SipRole::Member)
        } else if chars_are(s, "enum") {
            Some(SipRole::Enum)
        } else if chars_are(s, "signal") {
            Some(SipRole::Signal)
        } else if chars_are(s, "attribute") {
            Some(SipRole::Attribute)
        } else if chars_are(s, "module") {
            Some(SipRole::Module)
        } else {
            None
        }
    }
}

impl core::str::FromStr for SipRole {
    type Err = RoleParseError;

    /// Reads a role from its text; the text must match exactly.
    fn from_str(s: &str) -> (r: Result<SipRole, RoleParseError>)
        ensures
            match r {
                Ok(x) => SipRole::from_name(s@) == Some(x),
                Err(e) => SipRole::from_name(s@) is None && e == RoleParseError::VariantNotFound,
            },
    {
        let cs = chars_of(s);
        match SipRole::from_chars(cs.as_slice()) {
            Some(x) => Ok(x),
            None => Err(RoleParseError::VariantNotFound),
        }
    }
}

/// The roles of the `syntax` domain.
#[derive(Debug, Clone, Copy, PartialEq, Eq, Structural)]
pub enum SyntaxRole {
    Rule,
    Grammar,
}

impl SyntaxRole {
    /// The text that denotes this role in an inventory.
    pub open spec fn spec_name(self) -> Seq<char> {
        match self {
            SyntaxRole::Rule => "rule"@,
            SyntaxRole::Grammar => "grammar"@,
        }
    }

    /// The role that the text `s` denotes, if any.
    pub open spec fn from_name(s: Seq<char>) -> Option<SyntaxRole> {
        if s == "rule"@ {
            Some(SyntaxRole::Rule)
        } else if s == "grammar"@ {
            Some(SyntaxRole::Grammar)
        } else {
            None
        }
    }

    /// The role that the characters `s` denote, if any.
    pub fn from_chars(s: &[char]) -> (r: Option<SyntaxRole>)
        ensures
            r == SyntaxRole::from_name(s@),
            r matches Some(x) ==> x.spec_name() == s@,
    {
        if chars_are(s, "rule") {
            Some(SyntaxRole::Rule)
        } else if chars_are(s, "grammar") {
            Some(SyntaxRole::Grammar)
        } else {
            None
        }
    }
}

impl core::str::FromStr for SyntaxRole {
    type Err = RoleParseError;

    /// Reads a role from its text; the text must match exactly.
    fn from_str(s: &str) -> (r: Result<SyntaxRole, RoleParseError>)
        ensures
            match r {
                Ok(x) => SyntaxRole::from_name(s@) == Some(x),
                Err(e) => SyntaxRole::from_name(s@) is None && e == RoleParseError::VariantNotFound,
            },
    {
        let cs = chars_of(s);
        match SyntaxRole::from_chars(cs.as_slice()) {
            Some(x) => Ok(x),
            None => Err(RoleParseError::VariantNotFound),
        }
    }
}

/// The roles of the `py` domain.
#[derive(Debug, Clone, Copy, PartialEq, Eq, Structural)]
pub enum PyRole {
    Attribute,
    Namedtuple,
    Attr,
    Type,
    Data,
    Exception,
    Classmethod,
    Function,
    Field,
    Enum,
    Staticmethod,
    Method,
    Module,
    Property,
    Class,
    Interface,
    Parameter,
    Model,
}

impl PyRole {
    /// The text that denotes this role in an inventory.
    pub open spec fn spec_name(self) -> Seq<char> {
        match self {
            PyRole::Attribute => "attribute"@,
            PyRole::Namedtuple => "namedtuple"@,
            PyRole::Attr => "attr"@,
            PyRole::Type => "type"@,
            PyRole::Data => "data"@,
            PyRole::Exception => "exception"@,
            PyRole::Classmethod => "classmethod"@,
            PyRole::Function => "function"@,
            PyRole::Field => "field"@,
            PyRole::Enum => "enum"@,
            PyRole::Staticmethod => "staticmethod"@,
            PyRole::Method => "method"@,
            PyRole::Module => "module"@,
            PyRole::Property => "property"@,
            PyRole::Class => "class"@,
            PyRole::Interface => "interface"@,
            PyRole::Parameter => "parameter"@,
            PyRole::Model => "model"@,
        }
    }

    /// The role that the text `s` denotes, if any.
    pub open spec fn from_name(s: Seq<char>) -> Option<PyRole> {
        if s == "attribute"@ {
            Some(PyRole::Attribute)
        } else if s == "namedtuple"@ {
            Some(PyRole::Namedtuple)
        } else if s == "attr"@ {
            Some(PyRole::Attr)
        } else if s == "type"@ {
            Some(PyRole::Type)
        } else if s == "data"@ {
            Some(PyRole::Data)
        } else if s == "exception"@ {
            Some(PyRole::Exception)
        } else if s == "classmethod"@ {
            Some(PyRole::Classmethod)
        } else if s == "function"@ {
            Some(PyRole::Function)
        } else if s == "field"@ {
            Some(PyRole::Field)
        } else if s == "enum"@ {
            Some(PyRole::Enum)
        } else if s == "staticmethod"@ {
            Some(PyRole::Staticmethod)
        } else if s == "method"@ {
            Some(PyRole::Method)
        } else if s == "module"@ {
            Some(PyRole::Module)
        } else if s == "property"@ {
            Some(PyRole::Property)
        } else if s == "class"@ {
            Some(PyRole::Class)
        } else if s == "interface"@ {
            Some(PyRole::Interface)
        } else if s == "parameter"@ {
            Some(PyRole::Parameter)
        } else if s == "model"@ {
            Some(PyRole::Model)
        } else {
            None
        }
    }

    /// The role that the characters `s` denote, if any.
    pub fn from_chars(s: &[char]) -> (r: Option<PyRole>)
        ensures
            r == PyRole::from_name(s@),
            r matches Some(x) ==> x.spec_name() == s@,
    {
        if chars_are(s, "attribute") {
            Some(PyRole::Attribute)
        } else if chars_are(s, "namedtuple") {
            Some(PyRole::Namedtuple)
        } else if chars_are(s, "attr") {
            Some(PyRole::Attr)
        } else if chars_are(s, "type") {
            Some(PyRole::Type)
        } else if chars_are(s, "data") {
            Some(PyRole::Data)
        } else if chars_are(s, "exception") {
            Some(PyRole::Exception)
        } else if chars_are(s, "classmethod") {
            Some(PyRole::Classmethod)
        } else if chars_are(s, "function") {
            Some(PyRole::Function)
        } else if chars_are(s, "field") {
            Some(PyRole::Field)
        } else if chars_are(s, "enum") {
            Some(PyRole::Enum)
        } else if chars_are(s, "staticmethod") {
            Some(PyRole::Staticmethod)
        } else if chars_are(s, "method") {
            Some(PyRole::Method)
        } else if chars_are(s, "module") {
            Some(PyRole::Module)
        } else if chars_are(s, "property") {
            Some(PyRole::Property)
        } else if chars_are(s, "class") {
            Some(PyRole::Class)
        } else if chars_are(s, "interface") {
            Some(PyRole::Interface)
        } else if chars_are(s, "parameter") {
            Some(PyRole::Parameter)
        } else if chars_are(s, "model") {
            Some(PyRole::Model)
        } else {
            None
        }
    }
}

impl core::str::FromStr for PyRole {
    type Err = RoleParseError;

    /// Reads a role from its text; the text must match exactly.
    fn from_str(s: &str) -> (r: Result<PyRole, RoleParseError>)
        ensures
            match r {
                Ok(x) => PyRole::from_name(s@) == Some(x),
                Err(e) => PyRole::from_name(s@) is None && e == RoleParseError::VariantNotFound,
            },
    {
        let cs = chars_of(s);
        match PyRole::from_chars(cs.as_slice()) {
            Some(x) => Ok(x),
            None => Err(RoleParseError::VariantNotFound),
        }
    }
}

/// The roles of the `config` domain.
#[derive(Debug, Clone, Copy, PartialEq, Eq, Structural)]
pub enum ConfigRole {
    Option,
}

impl ConfigRole {
    /// The text that denotes this role in an inventory.
    pub open spec fn spec_name(self) -> Seq<char> {
        match self {
            ConfigRole::Option => "option"@,
        }
    }

    /// The role that the text `s` denotes, if any.
    pub open spec fn from_name(s: Seq<char>) -> Option<ConfigRole> {
        if s == "option"@ {
            Some(ConfigRole::Option)
        } else {
            None
        }
    }

    /// The role that the characters `s` denote, if any.
    pub fn from_chars(s: &[char]) -> (r: Option<ConfigRole>)
        ensures
            r == ConfigRole::from_name(s@),
            r matches Some(x) ==> x.spec_name() == s@,
    {
        if chars_are(s, "option") {
            Some(ConfigRole::Option)
        } else {
            None
        }
    }
}

impl core::str::FromStr for ConfigRole {
    type Err = RoleParseError;

    /// Reads a role from its text; the text must match exactly.
    fn from_str(s: &str) -> (r: Result<ConfigRole, RoleParseError>)
        ensures
            match r {
                Ok(x) => ConfigRole::from_name(s@) == Some(x),
                Err(e) => ConfigRole::from_name(s@) is None && e == RoleParseError::VariantNotFound,
            },
    {
        let cs = chars_of(s);
        match ConfigRole::from_chars(cs.as_slice()) {
            Some(x) => Ok(x),
            None => Err(RoleParseError::VariantNotFound),
        }
    }
}

/// The roles of the `ls` domain.
#[derive(Debug, Clone, Copy, PartialEq, Eq, Structural)]
pub enum LsRole {
    Member,
    Require,
    Method,
    Trait,
    Type,
    Provide,
}

impl LsRole {
    /// The text that denotes this role in an inventory.
    pub open spec fn spec_name(self) -> Seq<char> {
        match self {
            LsRole::Member => "member"@,
            LsRole::Require => "require"@,
            LsRole::Method => "method"@,
            LsRole::Trait => "trait"@,
            LsRole::Type => "type"@,
            LsRole::Provide => "provide"@,
        }
    }

    /// The role that the text `s` denotes, if any.
    pub open spec fn from_name(s: Seq<char>) -> Option<LsRole> {
        if s == "member"@ {
            Some(LsRole::Member)
        } else if s == "require"@ {
            Some(LsRole::Require)
        } else if s == "method"@ {
            Some(LsRole::Method)
        } else if s == "trait"@ {
            Some(LsRole::Trait)
        } else if s == "type"@ {
            Some(LsRole::Type)
        } else if s == "provide"@ {
            Some(LsRole::Provide)
        } else {
            None
        }
    }

    /// The role that the characters `s` denote, if any.
    pub fn from_chars(s: &[char]) -> (r: Option<LsRole>)
        ensures
            r == LsRole::from_name(s@),
            r matches Some(x) ==> x.spec_name() == s@,
    {
        if chars_are(s, "member") {
            Some(LsRole::Member)
        } else if chars_are(s, "require") {
            Some(LsRole::Require)
        } else if chars_are(s, "method") {
            Some(LsRole::Method)
        } else if chars_are(s, "trait") {
            Some(LsRole::Trait)
        } else if chars_are(s, "type") {
            Some(LsRole::Type)
        } else if chars_are(s, "provide") {
            Some(LsRole::Provide)
        } else {
            None
        }
    }
}

impl core::str::FromStr for LsRole {
    type Err = RoleParseError;

    /// Reads a role from its text; the text must match exactly.
    fn from_str(s: &str) -> (r: Result<LsRole, RoleParseError>)
        ensures
            match r {
                Ok(x) => LsRole::from_name(s@) == Some(x),
                Err(e) => LsRole::from_name(s@) is None && e == RoleParseError::VariantNotFound,
            },
    {
        let cs = chars_of(s);
        match LsRole::from_chars(cs.as_slice()) {
            Some(x) => Ok(x),
            None => Err(RoleParseError::VariantNotFound),
        }
    }
}

/// The roles of the `ocv` domain.
#[derive(Debug, Clone, Copy, PartialEq, Eq, Structural)]
pub enum OcvRole {
    Cfunction,
    Function,
    Enum,
    Class,
    Member,
    Pyfunction,
    Struct,
    Pyoldfunction,
    Emember,
}

impl OcvRole {
    /// The text that denotes this role in an inventory.
    pub open spec fn spec_name(self) -> Seq<char> {
        match self {
            OcvRole::Cfunction => "cfunction"@,
            OcvRole::Function => "function"@,
            OcvRole::Enum => "enum"@,
            OcvRole::Class => "class"@,
            OcvRole::Member => "member"@,
            OcvRole::Pyfunction => "pyfunction"@,
            OcvRole::Struct => "struct"@,
            OcvRole::Pyoldfunction => "pyoldfunction"@,
            OcvRole::Emember => "emember"@,
        }
    }

    /// The role that the text `s` denotes, if any.
    pub open spec fn from_name(s: Seq<char>) -> Option<OcvRole> {
        if s == "cfunction"@ {
            Some(OcvRole::Cfunction)
        } else if s == "function"@ {
            Some(OcvRole::Function)
        } else if s == "enum"@ {
            Some(OcvRole::Enum)
        } else if s == "class"@ {
            Some(OcvRole::Class)
        } else if s == "member"@ {
            Some(OcvRole::Member)
        } else if s == "pyfunction"@ {
            Some(OcvRole::Pyfunction)
        } else if s == "struct"@ {
            Some(OcvRole::Struct)
        } else if s == "pyoldfunction"@ {
            Some(OcvRole::Pyoldfunction)
        } else if s == "emember"@ {
            Some(OcvRole::Emember)
        } else {
            None
        }
    }

    /// The role that the characters `s` denote, if any.
    pub fn from_chars(s: &[char]) -> (r: Option<OcvRole>)
        ensures
            r == OcvRole::from_name(s@),
            r matches Some(x) ==> x.spec_name() == s@,
    {
        if chars_are(s, "cfunction") {
            Some(OcvRole::Cfunction)
        } else if chars_are(s, "function") {
            Some(OcvRole::Function)
        } else if chars_are(s, "enum") {
            Some(OcvRole::Enum)
        } else if chars_are(s, "class") {
            Some(OcvRole::Class)
        } else if chars_are(s, "member") {
            Some(OcvRole::Member)
        } else if chars_are(s, "pyfunction") {
            Some(OcvRole::Pyfunction)
        } else if chars_are(s, "struct") {
            Some(OcvRole::Struct)
        } else if chars_are(s, "pyoldfunction") {
            Some(OcvRole::Pyoldfunction)
        } else if chars_are(s, "emember") {
            Some(OcvRole::Emember)
        } else {
            None
        }
    }
}

impl core::str::FromStr for OcvRole {
    type Err = RoleParseError;

    /// Reads a role from its text; the text must match exactly.
    fn from_str(s: &str) -> (r: Result<OcvRole, RoleParseError>)
        ensures
            match r {
                Ok(x) => OcvRole::from_name(s@) == Some(x),
                Err(e) => OcvRole::from_name(s@) is None && e == RoleParseError::VariantNotFound,
            },
    {
        let cs = chars_of(s);
        match OcvRole::from_chars(cs.as_slice()) {
            Some(x) => Ok(x),
            None => Err(RoleParseError::VariantNotFound),
        }
    }
}

/// The roles of the `rb` domain.
#[derive(Debug, Clone, Copy, PartialEq, Eq, Structural)]
pub enum RubyRole {
    Option,
    AttrReader,
    Module,
    Class,
    Method,
    Const,
    AttrAccessor,
}

impl RubyRole {
    /// The text that denotes this role in an inventory.
    pub open spec fn spec_name(self) -> Seq<char> {
        match self {
            RubyRole::Option => "option"@,
            RubyRole::AttrReader => "attr_reader"@,
            RubyRole::Module => "module"@,
            RubyRole::Class => "class"@,
            RubyRole::Method => "method"@,
            RubyRole::Const => "const"@,
            RubyRole::AttrAccessor => "attr_accessor"@,
        }
    }

    /// The role that the text `s` denotes, if any.
    pub open spec fn from_name(s: Seq<char>) -> Option<RubyRole> {
        if s == "option"@ {
            Some(RubyRole::Option)
        } else if s == "attr_reader"@ {
            Some(RubyRole::AttrReader)
        } else if s == "module"@ {
            Some(RubyRole::Module)
        } else if s == "class"@ {
            Some(RubyRole::Class)
        } else if s == "method"@ {
            Some(RubyRole::Method)
        } else if s == "const"@ {
            Some(RubyRole::Const)
        } else if s == "attr_accessor"@ {
            Some(RubyRole::AttrAccessor)
        } else {
            None
        }
    }

    /// The role that the characters `s` denote, if any.
    pub fn from_chars(s: &[char]) -> (r: Option<RubyRole>)
        ensures
            r == RubyRole::from_name(s@),
            r matches Some(x) ==> x.spec_name() == s@,
    {
        if chars_are(s, "option") {
            Some(RubyRole::Option)
        } else if chars_are(s, "attr_reader") {
            Some(RubyRole::AttrReader)
        } else if chars_are(s, "module") {
            Some(RubyRole::Module)
        } else if chars_are(s, "class") {
            Some(RubyRole::Class)
        } else if chars_are(s, "method") {
            Some(RubyRole::Method)
        } else if chars_are(s, "const") {
            Some(RubyRole::Const)
        } else if chars_are(s, "attr_accessor") {
            Some(RubyRole::AttrAccessor)
        } else {
            None
        }
    }
}

impl core::str::FromStr for RubyRole {
    type Err = RoleParseError;

    /// Reads a role from its text; the text must match exactly.
    fn from_str(s: &str) -> (r: Result<RubyRole, RoleParseError>)
        ensures
            match r {
                Ok(x) => RubyRole::from_name(s@) == Some(x),
                Err(e) => RubyRole::from_name(s@) is None && e == RoleParseError::VariantNotFound,
            },
    {
        let cs = chars_of(s);
        match RubyRole::from_chars(cs.as_slice()) {
            Some(x) => Ok(x),
            None => Err(RoleParseError::VariantNotFound),
        }
    }
}

/// The roles of the `commands` domain.
#[derive(Debug, Clone, Copy, PartialEq, Eq, Structural)]
pub enum CommandsRole {
    Option,
    Command,
}

impl CommandsRole {
    /// The text that denotes this role in an inventory.
    pub open spec fn spec_name(self) -> Seq<char> {
        match self {
            CommandsRole::Option => "option"@,
            CommandsRole::Command => "command"@,
        }
    }

    /// The role that the text `s` denotes, if any.
    pub open spec fn from_name(s: Seq<char>) -> Option<CommandsRole> {
        if s == "option"@ {
            Some(CommandsRole::Option)
        } else if s == "command"@ {
            Some(CommandsRole::Command)
        } else {
            None
        }
    }

    /// The role that the characters `s` denote, if any.
    pub fn from_chars(s: &[char]) -> (r: Option<CommandsRole>)
        ensures
            r == CommandsRole::from_name(s@),
            r matches Some(x) ==> x.spec_name() == s@,
    {
        if chars_are(s, "option") {
            Some(CommandsRole::Option)
        } else if chars_are(s, "command") {
            Some(CommandsRole::Command)
        } else {
            None
        }
    }
}

impl core::str::FromStr for CommandsRole {
    type Err = RoleParseError;

    /// Reads a role from its text; the text must match exactly.
    fn from_str(s: &str) -> (r: Result<CommandsRole, RoleParseError>)
        ensures
            match r {
                Ok(x) => CommandsRole::from_name(s@) == Some(x),
                Err(e) => CommandsRole::from_name(s@) is None && e == RoleParseError::VariantNotFound,
            },
    {
        let cs = chars_of(s);
        match CommandsRole::from_chars(cs.as_slice()) {
            Some(x) => Ok(x),
            None => Err(RoleParseError::VariantNotFound),
        }
    }
}

/// The roles of the `stconf` domain.
#[derive(Debug, Clone, Copy, PartialEq, Eq, Structural)]
pub enum StconfRole {
    Option,
}

impl StconfRole {
    /// The text that denotes this role in an inventory.
    pub open spec fn spec_name(self) -> Seq<char> {
        match self {
            StconfRole::Option => "option"@,
        }
    }

    /// The role that the text `s` denotes, if any.
    pub open spec fn from_name(s: Seq<char>) -> Option<StconfRole> {
        if s == "option"@ {
            Some(StconfRole::Option)
        } else {
            None
        }
    }

    /// The role that the characters `s` denote, if any.
    pub fn from_chars(s: &[char]) -> (r: Option<StconfRole>)
        ensures
            r == StconfRole::from_name(s@),
            r matches Some(x) ==> x.spec_name() == s@,
    {
        if chars_are(s, "option") {
            Some(StconfRole::Option)
        } else {
            None
        }
    }
}

impl core::str::FromStr for StconfRole {
    type Err = RoleParseError;

    /// Reads a role from its text; the text must match exactly.
    fn from_str(s: &str) -> (r: Result<StconfRole, RoleParseError>)
        ensures
            match r {
                Ok(x) => StconfRole::from_name(s@) == Some(x),
                Err(e) => StconfRole::from_name(s@) is None && e == RoleParseError::VariantNotFound,
            },
    {
        let cs = chars_of(s);
        match StconfRole::from_chars(cs.as_slice()) {
            Some(x) => Ok(x),
            None => Err(RoleParseError::VariantNotFound),
        }
    }
}

/// The roles of the `rst` domain.
#[derive(Debug, Clone, Copy, PartialEq, Eq, Structural)]
pub enum RstRole {
    Role,
    DirectiveOption,
    Directive,
}

impl RstRole {
    /// The text that denotes this role in an inventory.
    pub open spec fn spec_name(self) -> Seq<char> {
        match self {
            RstRole::Role => "role"@,
            RstRole::DirectiveOption => "directive:option"@,
            RstRole::Directive => "directive"@,
        }
    }

    /// The role that the text `s` denotes, if any.
    pub open spec fn from_name(s: Seq<char>) -> Option<RstRole> {
        if s == "role"@ {
            Some(RstRole::Role)
        } else if s == "directive:option"@ {
            Some(RstRole::DirectiveOption)
        } else if s == "directive"@ {
            Some(RstRole::Directive)
        } else {
            None
        }
    }

    /// The role that the characters `s` denote, if any.
    pub fn from_chars(s: &[char]) -> (r: Option<RstRole>)
        ensures
            r == RstRole::from_name(s@),
            r matches Some(x) ==> x.spec_name() == s@,
    {
        if chars_are(s, "role") {
            Some(RstRole::Role)
        } else if chars_are(s, "directive:option") {
            Some(RstRole::DirectiveOption)
        } else if chars_are(s, "directive") {
            Some(RstRole::Directive)
        } else {
            None
        }
    }
}

impl core::str::FromStr for RstRole {
    type Err = RecordParseError;

    /// Reads a role from its text; the text must match exactly.
    fn from_str(s: &str) -> (r: Result<RstRole, RecordParseError>)
        ensures
            match r {
                Ok(x) => RstRole::from_name(s@) == Some(x),
                Err(e) => RstRole::from_name(s@) is None && e@ == RecordErrorView::InvalidDomain(s@),
            },
    {
        let cs = chars_of(s);
        match RstRole::from_chars(cs.as_slice()) {
            Some(x) => Ok(x),
            None => Err(RecordParseError::InvalidDomain(string_of(cs.as_slice()))),
        }
    }
}

/// Every role of `CRole` reads back from its own text.
pub proof fn lemma_c_role_reads_back(r: CRole)
    ensures
        CRole::from_name(r.spec_name()) == Some(r),
{
    reveal_strlit("enum");
    reveal_strlit("enumerator");
    reveal_strlit("function");
    reveal_strlit("functionParam");
    reveal_strlit("variable");
    reveal_strlit("define");
    reveal_strlit("namespace");
    reveal_strlit("typedef");
    reveal_strlit("enumvalue");
    reveal_strlit("macro");
    reveal_strlit("member");
    reveal_strlit("type");
    reveal_strlit("var");
    reveal_strlit("struct");
    reveal_strlit("union");
    assert("enum"@.len() == 4 && "enum"@[0] == 'e' && "enum"@[1] == 'n');
    assert("enumerator"@.len() == 10 && "enumerator"@[0] == 'e' && "enumerator"@[1] == 'n');
    assert("function"@.len() == 8 && "function"@[0] == 'f' && "function"@[1] == 'u');
    assert("functionParam"@.len() == 13 && "functionParam"@[0] == 'f' && "functionParam"@[1] == 'u');
    assert("variable"@.len() == 8 && "variable"@[0] == 'v' && "variable"@[1] == 'a');
    assert("define"@.len() == 6 && "define"@[0] == 'd' && "define"@[1] == 'e');
    assert("namespace"@.len() == 9 && "namespace"@[0] == 'n' && "namespace"@[1] == 'a');
    assert("typedef"@.len() == 7 && "typedef"@[0] == 't' && "typedef"@[1] == 'y');
    assert("enumvalue"@.len() == 9 && "enumvalue"@[0] == 'e' && "enumvalue"@[1] == 'n');
    assert("macro"@.len() == 5 && "macro"@[0] == 'm' && "macro"@[1] == 'a');
    assert("member"@.len() == 6 && "member"@[0] == 'm' && "member"@[1] == 'e');
    assert("type"@.len() == 4 && "type"@[0] == 't' && "type"@[1] == 'y');
    assert("var"@.len() == 3 && "var"@[0] == 'v' && "var"@[1] == 'a');
    assert("struct"@.len() == 6 && "struct"@[0] == 's' && "struct"@[1] == 't');
    assert("union"@.len() == 5 && "union"@[0] == 'u' && "union"@[1] == 'n');
}

/// Every role of `HttpRole` reads back from its own text.
pub proof fn lemma_http_role_reads_back(r: HttpRole)
    ensures
        HttpRole::from_name(r.spec_name()) == Some(r),
{
    reveal_strlit("get");
    reveal_strlit("post");
    reveal_strlit("head");
    reveal_strlit("copy");
    reveal_strlit("put");
    reveal_strlit("delete");
    reveal_strlit("patch");
    reveal_strlit("any");
    assert("get"@.len() == 3 && "get"@[0] == 'g' && "get"@[1] == 'e');
    assert("post"@.len() == 4 && "post"@[0] == 'p' && "post"@[1] == 'o');
    assert("head"@.len() == 4 && "head"@[0] == 'h' && "head"@[1] == 'e');
    assert("copy"@.len() == 4 && "copy"@[0] == 'c' && "copy"@[1] == 'o');
    assert("put"@.len() == 3 && "put"@[0] == 'p' && "put"@[1] == 'u');
    assert("delete"@.len() == 6 && "delete"@[0] == 'd' && "delete"@[1] == 'e');
    assert("patch"@.len() == 5 && "patch"@[0] == 'p' && "patch"@[1] == 'a');
    assert("any"@.len() == 3 && "any"@[0] == 'a' && "any"@[1] == 'n');
}

/// Every role of `LrdRole` reads back from its own text.
pub proof fn lemma_lrd_role_reads_back(r: LrdRole)
    ensures
        LrdRole::from_name(r.spec_name()) == Some(r),
{
    reveal_strlit("label");
    reveal_strlit("doc");
    assert("label"@.len() == 5 && "label"@[0] == 'l' && "label"@[1] == 'a');
    assert("doc"@.len() == 3 && "doc"@[0] == 'd' && "doc"@[1] == 'o');
}

/// Every role of `PhpRole` reads back from its own text.
pub proof fn lemma_php_role_reads_back(r: PhpRole)
    ensures
        PhpRole::from_name(r.spec_name()) == Some(r),
{
    reveal_strlit("function");
    reveal_strlit("method");
    reveal_strlit("const");
    reveal_strlit("interface");
    reveal_strlit("staticmethod");
    reveal_strlit("namespace");
    reveal_strlit("trait");
    reveal_strlit("class");
    assert("function"@.len() == 8 && "function"@[0] == 'f' && "function"@[1] == 'u');
    assert("method"@.len() == 6 && "method"@[0] == 'm' && "method"@[1] == 'e');
    assert("const"@.len() == 5 && "const"@[0] == 'c' && "const"@[1] == 'o');
    assert("interface"@.len() == 9 && "interface"@[0] == 'i' && "interface"@[1] == 'n');
    assert("staticmethod"@.len() == 12 && "staticmethod"@[0] == 's' && "staticmethod"@[1] == 't');
    assert("namespace"@.len() == 9 && "namespace"@[0] == 'n' && "namespace"@[1] == 'a');
    assert("trait"@.len() == 5 && "trait"@[0] == 't' && "trait"@[1] == 'r');
    assert("class"@.len() == 5 && "class"@[0] == 'c' && "class"@[1] == 'l');
}

/// Every role of `CmakeRole` reads back from its own text.
pub proof fn lemma_cmake_role_reads_back(r: CmakeRole)
    ensures
        CmakeRole::from_name(r.spec_name()) == Some(r),
{
    reveal_strlit("variable");
    reveal_strlit("module");
    reveal_strlit("manual");
    reveal_strlit("prop_cache");
    reveal_strlit("guide");
    reveal_strlit("genex");
    reveal_strlit("generator");
    reveal_strlit("cpack_gen");
    reveal_strlit("command");
    reveal_strlit("envvar");
    reveal_strlit("prop_tgt");
    reveal_strlit("prop_test");
    reveal_strlit("prop_sf");
    reveal_strlit("prop_inst");
    reveal_strlit("prop_gbl");
    reveal_strlit("prop_dir");
    reveal_strlit("policy");
    assert("variable"@.len() == 8 && "variable"@[0] == 'v' && "variable"@[1] == 'a');
    assert("module"@.len() == 6 && "module"@[0] == 'm' && "module"@[1] == 'o');
    assert("manual"@.len() == 6 && "manual"@[0] == 'm' && "manual"@[1] == 'a');
    assert("prop_cache"@.len() == 10 && "prop_cache"@[0] == 'p' && "prop_cache"@[1] == 'r');
    assert("guide"@.len() == 5 && "guide"@[0] == 'g' && "guide"@[1] == 'u');
    assert("genex"@.len() == 5 && "genex"@[0] == 'g' && "genex"@[1] == 'e');
    assert("generator"@.len() == 9 && "generator"@[0] == 'g' && "generator"@[1] == 'e');
    assert("cpack_gen"@.len() == 9 && "cpack_gen"@[0] == 'c' && "cpack_gen"@[1] == 'p');
    assert("command"@.len() == 7 && "command"@[0] == 'c' && "command"@[1] == 'o');
    assert("envvar"@.len() == 6 && "envvar"@[0] == 'e' && "envvar"@[1] == 'n');
    assert("prop_tgt"@.len() == 8 && "prop_tgt"@[0] == 'p' && "prop_tgt"@[1] == 'r');
    assert("prop_test"@.len() == 9 && "prop_test"@[0] == 'p' && "prop_test"@[1] == 'r');
    assert("prop_sf"@.len() == 7 && "prop_sf"@[0] == 'p' && "prop_sf"@[1] == 'r');
    assert("prop_inst"@.len() == 9 && "prop_inst"@[0] == 'p' && "prop_inst"@[1] == 'r');
    assert("prop_gbl"@.len() == 8 && "prop_gbl"@[0] == 'p' && "prop_gbl"@[1] == 'r');
    assert("prop_dir"@.len() == 8 && "prop_dir"@[0] == 'p' && "prop_dir"@[1] == 'r');
    assert("policy"@.len() == 6 && "policy"@[0] == 'p' && "policy"@[1] == 'o');
    assert("prop_inst"@[5] != "prop_test"@[5]);
    assert("prop_gbl"@[5] != "prop_tgt"@[5]);
    assert("prop_dir"@[5] != "prop_tgt"@[5]);
    assert("prop_dir"@[5] != "prop_gbl"@[5]);
}

/// Every role of `NumpyRole` reads back from its own text.
pub proof fn lemma_numpy_role_reads_back(r: NumpyRole)
    ensures
        NumpyRole::from_name(r.spec_name()) == Some(r),
{
    reveal_strlit("class");
    reveal_strlit("data");
    reveal_strlit("function");
    reveal_strlit("module");
    reveal_strlit("method");
    reveal_strlit("attribute");
    assert("class"@.len() == 5 && "class"@[0] == 'c' && "class"@[1] == 'l');
    assert("data"@.len() == 4 && "data"@[0] == 'd' && "data"@[1] == 'a');
    assert("function"@.len() == 8 && "function"@[0] == 'f' && "function"@[1] == 'u');
    assert("module"@.len() == 6 && "module"@[0] == 'm' && "module"@[1] == 'o');
    assert("method"@.len() == 6 && "method"@[0] == 'm' && "method"@[1] == 'e');
    assert("attribute"@.len() == 9 && "attribute"@[0] == 'a' && "attribute"@[1] == 't');
}

/// Every role of `JavaRole` reads back from its own text.
pub proof fn lemma_java_role_reads_back(r: JavaRole)
    ensures
        JavaRole::from_name(r.spec_name()) == Some(r),
{
    reveal_strlit("type");
    assert("type"@.len() == 4 && "type"@[0] == 't' && "type"@[1] == 'y');
}

/// Every role of `ZeekRole` reads back from its own text.
pub proof fn lemma_zeek_role_reads_back(r: ZeekRole)
    ensures
        ZeekRole::from_name(r.spec_name()) == Some(r),
{
    reveal_strlit("id");
    reveal_strlit("keyword");
    reveal_strlit("attr");
    reveal_strlit("type");
    reveal_strlit("field");
    reveal_strlit("enum");
    reveal_strlit("namespace");
    assert("id"@.len() == 2 && "id"@[0] == 'i' && "id"@[1] == 'd');
    assert("keyword"@.len() == 7 && "keyword"@[0] == 'k' && "keyword"@[1] == 'e');
    assert("attr"@.len() == 4 && "attr"@[0] == 'a' && "attr"@[1] == 't');
    assert("type"@.len() == 4 && "type"@[0] == 't' && "type"@[1] == 'y');
    assert("field"@.len() == 5 && "field"@[0] == 'f' && "field"@[1] == 'i');
    assert("enum"@.len() == 4 && "enum"@[0] == 'e' && "enum"@[1] == 'n');
    assert("namespace"@.len() == 9 && "namespace"@[0] == 'n' && "namespace"@[1] == 'a');
}

/// Every role of `CppRole` reads back from its own text.
pub proof fn lemma_cpp_role_reads_back(r: CppRole)
    ensures
        CppRole::from_name(r.spec_name()) == Some(r),
{
    reveal_strlit("class");
    reveal_strlit("union");
    reveal_strlit("concept");
    reveal_strlit("function");
    reveal_strlit("type");
    reveal_strlit("enumerator");
    reveal_strlit("enum");
    reveal_strlit("functionParam");
    reveal_strlit("member");
    reveal_strlit("templateParam");
    assert("class"@.len() == 5 && "class"@[0] == 'c' && "class"@[1] == 'l');
    assert("union"@.len() == 5 && "union"@[0] == 'u' && "union"@[1] == 'n');
    assert("concept"@.len() == 7 && "concept"@[0] == 'c' && "concept"@[1] == 'o');
    assert("function"@.len() == 8 && "function"@[0] == 'f' && "function"@[1] == 'u');
    assert("type"@.len() == 4 && "type"@[0] == 't' && "type"@[1] == 'y');
    assert("enumerator"@.len() == 10 && "enumerator"@[0] == 'e' && "enumerator"@[1] == 'n');
    assert("enum"@.len() == 4 && "enum"@[0] == 'e' && "enum"@[1] == 'n');
    assert("functionParam"@.len() == 13 && "functionParam"@[0] == 'f' && "functionParam"@[1] == 'u');
    assert("member"@.len() == 6 && "member"@[0] == 'm' && "member"@[1] == 'e');
    assert("templateParam"@.len() == 13 && "templateParam"@[0] == 't' && "templateParam"@[1] == 'e');
}

/// Every role of `JsRole` reads back from its own text.
pub proof fn lemma_js_role_reads_back(r: JsRole)
    ensures
        JsRole::from_name(r.spec_name()) == Some(r),
{
    reveal_strlit("module");
    reveal_strlit("function");
    reveal_strlit("method");
    reveal_strlit("attribute");
    reveal_strlit("class");
    reveal_strlit("data");
    assert("module"@.len() == 6 && "module"@[0] == 'm' && "module"@[1] == 'o');
    assert("function"@.len() == 8 && "function"@[0] == 'f' && "function"@[1] == 'u');
    assert("method"@.len() == 6 && "method"@[0] == 'm' && "method"@[1] == 'e');
    assert("attribute"@.len() == 9 && "attribute"@[0] == 'a' && "attribute"@[1] == 't');
    assert("class"@.len() == 5 && "class"@[0] == 'c' && "class"@[1] == 'l');
    assert("data"@.len() == 4 && "data"@[0] == 'd' && "data"@[1] == 'a');
}

/// Every role of `MathRole` reads back from its own text.
pub proof fn lemma_math_role_reads_back(r: MathRole)
    ensures
        MathRole::from_name(r.spec_name()) == Some(r),
{
    reveal_strlit("numref");
    assert("numref"@.len() == 6 && "numref"@[0] == 'n' && "numref"@[1] == 'u');
}

/// Every role of `SipRole` reads back from its own text.
pub proof fn lemma_sip_role_reads_back(r: SipRole)
    ensures
        SipRole::from_name(r.spec_name()) == Some(r),
{
    reveal_strlit("class");
    reveal_strlit("method");
    reveal_strlit("member");
    reveal_strlit("enum");
    reveal_strlit("signal");
    reveal_strlit("attribute");
    reveal_strlit("module");
    assert("class"@.len() == 5 && "class"@[0] == 'c' && "class"@[1] == 'l');
    assert("method"@.len() == 6 && "method"@[0] == 'm' && "method"@[1] == 'e');
    assert("member"@.len() == 6 && "member"@[0] == 'm' && "member"@[1] == 'e');
    assert("enum"@.len() == 4 && "enum"@[0] == 'e' && "enum"@[1] == 'n');
    assert("signal"@.len() == 6 && "signal"@[0] == 's' && "signal"@[1] == 'i');
    assert("attribute"@.len() == 9 && "attribute"@[0] == 'a' && "attribute"@[1] == 't');
    assert("module"@.len() == 6 && "module"@[0] == 'm' && "module"@[1] == 'o');
    assert("member"@[2] != "method"@[2]);
}

/// Every role of `SyntaxRole` reads back from its own text.
pub proof fn lemma_syntax_role_reads_back(r: SyntaxRole)
    ensures
        SyntaxRole::from_name(r.spec_name()) == Some(r),
{
    reveal_strlit("rule");
    reveal_strlit("grammar");
    assert("rule"@.len() == 4 && "rule"@[0] == 'r' && "rule"@[1] == 'u');
    assert("grammar"@.len() == 7 && "grammar"@[0] == 'g' && "grammar"@[1] == 'r');
}

/// Every role of `PyRole` reads back from its own text.
pub proof fn lemma_py_role_reads_back(r: PyRole)
    ensures
        PyRole::from_name(r.spec_name()) == Some(r),
{
    reveal_strlit("attribute");
    reveal_strlit("namedtuple");
    reveal_strlit("attr");
    reveal_strlit("type");
    reveal_strlit("data");
    reveal_strlit("exception");
    reveal_strlit("classmethod");
    reveal_strlit("function");
    reveal_strlit("field");
    reveal_strlit("enum");
    reveal_strlit("staticmethod");
    reveal_strlit("method");
    reveal_strlit("module");
    reveal_strlit("property");
    reveal_strlit("class");
    reveal_strlit("interface");
    reveal_strlit("parameter");
    reveal_strlit("model");
    assert("attribute"@.len() == 9 && "attribute"@[0] == 'a' && "attribute"@[1] == 't');
    assert("namedtuple"@.len() == 10 && "namedtuple"@[0] == 'n' && "namedtuple"@[1] == 'a');
    assert("attr"@.len() == 4 && "attr"@[0] == 'a' && "attr"@[1] == 't');
    assert("type"@.len() == 4 && "type"@[0] == 't' && "type"@[1] == 'y');
    assert("data"@.len() == 4 && "data"@[0] == 'd' && "data"@[1] == 'a');
    assert("exception"@.len() == 9 && "exception"@[0] == 'e' && "exception"@[1] == 'x');
    assert("classmethod"@.len() == 11 && "classmethod"@[0] == 'c' && "classmethod"@[1] == 'l');
    assert("function"@.len() == 8 && "function"@[0] == 'f' && "function"@[1] == 'u');
    assert("field"@.len() == 5 && "field"@[0] == 'f' && "field"@[1] == 'i');
    assert("enum"@.len() == 4 && "enum"@[0] == 'e' && "enum"@[1] == 'n');
    assert("staticmethod"@.len() == 12 && "staticmethod"@[0] == 's' && "staticmethod"@[1] == 't');
    assert("method"@.len() == 6 && "method"@[0] == 'm' && "method"@[1] == 'e');
    assert("module"@.len() == 6 && "module"@[0] == 'm' && "module"@[1] == 'o');
    assert("property"@.len() == 8 && "property"@[0] == 'p' && "property"@[1] == 'r');
    assert("class"@.len() == 5 && "class"@[0] == 'c' && "class"@[1] == 'l');
    assert("interface"@.len() == 9 && "interface"@[0] == 'i' && "interface"@[1] == 'n');
    assert("parameter"@.len() == 9 && "parameter"@[0] == 'p' && "parameter"@[1] == 'a');
    assert("model"@.len() == 5 && "model"@[0] == 'm' && "model"@[1] == 'o');
}

/// Every role of `ConfigRole` reads back from its own text.
pub proof fn lemma_config_role_reads_back(r: ConfigRole)
    ensures
        ConfigRole::from_name(r.spec_name()) == Some(r),
{
    reveal_strlit("option");
    assert("option"@.len() == 6 && "option"@[0] == 'o' && "option"@[1] == 'p');
}

/// Every role of `LsRole` reads back from its own text.
pub proof fn lemma_ls_role_reads_back(r: LsRole)
    ensures
        LsRole::from_name(r.spec_name()) == Some(r),
{
    reveal_strlit("member");
    reveal_strlit("require");
    reveal_strlit("method");
    reveal_strlit("trait");
    reveal_strlit("type");
    reveal_strlit("provide");
    assert("member"@.len() == 6 && "member"@[0] == 'm' && "member"@[1] == 'e');
    assert("require"@.len() == 7 && "require"@[0] == 'r' && "require"@[1] == 'e');
    assert("method"@.len() == 6 && "method"@[0] == 'm' && "method"@[1] == 'e');
    assert("trait"@.len() == 5 && "trait"@[0] == 't' && "trait"@[1] == 'r');
    assert("type"@.len() == 4 && "type"@[0] == 't' && "type"@[1] == 'y');
    assert("provide"@.len() == 7 && "provide"@[0] == 'p' && "provide"@[1] == 'r');
    assert("method"@[2] != "member"@[2]);
}

/// Every role of `OcvRole` reads back from its own text.
pub proof fn lemma_ocv_role_reads_back(r: OcvRole)
    ensures
        OcvRole::from_name(r.spec_name()) == Some(r),
{
    reveal_strlit("cfunction");
    reveal_strlit("function");
    reveal_strlit("enum");
    reveal_strlit("class");
    reveal_strlit("member");
    reveal_strlit("pyfunction");
    reveal_strlit("struct");
    reveal_strlit("pyoldfunction");
    reveal_strlit("emember");
    assert("cfunction"@.len() == 9 && "cfunction"@[0] == 'c' && "cfunction"@[1] == 'f');
    assert("function"@.len() == 8 && "function"@[0] == 'f' && "function"@[1] == 'u');
    assert("enum"@.len() == 4 && "enum"@[0] == 'e' && "enum"@[1] == 'n');
    assert("class"@.len() == 5 && "class"@[0] == 'c' && "class"@[1] == 'l');
    assert("member"@.len() == 6 && "member"@[0] == 'm' && "member"@[1] == 'e');
    assert("pyfunction"@.len() == 10 && "pyfunction"@[0] == 'p' && "pyfunction"@[1] == 'y');
    assert("struct"@.len() == 6 && "struct"@[0] == 's' && "struct"@[1] == 't');
    assert("pyoldfunction"@.len() == 13 && "pyoldfunction"@[0] == 'p' && "pyoldfunction"@[1] == 'y');
    assert("emember"@.len() == 7 && "emember"@[0] == 'e' && "emember"@[1] == 'm');
}

/// Every role of `RubyRole` reads back from its own text.
pub proof fn lemma_ruby_role_reads_back(r: RubyRole)
    ensures
        RubyRole::from_name(r.spec_name()) == Some(r),
{
    reveal_strlit("option");
    reveal_strlit("attr_reader");
    reveal_strlit("module");
    reveal_strlit("class");
    reveal_strlit("method");
    reveal_strlit("const");
    reveal_strlit("attr_accessor");
    assert("option"@.len() == 6 && "option"@[0] == 'o' && "option"@[1] == 'p');
    assert("attr_reader"@.len() == 11 && "attr_reader"@[0] == 'a' && "attr_reader"@[1] == 't');
    assert("module"@.len() == 6 && "module"@[0] == 'm' && "module"@[1] == 'o');
    assert("class"@.len() == 5 && "class"@[0] == 'c' && "class"@[1] == 'l');
    assert("method"@.len() == 6 && "method"@[0] == 'm' && "method"@[1] == 'e');
    assert("const"@.len() == 5 && "const"@[0] == 'c' && "const"@[1] == 'o');
    assert("attr_accessor"@.len() == 13 && "attr_accessor"@[0] == 'a' && "attr_accessor"@[1] == 't');
}

/// Every role of `CommandsRole` reads back from its own text.
pub proof fn lemma_commands_role_reads_back(r: CommandsRole)
    ensures
        CommandsRole::from_name(r.spec_name()) == Some(r),
{
    reveal_strlit("option");
    reveal_strlit("command");
    assert("option"@.len() == 6 && "option"@[0] == 'o' && "option"@[1] == 'p');
    assert("command"@.len() == 7 && "command"@[0] == 'c' && "command"@[1] == 'o');
}

/// Every role of `StconfRole` reads back from its own text.
pub proof fn lemma_stconf_role_reads_back(r: StconfRole)
    ensures
        StconfRole::from_name(r.spec_name()) == Some(r),
{
    reveal_strlit("option");
    assert("option"@.len() == 6 && "option"@[0] == 'o' && "option"@[1] == 'p');
}

/// Every role of `RstRole` reads back from its own text.
pub proof fn lemma_rst_role_reads_back(r: RstRole)
    ensures
        RstRole::from_name(r.spec_name()) == Some(r),
{
    reveal_strlit("role");
    reveal_strlit("directive:option");
    reveal_strlit("directive");
    assert("role"@.len() == 4 && "role"@[0] == 'r' && "role"@[1] == 'o');
    assert("directive:option"@.len() == 16 && "directive:option"@[0] == 'd' && "directive:option"@[1] == 'i');
    assert("directive"@.len() == 9 && "directive"@[0] == 'd' && "directive"@[1] == 'i');
}

} // verus!
