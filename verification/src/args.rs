//! The arguments of the interface and opaque-marker attributes.
//!
//! `#[interface(opaque = Host, prefix = "host", resolver)]` and its siblings
//! take a comma-separated list of `key = value` pairs and bare flags. The
//! tokens are split into such entries before they reach this module; here the
//! entries are checked and gathered.

use vstd::prelude::*;

verus! {

/// The value of a `key = value` attribute argument.
pub enum ArgValue {
    /// A string literal, by its value.
    Str(String),
    /// A type, by its source text.
    Type(String),
}

/// One attribute argument: a bare identifier, or `key = value`.
pub enum AttrArg {
    Flag(String),
    Pair(String, ArgValue),
}

/// What the generated code receives its methods on.
pub enum Receiver {
    /// An opaque handle over the marker type with this source text.
    Opaque(String),
    /// A reference to the ABI-stable type with this source text.
    Stable(String),
}

/// The gathered arguments of an interface attribute.
pub struct InterfaceArgs {
    pub receiver: Receiver,
    pub prefix: String,
    /// The arguments handed on to the linker, as `(key, value)` pairs in order.
    pub link_args: Vec<(String, String)>,
    pub has_link_args: bool,
    pub vtable: Option<String>,
    pub resolver: bool,
}

/// Why a list of interface attribute arguments was refused.
#[derive(PartialEq, Eq, Structural)]
pub enum ArgsError {
    /// A bare identifier other than `resolver`.
    ExpectedEquals,
    /// `opaque`, `receiver` or `vtable` given a string literal in place of a type.
    ExpectedType,
    /// Any other key given a type in place of a string literal.
    ExpectedStringLiteral,
    /// Neither `opaque = Type` nor `receiver = Type` was given.
    MissingReceiver,
    /// No `prefix = "symbol_prefix"` was given.
    MissingPrefix,
}

/// A receiver, as plain values.
pub enum ReceiverView {
    Opaque(Seq<char>),
    Stable(Seq<char>),
}

/// Gathered interface attribute arguments, as plain values.
pub struct InterfaceArgsView {
    pub receiver: ReceiverView,
    pub prefix: Seq<char>,
    pub link_args: Seq<(Seq<char>, Seq<char>)>,
    pub has_link_args: bool,
    pub vtable: Option<Seq<char>>,
    pub resolver: bool,
}

pub open spec fn receiver_view(r: Receiver) -> ReceiverView {
    match r {
        Receiver::Opaque(t) => ReceiverView::Opaque(t@),
        Receiver::Stable(t) => ReceiverView::Stable(t@),
    }
}

pub open spec fn link_args_view(s: Seq<(String, String)>) -> Seq<(Seq<char>, Seq<char>)> {
    s.map_values(|p: (String, String)| (p.0@, p.1@))
}

/// An optional text, as plain values.
pub open spec fn opt_text(o: Option<String>) -> Option<Seq<char>> {
    match o {
        Some(t) => Some(t@),
        None => None,
    }
}

pub open spec fn interface_args_view(a: InterfaceArgs) -> InterfaceArgsView {
    InterfaceArgsView {
        receiver: receiver_view(a.receiver),
        prefix: a.prefix@,
        link_args: link_args_view(a.link_args@),
        has_link_args: a.has_link_args,
        vtable: opt_text(a.vtable),
        resolver: a.resolver,
    }
}

/// Keys whose value is a type.
pub open spec fn is_type_key(k: Seq<char>) -> bool {
    k == "opaque"@ || k == "receiver"@ || k == "vtable"@
}

/// Keys that configure the generated code; every other key is a linker argument.
pub open spec fn is_known_key(k: Seq<char>) -> bool {
    is_type_key(k) || k == "prefix"@
}

/// What is wrong with one entry, if anything.
pub open spec fn entry_error(e: AttrArg) -> Option<ArgsError> {
    match e {
        AttrArg::Flag(k) => if k@ == "resolver"@ {
            None
        } else {
            Some(ArgsError::ExpectedEquals)
        },
        AttrArg::Pair(k, v) => if is_type_key(k@) {
            if v is Type {
                None
            } else {
                Some(ArgsError::ExpectedType)
            }
        } else {
            if v is Str {
                None
            } else {
                Some(ArgsError::ExpectedStringLiteral)
            }
        },
    }
}

/// The error of the first entry that has one.
pub open spec fn first_error(s: Seq<AttrArg>) -> Option<ArgsError>
    decreases s.len(),
{
    if s.len() == 0 {
        None
    } else {
        match first_error(s.drop_last()) {
            Some(e) => Some(e),
            None => entry_error(s.last()),
        }
    }
}

/// The receiver that the last `opaque` or `receiver` entry names.
pub open spec fn receiver_of(s: Seq<AttrArg>) -> Option<ReceiverView>
    decreases s.len(),
{
    if s.len() == 0 {
        None
    } else {
        match s.last() {
            AttrArg::Pair(k, ArgValue::Type(t)) => if k@ == "opaque"@ {
                Some(ReceiverView::Opaque(t@))
            } else if k@ == "receiver"@ {
                Some(ReceiverView::Stable(t@))
            } else {
                receiver_of(s.drop_last())
            },
            _ => receiver_of(s.drop_last()),
        }
    }
}

/// The string that the last entry with key `key` and a string value gives.
pub open spec fn last_str_of(s: Seq<AttrArg>, key: Seq<char>) -> Option<Seq<char>>
    decreases s.len(),
{
    if s.len() == 0 {
        None
    } else {
        match s.last() {
            AttrArg::Pair(k, ArgValue::Str(v)) => if k@ == key {
                Some(v@)
            } else {
                last_str_of(s.drop_last(), key)
            },
            _ => last_str_of(s.drop_last(), key),
        }
    }
}

/// The type that the last `vtable` entry names.
pub open spec fn vtable_of(s: Seq<AttrArg>) -> Option<Seq<char>>
    decreases s.len(),
{
    if s.len() == 0 {
        None
    } else {
        match s.last() {
            AttrArg::Pair(k, ArgValue::Type(t)) => if k@ == "vtable"@ {
                Some(t@)
            } else {
                vtable_of(s.drop_last())
            },
            _ => vtable_of(s.drop_last()),
        }
    }
}

/// The linker arguments: every entry whose key configures nothing, in order.
pub open spec fn link_args_of(s: Seq<AttrArg>) -> Seq<(Seq<char>, Seq<char>)>
    decreases s.len(),
{
    if s.len() == 0 {
        Seq::empty()
    } else {
        match s.last() {
            AttrArg::Pair(k, ArgValue::Str(v)) => if !is_known_key(k@) {
                link_args_of(s.drop_last()).push((k@, v@))
            } else {
                link_args_of(s.drop_last())
            },
            _ => link_args_of(s.drop_last()),
        }
    }
}

/// Whether a bare `resolver` flag appears.
pub open spec fn has_resolver_flag(s: Seq<AttrArg>) -> bool {
    exists|i: int| 0 <= i < s.len() && #[trigger] is_resolver_flag(s[i])
}

/// Whether an entry is the bare flag `resolver`.
pub open spec fn is_resolver_flag(e: AttrArg) -> bool {
    match e {
        AttrArg::Flag(k) => k@ == "resolver"@,
        _ => false,
    }
}

/// What the interface attribute's argument list gives: the first malformed
/// entry's error; else an error for a missing receiver or prefix; else, for
/// each setting, the last entry that sets it, and the linker arguments in order.
pub open spec fn interface_args_result(s: Seq<AttrArg>) -> Result<InterfaceArgsView, ArgsError> {
    if first_error(s) is Some {
        Err(first_error(s)->0)
    } else if receiver_of(s) is None {
        Err(ArgsError::MissingReceiver)
    } else if last_str_of(s, "prefix"@) is None {
        Err(ArgsError::MissingPrefix)
    } else {
        Ok(
            InterfaceArgsView {
                receiver: receiver_of(s)->0,
                prefix: last_str_of(s, "prefix"@)->0,
                link_args: link_args_of(s),
                has_link_args: link_args_of(s).len() > 0,
                vtable: vtable_of(s),
                resolver: has_resolver_flag(s),
            },
        )
    }
}

pub open spec fn args_result_view(r: Result<InterfaceArgs, ArgsError>) -> Result<InterfaceArgsView, ArgsError> {
    match r {
        Ok(a) => Ok(interface_args_view(a)),
        Err(e) => Err(e),
    }
}


/// Whether `s` holds exactly the text `lit`.
pub(crate) fn is_text(s: &String, lit: &str) -> (r: bool)
    ensures
        r == (s@ == lit@),
{
    *s == String::from_str(lit)
}

/// The keys that configure the generated code are pairwise different.
proof fn lemma_keys_distinct()
    ensures
        "opaque"@ != "receiver"@,
        "opaque"@ != "vtable"@,
        "opaque"@ != "prefix"@,
        "receiver"@ != "vtable"@,
        "receiver"@ != "prefix"@,
        "vtable"@ != "prefix"@,
{
    reveal_strlit("opaque");
    reveal_strlit("receiver");
    reveal_strlit("vtable");
    reveal_strlit("prefix");
    assert("opaque"@[0] != "receiver"@[0]);
    assert("opaque"@[0] != "vtable"@[0]);
    assert("opaque"@[0] != "prefix"@[0]);
    assert("receiver"@[0] != "vtable"@[0]);
    assert("receiver"@[0] != "prefix"@[0]);
    assert("vtable"@[0] != "prefix"@[0]);
}

proof fn lemma_first_error_prefix(s: Seq<AttrArg>, k: int)
    requires
        0 <= k <= s.len(),
        first_error(s.take(k)) is Some,
    ensures
        first_error(s) == first_error(s.take(k)),
    decreases s.len(),
{
    if s.len() == k {
        assert(s.take(k) =~= s);
    } else {
        assert(s.drop_last().take(k) =~= s.take(k));
        lemma_first_error_prefix(s.drop_last(), k);
    }
}

impl InterfaceArgs {
    /// Checks and gathers the arguments of an interface attribute.
    pub fn parse(entries: &Vec<AttrArg>) -> (r: Result<InterfaceArgs, ArgsError>)
        ensures
            args_result_view(r) == interface_args_result(entries@),
    {
        let ghost s = entries@;
        let mut receiver: Option<Receiver> = None;
        let mut prefix: Option<String> = None;
        let mut link_args: Vec<(String, String)> = Vec::new();
        let mut vtable: Option<String> = None;
        let mut resolver = false;
        let mut i: usize = 0;
        while i < entries.len()
            invariant
                s == entries@,
                i <= s.len(),
                first_error(s.take(i as int)) is None,
                match receiver {
                    Some(rv) => receiver_of(s.take(i as int)) == Some(receiver_view(rv)),
                    None => receiver_of(s.take(i as int)) is None,
                },
                opt_text(prefix) == last_str_of(s.take(i as int), "prefix"@),
                link_args_view(link_args@) == link_args_of(s.take(i as int)),
                opt_text(vtable) == vtable_of(s.take(i as int)),
                resolver == has_resolver_flag(s.take(i as int)),
            decreases s.len() - i,
        {
            let ghost pre = s.take(i as int);
            let ghost next = s.take(i + 1);
            proof {
                assert(next.drop_last() =~= pre);
                assert(next.last() == s[i as int]);
                lemma_keys_distinct();
            }
            match &entries[i] {
                AttrArg::Flag(k) => {
                    if !is_text(k, "resolver") {
                        proof {
                            lemma_first_error_prefix(s, i + 1);
                        }
                        return Err(ArgsError::ExpectedEquals);
                    }
                    resolver = true;
                    proof {
                        assert(is_resolver_flag(next[i as int]));
                    }
                },
                AttrArg::Pair(k, v) => {
                    let is_opaque = is_text(k, "opaque");
                    let is_receiver = is_text(k, "receiver");
                    let is_vtable = is_text(k, "vtable");
                    let is_prefix = is_text(k, "prefix");
                    if is_opaque || is_receiver || is_vtable {
                        match v {
                            ArgValue::Type(t) => {
                                if is_opaque {
                                    receiver = Some(Receiver::Opaque(t.clone()));
                                } else if is_receiver {
                                    receiver = Some(Receiver::Stable(t.clone()));
                                } else {
                                    vtable = Some(t.clone());
                                }
                            },
                            ArgValue::Str(_) => {
                                proof {
                                    lemma_first_error_prefix(s, i + 1);
                                }
                                return Err(ArgsError::ExpectedType);
                            },
                        }
                    } else {
                        match v {
                            ArgValue::Str(value) => {
                                if is_prefix {
                                    prefix = Some(value.clone());
                                } else {
                                    let ghost old_links = link_args@;
                                    link_args.push((k.clone(), value.clone()));
                                    proof {
                                        assert(link_args_view(link_args@) =~= link_args_view(old_links).push(
                                            (k@, value@),
                                        ));
                                    }
                                }
                            },
                            ArgValue::Type(_) => {
                                proof {
                                    lemma_first_error_prefix(s, i + 1);
                                }
                                return Err(ArgsError::ExpectedStringLiteral);
                            },
                        }
                    }
                    proof {
                        if has_resolver_flag(next) {
                            let j = choose|j: int| 0 <= j < next.len() && #[trigger] is_resolver_flag(next[j]);
                            assert(j < i);
                            assert(pre[j] == next[j]);
                        }
                    }
                },
            }
            proof {
                if has_resolver_flag(pre) {
                    let j = choose|j: int| 0 <= j < pre.len() && #[trigger] is_resolver_flag(pre[j]);
                    assert(next[j] == pre[j]);
                }
            }
            i = i + 1;
        }
        proof {
            assert(s.take(s.len() as int) =~= s);
        }
        match receiver {
            None => Err(ArgsError::MissingReceiver),
            Some(receiver) => match prefix {
                None => Err(ArgsError::MissingPrefix),
                Some(prefix) => {
                    let has_link_args = link_args.len() > 0;
                    Ok(InterfaceArgs { receiver, prefix, link_args, has_link_args, vtable, resolver })
                },
            },
        }
    }
}


// ---------------------------------------------------------------------------
// The opaque-marker attribute: `#[opaque(version = 1, module = "path")]`.

/// One argument of the opaque-marker attribute: a key, and the text after its
/// `=` (`None` where no `=` follows). For `version` the text is the integer
/// literal's decimal digits; for `module` it is the source text of the tokens
/// up to the next comma.
pub struct OpaqueArg {
    pub key: String,
    pub value: Option<String>,
}

/// The gathered arguments of the opaque-marker attribute.
pub struct OpaqueArgs {
    /// The marker's version; 0 unless given.
    pub version: u32,
    /// The module tokens of every `module` argument, in order.
    pub module: Vec<String>,
}

/// Why a list of opaque-marker attribute arguments was refused.
#[derive(PartialEq, Eq, Structural)]
pub enum OpaqueArgsError {
    /// A key other than `version` and `module`.
    UnknownAttribute,
    /// `version` or `module` not followed by `=`.
    ExpectedEquals,
    /// A version that is not a decimal integer that fits in `u32`.
    InvalidVersion,
}

/// Gathered opaque-marker arguments, as plain values.
pub struct OpaqueArgsView {
    pub version: u32,
    pub module: Seq<Seq<char>>,
}

pub open spec fn is_decimal_digit(c: char) -> bool {
    '0' <= c && c <= '9'
}

/// The number that a string of decimal digits writes.
pub open spec fn decimal_value(s: Seq<char>) -> int
    decreases s.len(),
{
    if s.len() == 0 {
        0
    } else {
        decimal_value(s.drop_last()) * 10 + (s.last() as int - '0' as int)
    }
}

/// Whether `s` writes, in decimal digits only, a number that fits in `u32`.
pub open spec fn is_u32_decimal(s: Seq<char>) -> bool {
    &&& s.len() > 0
    &&& forall|i: int| 0 <= i < s.len() ==> #[trigger] is_decimal_digit(s[i])
    &&& decimal_value(s) <= u32::MAX
}

proof fn lemma_decimal_value_grows(s: Seq<char>, k: int)
    requires
        0 <= k <= s.len(),
        forall|i: int| 0 <= i < s.len() ==> #[trigger] is_decimal_digit(s[i]),
    ensures
        decimal_value(s.take(k)) <= decimal_value(s),
        decimal_value(s) >= 0,
    decreases s.len(),
{
    if s.len() == 0 {
        assert(s.take(k) =~= s);
    } else {
        assert(is_decimal_digit(s[s.len() - 1]));
        if k == s.len() {
            assert(s.take(k) =~= s);
            lemma_decimal_value_grows(s.drop_last(), 0);
        } else {
            assert(s.drop_last().take(k) =~= s.take(k));
            lemma_decimal_value_grows(s.drop_last(), k);
        }
    }
}

/// Reads a version number written in decimal digits.
pub fn parse_version(text: &str) -> (r: Option<u32>)
    ensures
        r is Some <==> is_u32_decimal(text@),
        r matches Some(v) ==> v == decimal_value(text@),
{
    let n = text.unicode_len();
    if n == 0 {
        return None;
    }
    let mut value: u64 = 0;
    let mut i: usize = 0;
    while i < n
        invariant
            n == text@.len(),
            i <= n,
            forall|j: int| 0 <= j < i ==> #[trigger] is_decimal_digit(text@[j]),
            value == decimal_value(text@.take(i as int)),
            value <= u32::MAX,
        decreases n - i,
    {
        let c = text.get_char(i);
        if !('0' <= c && c <= '9') {
            assert(!is_decimal_digit(text@[i as int]));
            return None;
        }
        let digit = (c as u32 - '0' as u32) as u64;
        let next = value * 10 + digit;
        proof {
            assert(text@.take(i + 1).drop_last() =~= text@.take(i as int));
        }
        if next > 0xffff_ffff {
            proof {
                let k = i + 1;
                if forall|j: int| 0 <= j < text@.len() ==> #[trigger] is_decimal_digit(text@[j]) {
                    lemma_decimal_value_grows(text@, k);
                }
            }
            return None;
        }
        value = next;
        i = i + 1;
    }
    proof {
        assert(text@.take(n as int) =~= text@);
    }
    Some(value as u32)
}

/// What is wrong with one opaque-marker argument, if anything.
pub open spec fn opaque_entry_error(e: OpaqueArg) -> Option<OpaqueArgsError> {
    if e.key@ == "version"@ {
        match e.value {
            None => Some(OpaqueArgsError::ExpectedEquals),
            Some(v) => if is_u32_decimal(v@) {
                None
            } else {
                Some(OpaqueArgsError::InvalidVersion)
            },
        }
    } else if e.key@ == "module"@ {
        match e.value {
            None => Some(OpaqueArgsError::ExpectedEquals),
            Some(_) => None,
        }
    } else {
        Some(OpaqueArgsError::UnknownAttribute)
    }
}

pub open spec fn first_opaque_error(s: Seq<OpaqueArg>) -> Option<OpaqueArgsError>
    decreases s.len(),
{
    if s.len() == 0 {
        None
    } else {
        match first_opaque_error(s.drop_last()) {
            Some(e) => Some(e),
            None => opaque_entry_error(s.last()),
        }
    }
}

/// The version that the last `version` argument gives, 0 if none does.
pub open spec fn version_of(s: Seq<OpaqueArg>) -> u32
    decreases s.len(),
{
    if s.len() == 0 {
        0
    } else if s.last().key@ == "version"@ && s.last().value is Some {
        decimal_value(s.last().value->0@) as u32
    } else {
        version_of(s.drop_last())
    }
}

/// The module tokens of every `module` argument, in order.
pub open spec fn module_of(s: Seq<OpaqueArg>) -> Seq<Seq<char>>
    decreases s.len(),
{
    if s.len() == 0 {
        Seq::empty()
    } else if s.last().key@ == "module"@ && s.last().value is Some {
        module_of(s.drop_last()).push(s.last().value->0@)
    } else {
        module_of(s.drop_last())
    }
}

/// What the opaque-marker attribute's argument list gives: the first
/// malformed argument's error; else the last version given (0 if none) and
/// the module tokens of all `module` arguments.
pub open spec fn opaque_args_result(s: Seq<OpaqueArg>) -> Result<OpaqueArgsView, OpaqueArgsError> {
    match first_opaque_error(s) {
        Some(e) => Err(e),
        None => Ok(OpaqueArgsView { version: version_of(s), module: module_of(s) }),
    }
}

pub open spec fn opaque_result_view(r: Result<OpaqueArgs, OpaqueArgsError>) -> Result<OpaqueArgsView, OpaqueArgsError> {
    match r {
        Ok(a) => Ok(OpaqueArgsView { version: a.version, module: a.module@.map_values(|m: String| m@) }),
        Err(e) => Err(e),
    }
}

proof fn lemma_first_opaque_error_prefix(s: Seq<OpaqueArg>, k: int)
    requires
        0 <= k <= s.len(),
        first_opaque_error(s.take(k)) is Some,
    ensures
        first_opaque_error(s) == first_opaque_error(s.take(k)),
    decreases s.len(),
{
    if s.len() == k {
        assert(s.take(k) =~= s);
    } else {
        assert(s.drop_last().take(k) =~= s.take(k));
        lemma_first_opaque_error_prefix(s.drop_last(), k);
    }
}

impl OpaqueArgs {
    /// Checks and gathers the arguments of the opaque-marker attribute.
    pub fn parse(entries: &Vec<OpaqueArg>) -> (r: Result<OpaqueArgs, OpaqueArgsError>)
        ensures
            opaque_result_view(r) == opaque_args_result(entries@),
    {
        let ghost s = entries@;
        let mut version: u32 = 0;
        let mut module: Vec<String> = Vec::new();
        let mut i: usize = 0;
        proof {
            reveal_strlit("version");
            reveal_strlit("module");
            assert("version"@[0] != "module"@[0]);
        }
        while i < entries.len()
            invariant
                s == entries@,
                i <= s.len(),
                "version"@ != "module"@,
                first_opaque_error(s.take(i as int)) is None,
                version == version_of(s.take(i as int)),
                module@.map_values(|m: String| m@) == module_of(s.take(i as int)),
            decreases s.len() - i,
        {
            let ghost pre = s.take(i as int);
            let ghost next = s.take(i + 1);
            proof {
                assert(next.drop_last() =~= pre);
                assert(next.last() == s[i as int]);
            }
            let entry = &entries[i];
            if is_text(&entry.key, "version") {
                match &entry.value {
                    None => {
                        proof {
                            lemma_first_opaque_error_prefix(s, i + 1);
                        }
                        return Err(OpaqueArgsError::ExpectedEquals);
                    },
                    Some(text) => match parse_version(text.as_str()) {
                        Some(v) => {
                            version = v;
                        },
                        None => {
                            proof {
                                lemma_first_opaque_error_prefix(s, i + 1);
                            }
                            return Err(OpaqueArgsError::InvalidVersion);
                        },
                    },
                }
            } else if is_text(&entry.key, "module") {
                match &entry.value {
                    None => {
                        proof {
                            lemma_first_opaque_error_prefix(s, i + 1);
                        }
                        return Err(OpaqueArgsError::ExpectedEquals);
                    },
                    Some(tokens) => {
                        let ghost old_module = module@;
                        module.push(tokens.clone());
                        proof {
                            assert(module@.map_values(|m: String| m@) =~= old_module.map_values(
                                |m: String| m@,
                            ).push(tokens@));
                        }
                    },
                }
            } else {
                proof {
                    lemma_first_opaque_error_prefix(s, i + 1);
                }
                return Err(OpaqueArgsError::UnknownAttribute);
            }
            i = i + 1;
        }
        proof {
            assert(s.take(s.len() as int) =~= s);
        }
        Ok(OpaqueArgs { version, module })
    }
}

} // verus!
