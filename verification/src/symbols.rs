//! The names of the symbols that interface code exports and imports.
//!
//! Every symbol is the interface's prefix, an underscore and a method's or an
//! item's name. It must be a plain ASCII identifier: underscores, letters and
//! digits, not starting with a digit.

use vstd::prelude::*;
use vstd::string::to_string_from_display_ensures;

verus! {

/// `proc_macro2::Ident`, carried as an opaque value.
#[verifier::external_type_specification]
#[verifier::external_body]
pub struct ExIdent(proc_macro2::Ident);

/// Whether `c` may appear in a symbol.
pub open spec fn is_symbol_char(c: char) -> bool {
    c == '_' || ('a' <= c && c <= 'z') || ('A' <= c && c <= 'Z') || ('0' <= c && c <= '9')
}

pub open spec fn is_ascii_digit(c: char) -> bool {
    '0' <= c && c <= '9'
}

/// Whether `s` is a valid symbol: not empty, not starting with a digit, and
/// made of underscores, ASCII letters and ASCII digits only.
pub open spec fn valid_symbol(s: Seq<char>) -> bool {
    &&& s.len() > 0
    &&& !is_ascii_digit(s[0])
    &&& forall|i: int| 0 <= i < s.len() ==> #[trigger] is_symbol_char(s[i])
}

/// The symbol that the prefix `prefix` gives the item named `ident`.
pub open spec fn symbol_text(prefix: Seq<char>, ident: Seq<char>) -> Seq<char> {
    prefix + seq!['_'] + ident
}

/// Whether `s` is a valid symbol.
pub fn is_valid_symbol(s: &str) -> (r: bool)
    ensures
        r == valid_symbol(s@),
{
    let n = s.unicode_len();
    if n == 0 {
        return false;
    }
    let first = s.get_char(0);
    if '0' <= first && first <= '9' {
        return false;
    }
    let mut i: usize = 0;
    while i < n
        invariant
            n == s@.len(),
            i <= n,
            forall|j: int| 0 <= j < i ==> #[trigger] is_symbol_char(s@[j]),
        decreases n - i,
    {
        let c = s.get_char(i);
        if !(c == '_' || ('a' <= c && c <= 'z') || ('A' <= c && c <= 'Z') || ('0' <= c && c <= '9')) {
            assert(!is_symbol_char(s@[i as int]));
            return false;
        }
        i = i + 1;
    }
    true
}

/// The symbol `{prefix}_{ident}`, or `None` where that is not a valid symbol.
pub fn symbol_name(prefix: &str, ident: &str) -> (r: Option<String>)
    ensures
        r is Some <==> valid_symbol(symbol_text(prefix@, ident@)),
        r matches Some(s) ==> s@ == symbol_text(prefix@, ident@),
{
    let mut symbol = String::from_str(prefix);
    symbol.append("_");
    symbol.append(ident);
    proof {
        reveal_strlit("_");
    }
    assert(symbol@ =~= symbol_text(prefix@, ident@));
    if is_valid_symbol(symbol.as_str()) {
        Some(symbol)
    } else {
        None
    }
}

/// Calls `proc_macro2::Ident::new` with `Span::call_site()`. The identifier
/// must be one that the language accepts: the function panics on any other
/// string, and every valid symbol is one. The identifier it makes is not raw,
/// and its `Display` writes the text it was made from, so whatever string
/// `to_string` gives back for it holds that text. Its span is not stated.
#[verifier::external_body]
fn new_ident(text: &str) -> (r: proc_macro2::Ident)
    requires
        valid_symbol(text@),
    ensures
        forall|s: String| #[trigger]
            to_string_from_display_ensures::<proc_macro2::Ident>(&r, s) ==> s@ == text@,
{
    proc_macro2::Ident::new(text, proc_macro2::Span::call_site())
}

/// The identifier of the symbol `{prefix}_{ident}`, which must be a valid symbol:
/// the string that `to_string` gives for it is that symbol.
pub fn symbol_ident(prefix: &str, ident: &str) -> (r: proc_macro2::Ident)
    requires
        valid_symbol(symbol_text(prefix@, ident@)),
    ensures
        forall|s: String| #[trigger]
            to_string_from_display_ensures::<proc_macro2::Ident>(&r, s) ==> s@ == symbol_text(
                prefix@,
                ident@,
            ),
{
    let symbol = symbol_name(prefix, ident).unwrap();
    new_ident(symbol.as_str())
}


/// Whether `prefix` is empty or a valid symbol: then it gives a valid symbol
/// to every name made of symbol characters.
pub open spec fn valid_prefix(prefix: Seq<char>) -> bool {
    prefix.len() == 0 || valid_symbol(prefix)
}

/// Whether `prefix` is empty or a valid symbol.
pub fn is_valid_prefix(prefix: &str) -> (r: bool)
    ensures
        r == valid_prefix(prefix@),
{
    prefix.unicode_len() == 0 || is_valid_symbol(prefix)
}

/// A name made of symbol characters gets a valid symbol exactly under a valid prefix.
pub proof fn lemma_symbol_valid_under_prefix(prefix: Seq<char>, ident: Seq<char>)
    requires
        forall|i: int| 0 <= i < ident.len() ==> #[trigger] is_symbol_char(ident[i]),
    ensures
        valid_symbol(symbol_text(prefix, ident)) == valid_prefix(prefix),
{
    let s = symbol_text(prefix, ident);
    if prefix.len() == 0 {
        assert forall|i: int| 0 <= i < s.len() implies #[trigger] is_symbol_char(s[i]) by {
            if i == 0 {
                assert(s[i] == '_');
            } else {
                assert(s[i] == ident[i - 1]);
            }
        }
        assert(s[0] == '_');
    } else if valid_symbol(prefix) {
        law_valid_prefix_gives_valid_symbols(prefix, ident);
    } else if valid_symbol(s) {
        assert forall|i: int| 0 <= i < prefix.len() implies #[trigger] is_symbol_char(prefix[i]) by {
            assert(s[i] == prefix[i]);
        }
        assert(s[0] == prefix[0]);
    }
}

/// Two items under one prefix get the same symbol only when they have the same name.
pub proof fn law_symbols_distinguish_items(prefix: Seq<char>, a: Seq<char>, b: Seq<char>)
    ensures
        symbol_text(prefix, a) == symbol_text(prefix, b) ==> a == b,
{
    if symbol_text(prefix, a) == symbol_text(prefix, b) {
        let k: int = prefix.len() as int + 1;
        assert(a =~= symbol_text(prefix, a).skip(k));
        assert(b =~= symbol_text(prefix, b).skip(k));
    }
}

/// A valid prefix and a name made of symbol characters always give a valid symbol.
pub proof fn law_valid_prefix_gives_valid_symbols(prefix: Seq<char>, ident: Seq<char>)
    requires
        valid_symbol(prefix),
        forall|i: int| 0 <= i < ident.len() ==> #[trigger] is_symbol_char(ident[i]),
    ensures
        valid_symbol(symbol_text(prefix, ident)),
{
    let s = symbol_text(prefix, ident);
    assert forall|i: int| 0 <= i < s.len() implies #[trigger] is_symbol_char(s[i]) by {
        if i < prefix.len() {
            assert(s[i] == prefix[i]);
        } else if i == prefix.len() {
            assert(s[i] == '_');
        } else {
            assert(s[i] == ident[i - prefix.len() - 1]);
        }
    }
    assert(s[0] == prefix[0]);
}

} // verus!
