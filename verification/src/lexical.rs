//! Lexical forms: owned IRIs, blank node identifiers and language tags.
//!
//! These types hold the textual spelling of a graph term. Syntax checking of
//! IRIs and language tags is delegated to the `iref` and `langtag` crates
//! through trusted wrappers; everything else is verified.

use vstd::prelude::*;
use vstd::string::*;

verus! {

use core::cmp::Ordering;

/// Whether a string is a syntactically valid IRI, as decided by `iref`'s
/// grammar.
pub uninterp spec fn iri_ok(s: Seq<char>) -> bool;

/// Whether a string is a syntactically valid BCP 47 language tag, as decided
/// by `langtag`'s grammar.
pub uninterp spec fn langtag_ok(s: Seq<char>) -> bool;

/// Relies on `iref::Iri::new`: it accepts exactly the strings that parse
/// under the IRI grammar, and its verdict depends on the string alone.
#[verifier::external_body]
fn check_iri(s: &str) -> (r: bool)
    ensures
        r == iri_ok(s@),
{
    iref::Iri::new(s).is_ok()
}

/// Relies on `langtag::LangTag::new`: it accepts exactly the strings that
/// parse under the RFC 5646 grammar, and its verdict depends on the string
/// alone. The grammar admits no empty tag, so acceptance implies a non-empty
/// string.
#[verifier::external_body]
fn check_langtag(s: &str) -> (r: bool)
    ensures
        r == langtag_ok(s@),
        r ==> s@.len() > 0,
{
    langtag::LangTag::new(s).is_ok()
}

/// Lexicographic order on strings by unicode code point.
pub open spec fn lex_cmp(a: Seq<char>, b: Seq<char>) -> Ordering
    decreases a.len(),
{
    if a.len() == 0 && b.len() == 0 {
        Ordering::Equal
    } else if a.len() == 0 {
        Ordering::Less
    } else if b.len() == 0 {
        Ordering::Greater
    } else if a[0] < b[0] {
        Ordering::Less
    } else if b[0] < a[0] {
        Ordering::Greater
    } else {
        lex_cmp(a.drop_first(), b.drop_first())
    }
}

proof fn lemma_lex_cmp_skip(a: Seq<char>, b: Seq<char>, i: int)
    requires
        0 <= i <= a.len(),
        i <= b.len(),
        forall|k: int| 0 <= k < i ==> a[k] == b[k],
    ensures
        lex_cmp(a, b) == lex_cmp(a.skip(i), b.skip(i)),
    decreases i,
{
    if i > 0 {
        assert(a.len() > 0 && b.len() > 0);
        assert(a[0] == b[0]);
        assert(lex_cmp(a, b) == lex_cmp(a.drop_first(), b.drop_first()));
        assert(forall|k: int| 0 <= k < i - 1 ==> a.drop_first()[k] == b.drop_first()[k]);
        lemma_lex_cmp_skip(a.drop_first(), b.drop_first(), i - 1);
        assert(a.drop_first().skip(i - 1) =~= a.skip(i));
        assert(b.drop_first().skip(i - 1) =~= b.skip(i));
    } else {
        assert(a.skip(0) =~= a);
        assert(b.skip(0) =~= b);
    }
}

/// Three-way lexicographic comparison of two strings by code point.
pub fn str_lex_cmp(a: &str, b: &str) -> (r: Ordering)
    ensures
        r == lex_cmp(a@, b@),
{
    let alen = a.unicode_len();
    let blen = b.unicode_len();
    let n = if alen < blen {
        alen
    } else {
        blen
    };
    let mut i: usize = 0;
    while i < n
        invariant
            alen == a@.len(),
            blen == b@.len(),
            n == if alen < blen { alen } else { blen },
            i <= n,
            forall|k: int| 0 <= k < i ==> a@[k] == b@[k],
        decreases n - i,
    {
        let ca = a.get_char(i);
        let cb = b.get_char(i);
        if ca < cb {
            proof {
                lemma_lex_cmp_skip(a@, b@, i as int);
            }
            return Ordering::Less;
        }
        if cb < ca {
            proof {
                lemma_lex_cmp_skip(a@, b@, i as int);
            }
            return Ordering::Greater;
        }
        i += 1;
    }
    proof {
        lemma_lex_cmp_skip(a@, b@, n as int);
    }
    if alen < blen {
        Ordering::Less
    } else if alen > blen {
        Ordering::Greater
    } else {
        proof {
            assert(a@.skip(n as int).len() == 0);
            assert(b@.skip(n as int).len() == 0);
        }
        Ordering::Equal
    }
}

/// Equal strings compare `Equal`, and conversely.
pub proof fn lemma_lex_cmp_equal(a: Seq<char>, b: Seq<char>)
    ensures
        lex_cmp(a, b) == Ordering::Equal <==> a == b,
    decreases a.len(),
{
    if a.len() == 0 && b.len() == 0 {
        assert(a =~= b);
    } else if a.len() > 0 && b.len() > 0 && a[0] == b[0] {
        assert(lex_cmp(a, b) == lex_cmp(a.drop_first(), b.drop_first()));
        lemma_lex_cmp_equal(a.drop_first(), b.drop_first());
        if a.drop_first() == b.drop_first() {
            assert forall|k: int| 0 <= k < a.len() implies a[k] == b[k] by {
                if k > 0 {
                    assert(a[k] == a.drop_first()[k - 1]);
                    assert(b[k] == b.drop_first()[k - 1]);
                }
            }
            assert(a =~= b);
        }
        if a == b {
            assert(a.drop_first() =~= b.drop_first());
        }
    } else {
        assert(a != b);
        if a.len() == 0 {
            assert(lex_cmp(a, b) == Ordering::Less);
        } else if b.len() == 0 {
            assert(lex_cmp(a, b) == Ordering::Greater);
        } else {
            assert(a[0] < b[0] || b[0] < a[0]);
            if a[0] < b[0] {
                assert(lex_cmp(a, b) == Ordering::Less);
            } else {
                assert(lex_cmp(a, b) == Ordering::Greater);
            }
        }
    }
}

/// Owned lexical IRI.
///
/// A plain holder for the textual form of an IRI. [`IriBuf::new`] checks the
/// IRI grammar; internal producers that build strings already known to have
/// IRI shape construct the value directly.
#[derive(Debug)]
pub struct IriBuf {
    s: String,
}

/// Error of [`IriBuf::new`]: the rejected string.
#[derive(Clone, Debug)]
pub struct InvalidIri(pub String);

impl View for IriBuf {
    type V = Seq<char>;

    closed spec fn view(&self) -> Seq<char> {
        self.s@
    }
}

impl IriBuf {
    /// Parses an owned IRI, accepting exactly the strings of the IRI grammar.
    pub fn new(s: String) -> (r: Result<IriBuf, InvalidIri>)
        ensures
            r matches Ok(i) ==> i@ == s@ && iri_ok(s@),
            r matches Err(e) ==> e.0@ == s@ && !iri_ok(s@),
            r is Ok <==> iri_ok(s@),
    {
        if check_iri(s.as_str()) {
            Ok(IriBuf { s })
        } else {
            Err(InvalidIri(s))
        }
    }

    /// Wraps a string without a grammar check; for crate-internal producers
    /// whose output shape is fixed.
    pub(crate) fn from_string(s: String) -> (r: IriBuf)
        ensures
            r@ == s@,
    {
        IriBuf { s }
    }

    /// Whether this lexical form is a valid IRI.
    pub open spec fn wf(&self) -> bool {
        iri_ok(self@)
    }

    /// Borrows the textual form.
    pub fn as_str(&self) -> (r: &str)
        ensures
            r@ == self@,
    {
        self.s.as_str()
    }

    /// Extracts the textual form.
    pub fn into_string(self) -> (r: String)
        ensures
            r@ == self@,
    {
        self.s
    }
}

impl Clone for IriBuf {
    fn clone(&self) -> (r: Self)
        ensures
            r == *self,
    {
        IriBuf { s: self.s.clone() }
    }
}

impl PartialEq for IriBuf {
    fn eq(&self, other: &Self) -> (r: bool) {
        self.s == other.s
    }
}

impl vstd::std_specs::cmp::PartialEqSpecImpl for IriBuf {
    open spec fn obeys_eq_spec() -> bool {
        true
    }

    open spec fn eq_spec(&self, other: &Self) -> bool {
        self@ == other@
    }
}

impl PartialOrd for IriBuf {
    fn partial_cmp(&self, other: &Self) -> (r: Option<Ordering>) {
        Some(str_lex_cmp(self.s.as_str(), other.s.as_str()))
    }
}

impl vstd::std_specs::cmp::PartialOrdSpecImpl for IriBuf {
    open spec fn obeys_partial_cmp_spec() -> bool {
        true
    }

    open spec fn partial_cmp_spec(&self, other: &Self) -> Option<Ordering> {
        Some(lex_cmp(self@, other@))
    }
}

/// The shape every blank node identifier has: a `_:` prefix followed by at
/// least one character.
pub open spec fn blank_id_ok(s: Seq<char>) -> bool {
    s.len() >= 3 && s[0] == '_' && s[1] == ':'
}

/// Owned blank node identifier, including its `_:` prefix.
#[derive(Debug)]
pub struct BlankIdBuf {
    s: String,
}

/// Error of [`BlankIdBuf::new`]: the rejected string.
#[derive(Clone, Debug)]
pub struct InvalidBlankId(pub String);

impl View for BlankIdBuf {
    type V = Seq<char>;

    closed spec fn view(&self) -> Seq<char> {
        self.s@
    }
}

impl BlankIdBuf {
    /// Parses an owned blank node identifier: `_:` followed by at least one
    /// character.
    pub fn new(s: String) -> (r: Result<BlankIdBuf, InvalidBlankId>)
        ensures
            r matches Ok(b) ==> b@ == s@ && blank_id_ok(s@),
            r matches Err(e) ==> e.0@ == s@ && !blank_id_ok(s@),
            r is Ok <==> blank_id_ok(s@),
    {
        let st = s.as_str();
        if st.unicode_len() >= 3 && st.get_char(0) == '_' && st.get_char(1) == ':' {
            Ok(BlankIdBuf { s })
        } else {
            Err(InvalidBlankId(s))
        }
    }

    /// Wraps a string without the shape check; for crate-internal producers
    /// that prove the shape of what they build.
    pub(crate) fn from_string(s: String) -> (r: BlankIdBuf)
        ensures
            r@ == s@,
    {
        BlankIdBuf { s }
    }

    /// Whether this identifier has the blank node shape.
    pub open spec fn wf(&self) -> bool {
        blank_id_ok(self@)
    }

    /// Borrows the textual form, `_:` prefix included.
    pub fn as_str(&self) -> (r: &str)
        ensures
            r@ == self@,
    {
        self.s.as_str()
    }

    /// Extracts the textual form.
    pub fn into_string(self) -> (r: String)
        ensures
            r@ == self@,
    {
        self.s
    }
}

impl Clone for BlankIdBuf {
    fn clone(&self) -> (r: Self)
        ensures
            r == *self,
    {
        BlankIdBuf { s: self.s.clone() }
    }
}

impl PartialEq for BlankIdBuf {
    fn eq(&self, other: &Self) -> (r: bool) {
        self.s == other.s
    }
}

impl vstd::std_specs::cmp::PartialEqSpecImpl for BlankIdBuf {
    open spec fn obeys_eq_spec() -> bool {
        true
    }

    open spec fn eq_spec(&self, other: &Self) -> bool {
        self@ == other@
    }
}

impl PartialOrd for BlankIdBuf {
    fn partial_cmp(&self, other: &Self) -> (r: Option<Ordering>) {
        Some(str_lex_cmp(self.s.as_str(), other.s.as_str()))
    }
}

impl vstd::std_specs::cmp::PartialOrdSpecImpl for BlankIdBuf {
    open spec fn obeys_partial_cmp_spec() -> bool {
        true
    }

    open spec fn partial_cmp_spec(&self, other: &Self) -> Option<Ordering> {
        Some(lex_cmp(self@, other@))
    }
}

/// Owned language tag.
#[derive(Debug)]
pub struct LangTagBuf {
    s: String,
}

/// Error of [`LangTagBuf::new`]: the rejected string.
#[derive(Clone, Debug)]
pub struct InvalidLangTag(pub String);

impl View for LangTagBuf {
    type V = Seq<char>;

    closed spec fn view(&self) -> Seq<char> {
        self.s@
    }
}

impl LangTagBuf {
    /// Parses an owned language tag, accepting exactly the strings of the
    /// RFC 5646 grammar.
    pub fn new(s: String) -> (r: Result<LangTagBuf, InvalidLangTag>)
        ensures
            r matches Ok(t) ==> t@ == s@ && langtag_ok(s@) && t.wf(),
            r matches Err(e) ==> e.0@ == s@ && !langtag_ok(s@),
            r is Ok <==> langtag_ok(s@),
    {
        if check_langtag(s.as_str()) {
            Ok(LangTagBuf { s })
        } else {
            Err(InvalidLangTag(s))
        }
    }

    /// Whether this lexical form is a valid language tag. Valid tags are
    /// never empty.
    pub open spec fn wf(&self) -> bool {
        langtag_ok(self@) && self@.len() > 0
    }

    /// Borrows the textual form.
    pub fn as_str(&self) -> (r: &str)
        ensures
            r@ == self@,
    {
        self.s.as_str()
    }

    /// Extracts the textual form.
    pub fn into_string(self) -> (r: String)
        ensures
            r@ == self@,
    {
        self.s
    }
}

impl Clone for LangTagBuf {
    fn clone(&self) -> (r: Self)
        ensures
            r == *self,
    {
        LangTagBuf { s: self.s.clone() }
    }
}

impl PartialEq for LangTagBuf {
    fn eq(&self, other: &Self) -> (r: bool) {
        self.s == other.s
    }
}

impl vstd::std_specs::cmp::PartialEqSpecImpl for LangTagBuf {
    open spec fn obeys_eq_spec() -> bool {
        true
    }

    open spec fn eq_spec(&self, other: &Self) -> bool {
        self@ == other@
    }
}

impl PartialOrd for LangTagBuf {
    fn partial_cmp(&self, other: &Self) -> (r: Option<Ordering>) {
        Some(str_lex_cmp(self.s.as_str(), other.s.as_str()))
    }
}

impl vstd::std_specs::cmp::PartialOrdSpecImpl for LangTagBuf {
    open spec fn obeys_partial_cmp_spec() -> bool {
        true
    }

    open spec fn partial_cmp_spec(&self, other: &Self) -> Option<Ordering> {
        Some(lex_cmp(self@, other@))
    }
}

} // verus!
