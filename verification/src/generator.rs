//! Node identifier generators.

use vstd::prelude::*;
use vstd::string::*;

verus! {

use crate::lexical::{blank_id_ok, BlankIdBuf, IriBuf};
use crate::term::id::Id;
use crate::vocabulary::{
    blank_resolve, iri_resolve, IndexVocabulary, IndexedBlankId, IndexedIri,
};

/// Node identifier generator.
///
/// Mints fresh identifiers that are already registered in the vocabulary:
/// the returned identifier resolves there, and the vocabulary's arenas only
/// ever grow.
pub trait Generator<I: IndexedIri, B: IndexedBlankId>: Sized {
    /// Whether the generator can still produce an identifier.
    spec fn can_generate(&self) -> bool;

    /// Generates the next fresh node identifier in the given vocabulary.
    fn next(&mut self, vocabulary: &mut IndexVocabulary<I, B>) -> (r: Id<I, B>)
        requires
            old(self).can_generate(),
        ensures
            old(vocabulary).iris().is_prefix_of(final(vocabulary).iris()),
            old(vocabulary).blank_ids().is_prefix_of(final(vocabulary).blank_ids()),
            match r {
                Id::Iri(i) => iri_resolve::<I>(final(vocabulary).iris(), i) is Some,
                Id::Blank(b) => blank_resolve::<B>(final(vocabulary).blank_ids(), b) is Some,
            },
    ;
}

/// The digit character of a value below ten.
pub open spec fn digit_char(d: nat) -> char {
    if d == 0 {
        '0'
    } else if d == 1 {
        '1'
    } else if d == 2 {
        '2'
    } else if d == 3 {
        '3'
    } else if d == 4 {
        '4'
    } else if d == 5 {
        '5'
    } else if d == 6 {
        '6'
    } else if d == 7 {
        '7'
    } else if d == 8 {
        '8'
    } else {
        '9'
    }
}

/// The decimal rendering of a number, most significant digit first, with no
/// leading zeros except for zero itself.
pub open spec fn decimal_digits(n: nat) -> Seq<char>
    decreases n,
{
    if n < 10 {
        seq![digit_char(n)]
    } else {
        decimal_digits(n / 10).push(digit_char(n % 10))
    }
}

/// A decimal rendering holds at least one character.
pub proof fn lemma_decimal_digits_len(n: nat)
    ensures
        decimal_digits(n).len() >= 1,
{
}

/// Distinct numbers render to distinct decimal strings.
pub proof fn lemma_decimal_digits_injective(n1: nat, n2: nat)
    requires
        n1 != n2,
    ensures
        decimal_digits(n1) != decimal_digits(n2),
    decreases n1 + n2,
{
    let d1 = decimal_digits(n1);
    let d2 = decimal_digits(n2);
    if n1 < 10 && n2 < 10 {
        assert(d1[0] != d2[0]);
    } else if n1 < 10 {
        lemma_decimal_digits_len(n2 / 10);
        assert(d1.len() == 1 && d2.len() >= 2);
    } else if n2 < 10 {
        lemma_decimal_digits_len(n1 / 10);
        assert(d2.len() == 1 && d1.len() >= 2);
    } else if n1 % 10 != n2 % 10 {
        assert(d1.last() != d2.last());
        if d1 == d2 {
            assert(d1.last() == d2.last());
        }
    } else {
        assert(n1 / 10 != n2 / 10);
        lemma_decimal_digits_injective(n1 / 10, n2 / 10);
        if d1 == d2 {
            assert(d1.drop_last() =~= decimal_digits(n1 / 10));
            assert(d2.drop_last() =~= decimal_digits(n2 / 10));
            assert(decimal_digits(n1 / 10) == decimal_digits(n2 / 10));
        }
    }
}

/// Two identifiers built from the same prefix and distinct counter values
/// differ: the sequential generator never repeats an identifier.
pub proof fn lemma_blank_ids_distinct(prefix: Seq<char>, n1: nat, n2: nat)
    requires
        n1 != n2,
    ensures
        "_:"@ + prefix + decimal_digits(n1) != "_:"@ + prefix + decimal_digits(n2),
{
    lemma_decimal_digits_injective(n1, n2);
    let s1 = "_:"@ + prefix + decimal_digits(n1);
    let s2 = "_:"@ + prefix + decimal_digits(n2);
    let head = ("_:"@ + prefix).len();
    if s1 == s2 {
        assert(s1.skip(head as int) =~= decimal_digits(n1));
        assert(s2.skip(head as int) =~= decimal_digits(n2));
        assert(decimal_digits(n1) == decimal_digits(n2));
    }
}

fn digit_str(d: usize) -> (r: &'static str)
    requires
        d < 10,
    ensures
        r@ == seq![digit_char(d as nat)],
{
    match d {
        0 => {
            proof {
                reveal_strlit("0");
                assert("0"@ =~= seq![digit_char(0)]);
            }
            "0"
        },
        1 => {
            proof {
                reveal_strlit("1");
                assert("1"@ =~= seq![digit_char(1)]);
            }
            "1"
        },
        2 => {
            proof {
                reveal_strlit("2");
                assert("2"@ =~= seq![digit_char(2)]);
            }
            "2"
        },
        3 => {
            proof {
                reveal_strlit("3");
                assert("3"@ =~= seq![digit_char(3)]);
            }
            "3"
        },
        4 => {
            proof {
                reveal_strlit("4");
                assert("4"@ =~= seq![digit_char(4)]);
            }
            "4"
        },
        5 => {
            proof {
                reveal_strlit("5");
                assert("5"@ =~= seq![digit_char(5)]);
            }
            "5"
        },
        6 => {
            proof {
                reveal_strlit("6");
                assert("6"@ =~= seq![digit_char(6)]);
            }
            "6"
        },
        7 => {
            proof {
                reveal_strlit("7");
                assert("7"@ =~= seq![digit_char(7)]);
            }
            "7"
        },
        8 => {
            proof {
                reveal_strlit("8");
                assert("8"@ =~= seq![digit_char(8)]);
            }
            "8"
        },
        _ => {
            proof {
                reveal_strlit("9");
                assert("9"@ =~= seq![digit_char(9)]);
            }
            "9"
        },
    }
}

/// Appends the decimal rendering of `n` to `out`.
fn push_decimal(n: usize, out: &mut String)
    ensures
        final(out)@ == old(out)@ + decimal_digits(n as nat),
    decreases n,
{
    if n >= 10 {
        push_decimal(n / 10, out);
        out.append(digit_str(n % 10));
        proof {
            assert(final(out)@ =~= old(out)@ + decimal_digits(n as nat));
        }
    } else {
        out.append(digit_str(n));
        proof {
            assert(final(out)@ =~= old(out)@ + decimal_digits(n as nat));
        }
    }
}

/// Generates numbered blank node identifiers, with an optional prefix.
///
/// The counter space is finite: once `usize::MAX` identifiers have been
/// produced the generator is exhausted, and `next` may no longer be called.
pub struct Blank {
    /// Prefix string.
    prefix: String,
    /// Number of already generated identifiers.
    count: usize,
}

impl Blank {
    /// The generator's prefix, as an abstract field.
    pub closed spec fn spec_prefix(&self) -> Seq<char> {
        self.prefix@
    }

    /// The generator's counter, as an abstract field.
    pub closed spec fn spec_count(&self) -> usize {
        self.count
    }

    /// Creates a new numbered generator with no prefix.
    pub fn new() -> (r: Self)
        ensures
            r.spec_prefix() == Seq::<char>::empty(),
            r.spec_count() == 0,
    {
        Self::new_full(String::new(), 0)
    }

    /// Creates a new numbered generator with no prefix, starting at the
    /// given offset.
    pub fn new_with_offset(offset: usize) -> (r: Self)
        ensures
            r.spec_prefix() == Seq::<char>::empty(),
            r.spec_count() == offset,
    {
        Self::new_full(String::new(), offset)
    }

    /// Creates a new numbered generator with the given prefix.
    pub fn new_with_prefix(prefix: String) -> (r: Self)
        ensures
            r.spec_prefix() == prefix@,
            r.spec_count() == 0,
    {
        Self::new_full(prefix, 0)
    }

    /// Creates a new numbered generator with the given prefix, starting at
    /// the given offset.
    pub fn new_full(prefix: String, offset: usize) -> (r: Self)
        ensures
            r.spec_prefix() == prefix@,
            r.spec_count() == offset,
    {
        Blank { prefix, count: offset }
    }

    /// Generates identifiers annotated with the given metadata.
    pub fn with_metadata<M>(self, metadata: M) -> (r: WithMetadata<Self, M>)
        ensures
            r.generator == self,
            r.metadata == metadata,
    {
        WithMetadata { metadata, generator: self }
    }

    /// Generates identifiers annotated with the default value of type `M`.
    pub fn with_default_metadata<M: Default>(self) -> (r: WithMetadata<Self, M>)
        ensures
            r.generator == self,
    {
        WithMetadata { metadata: M::default(), generator: self }
    }

    /// Returns the prefix of this generator.
    pub fn prefix(&self) -> (r: &str)
        ensures
            r@ == self.spec_prefix(),
    {
        self.prefix.as_str()
    }

    /// Returns the number of already generated identifiers.
    pub fn count(&self) -> (r: usize)
        ensures
            r == self.spec_count(),
    {
        self.count
    }

    /// Builds the next blank node identifier, `_:` followed by the prefix
    /// and the counter's decimal rendering, and steps the counter.
    pub fn next_blank_id(&mut self) -> (id: BlankIdBuf)
        requires
            old(self).spec_count() < usize::MAX,
        ensures
            id@ == "_:"@ + old(self).spec_prefix() + decimal_digits(old(self).spec_count() as nat),
            id.wf(),
            final(self).spec_prefix() == old(self).spec_prefix(),
            final(self).spec_count() == old(self).spec_count() + 1,
    {
        let mut s = String::new();
        s.append("_:");
        s.append(self.prefix.as_str());
        push_decimal(self.count, &mut s);
        self.count = self.count + 1;
        proof {
            reveal_strlit("_:");
            lemma_decimal_digits_len(old(self).spec_count() as nat);
            assert(s@[0] == '_');
            assert(s@[1] == ':');
            assert(blank_id_ok(s@));
        }
        BlankIdBuf::from_string(s)
    }
}

impl Default for Blank {
    fn default() -> (r: Self)
        ensures
            r.spec_prefix() == Seq::<char>::empty(),
            r.spec_count() == 0,
    {
        Self::new()
    }
}

impl<I: IndexedIri, B: IndexedBlankId> Generator<I, B> for Blank {
    open spec fn can_generate(&self) -> bool {
        self.spec_count() < usize::MAX
    }

    fn next(&mut self, vocabulary: &mut IndexVocabulary<I, B>) -> (r: Id<I, B>) {
        let id = self.next_blank_id();
        Id::Blank(vocabulary.insert_blank_id(&id))
    }
}

/// A generator paired with the metadata its identifiers are annotated with.
pub struct WithMetadata<G, M> {
    /// The annotation attached to each generated identifier.
    pub metadata: M,
    /// The underlying generator.
    pub generator: G,
}

/// What UUID version three computes from a namespace and a name; a function
/// of its arguments alone.
pub uninterp spec fn uuid_v3_of(ns: Seq<u8>, name: Seq<char>) -> Seq<u8>;

/// What UUID version five computes from a namespace and a name; a function
/// of its arguments alone.
pub uninterp spec fn uuid_v5_of(ns: Seq<u8>, name: Seq<char>) -> Seq<u8>;

/// The URN form of a UUID's bytes; a function of the bytes alone.
pub uninterp spec fn uuid_urn_of(b: Seq<u8>) -> Seq<char>;

/// Relies on `uuid::Uuid::new_v3`: the version 3, MD5 name-based UUID of a
/// namespace and a name, 16 bytes, a deterministic function of both.
/// `uuid::Uuid::from_bytes` converts the namespace bytes.
#[verifier::external_body]
fn uuid_v3_bytes(ns: &Vec<u8>, name: &str) -> (r: Vec<u8>)
    requires
        ns@.len() == 16,
    ensures
        r@ == uuid_v3_of(ns@, name@),
        r@.len() == 16,
{
    let mut arr = [0u8; 16];
    arr.copy_from_slice(ns);
    uuid::Uuid::new_v3(&uuid::Uuid::from_bytes(arr), name.as_bytes()).into_bytes().to_vec()
}

/// Relies on `uuid::Uuid::new_v4`: a version 4 UUID of 16 random bytes;
/// nothing is promised of the value.
#[verifier::external_body]
fn uuid_v4_bytes() -> (r: Vec<u8>)
    ensures
        r@.len() == 16,
{
    uuid::Uuid::new_v4().into_bytes().to_vec()
}

/// Relies on `uuid::Uuid::new_v5`: the version 5, SHA-1 name-based UUID of a
/// namespace and a name, 16 bytes, a deterministic function of both.
/// `uuid::Uuid::from_bytes` converts the namespace bytes.
#[verifier::external_body]
fn uuid_v5_bytes(ns: &Vec<u8>, name: &str) -> (r: Vec<u8>)
    requires
        ns@.len() == 16,
    ensures
        r@ == uuid_v5_of(ns@, name@),
        r@.len() == 16,
{
    let mut arr = [0u8; 16];
    arr.copy_from_slice(ns);
    uuid::Uuid::new_v5(&uuid::Uuid::from_bytes(arr), name.as_bytes()).into_bytes().to_vec()
}

/// Relies on `uuid::fmt::Urn`: the canonical URN rendering of a UUID,
/// `urn:uuid:` followed by its hyphenated lowercase hex digits, 45
/// characters in all, a function of the bytes alone.
#[verifier::external_body]
fn uuid_urn_string(b: &Vec<u8>) -> (r: String)
    requires
        b@.len() == 16,
    ensures
        r@ == uuid_urn_of(b@),
        r@.len() == 45,
{
    let mut arr = [0u8; 16];
    arr.copy_from_slice(b);
    format!("{}", uuid::Uuid::from_bytes(arr).urn())
}

/// Generates UUID-based identifiers, with a choice of UUID version.
///
/// The deterministic versions carry the 16 namespace bytes and the name the
/// UUID is computed from; version 4 draws random bytes.
pub enum Uuid {
    /// UUID version 3: MD5 name-based, from a 16-byte namespace and a name.
    V3(Vec<u8>, String),
    /// UUID version 4: random.
    V4,
    /// UUID version 5: SHA-1 name-based, from a 16-byte namespace and a
    /// name.
    V5(Vec<u8>, String),
}

impl Uuid {
    /// Whether the namespace, where one is carried, holds exactly 16 bytes.
    pub open spec fn wf(&self) -> bool {
        match self {
            Uuid::V3(ns, _) => ns@.len() == 16,
            Uuid::V4 => true,
            Uuid::V5(ns, _) => ns@.len() == 16,
        }
    }

    /// Computes the next UUID: deterministic for versions 3 and 5, random
    /// for version 4.
    pub fn next_uuid(&self) -> (r: Vec<u8>)
        requires
            self.wf(),
        ensures
            r@.len() == 16,
            self matches Uuid::V3(ns, name) ==> r@ == uuid_v3_of(ns@, name@),
            self matches Uuid::V5(ns, name) ==> r@ == uuid_v5_of(ns@, name@),
    {
        match self {
            Uuid::V3(ns, name) => uuid_v3_bytes(ns, name.as_str()),
            Uuid::V4 => uuid_v4_bytes(),
            Uuid::V5(ns, name) => uuid_v5_bytes(ns, name.as_str()),
        }
    }

    /// Generates identifiers annotated with the given metadata.
    pub fn with_metadata<M>(self, metadata: M) -> (r: WithMetadata<Self, M>)
        ensures
            r.generator == self,
            r.metadata == metadata,
    {
        WithMetadata { metadata, generator: self }
    }

    /// Generates identifiers annotated with the default value of type `M`.
    pub fn with_default_metadata<M: Default>(self) -> (r: WithMetadata<Self, M>)
        ensures
            r.generator == self,
    {
        WithMetadata { metadata: M::default(), generator: self }
    }
}

impl<I: IndexedIri, B: IndexedBlankId> Generator<I, B> for Uuid {
    open spec fn can_generate(&self) -> bool {
        self.wf()
    }

    fn next(&mut self, vocabulary: &mut IndexVocabulary<I, B>) -> (r: Id<I, B>) {
        let bytes = self.next_uuid();
        let urn = uuid_urn_string(&bytes);
        let iri = IriBuf::from_string(urn);
        Id::Iri(vocabulary.insert(&iri))
    }
}

} // verus!
